# rs-adb-mcp

A Model Context Protocol server, speaking JSON-RPC over standard input and
output, that offers the Android Debug Bridge (`adb`) as tools: listing
devices, running shell commands, installing APKs, reading the log, moving
files to and from a device, driving the activity and package managers,
dumping the UI hierarchy and taking screenshots.

## Layout

- `src/` is the library, verified with Verus.
  - `json` models JSON documents and reads members of them.
  - `text`, `path` write numbers in decimal and name local files, by the
    path conventions of Unix or of Windows, whichever the server runs on.
  - `codec` holds the calls into the `base64` crate and std's UTF-8
    decoding, with the contracts that the rest relies on.
  - `errors` lists why a tool can fail and how each failure is worded.
  - `adb` builds `adb` command lines and reads how a run ended.
  - `session` carries out a tool's plan: it asks for one piece of outside
    work at a time and decides what follows from each answer.
  - `protocol`, `tools`, `server` hold the JSON-RPC replies, the tool
    catalogue, the plan of each tool and the routing of requests.
  - `laws` states and proves what holds across these functions.
- `app/` is the program: it reads request lines, runs `adb`, reads and
  writes local files, and prints the replies that the library builds.
- `tests/` runs the library on concrete requests and answers.
