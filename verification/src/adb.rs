use vstd::prelude::*;
use vstd::utf8::{decode_utf8, valid_utf8};

use crate::codec::{lossy_text, lossy_utf8};
use crate::errors::{Failure, ToolError};

verus! {

/// The texts of a list of strings.
pub open spec fn texts(v: Seq<String>) -> Seq<Seq<char>> {
    v.map_values(|s: String| s@)
}

/// The options that select a device: `-s <device>` when one is named.
pub open spec fn device_options(device: Option<Seq<char>>) -> Seq<Seq<char>> {
    match device {
        Some(d) => seq!["-s"@, d],
        None => Seq::empty(),
    }
}

/// What an `adb` run comes to: its standard output when it succeeds, and
/// otherwise a failure that carries its standard error.
pub open spec fn adb_result(success: bool, stdout: Seq<u8>, stderr: Seq<u8>) -> Result<
    Seq<char>,
    Failure,
> {
    if success {
        Ok(lossy_text(stdout))
    } else {
        Err(Failure::AdbFailed(lossy_text(stderr)))
    }
}

/// The view of a tool's outcome.
pub open spec fn outcome_view(o: Result<String, ToolError>) -> Result<Seq<char>, Failure> {
    match o {
        Ok(s) => Ok(s@),
        Err(e) => Err(e@),
    }
}

/// An owned copy of a list of strings.
pub fn copy_texts(v: &Vec<String>) -> (c: Vec<String>)
    ensures
        texts(c@) == texts(v@),
{
    let mut c: Vec<String> = Vec::new();
    let mut i: usize = 0;
    while i < v.len()
        invariant
            i <= v.len(),
            c@.len() == i,
            forall|j: int| 0 <= j < i ==> #[trigger] c@[j]@ == v@[j]@,
        decreases v.len() - i,
    {
        c.push(v[i].clone());
        i = i + 1;
    }
    assert(texts(c@) =~= texts(v@));
    c
}

/// The full argument list of an `adb` run: the device options, then the
/// command's own arguments.
pub fn adb_command(device: Option<&str>, args: Vec<String>) -> (argv: Vec<String>)
    ensures
        texts(argv@) == device_options(
            match device {
                Some(d) => Some(d@),
                None => None,
            },
        ) + texts(args@),
{
    let ghost dev = match device {
        Some(d) => Some(d@),
        None => None,
    };
    let mut argv: Vec<String> = Vec::new();
    match device {
        Some(d) => {
            argv.push("-s".to_owned());
            argv.push(d.to_owned());
        },
        None => {},
    }
    let ghost prefix = texts(argv@);
    assert(prefix =~= device_options(dev));
    let mut i: usize = 0;
    while i < args.len()
        invariant
            i <= args.len(),
            argv@.len() == prefix.len() + i,
            forall|j: int| 0 <= j < prefix.len() ==> #[trigger] argv@[j]@ == prefix[j],
            forall|j: int| 0 <= j < i ==> #[trigger] argv@[prefix.len() + j]@ == args@[j]@,
        decreases args.len() - i,
    {
        argv.push(args[i].clone());
        i = i + 1;
    }
    let ghost want = device_options(dev) + texts(args@);
    assert forall|k: int| 0 <= k < argv@.len() implies #[trigger] texts(argv@)[k] == want[k] by {
        if k >= prefix.len() {
            let j = k - prefix.len();
            assert(argv@[prefix.len() + j]@ == args@[j]@);
        }
    }
    assert(texts(argv@) =~= want);
    argv
}

/// What an `adb` run comes to, from its exit status and the bytes it wrote.
pub fn adb_outcome(success: bool, stdout: &[u8], stderr: &[u8]) -> (res: Result<String, ToolError>)
    ensures
        outcome_view(res) == adb_result(success, stdout@, stderr@),
        success && valid_utf8(stdout@) ==> outcome_view(res) == Ok::<Seq<char>, Failure>(
            decode_utf8(stdout@),
        ),
        !success && valid_utf8(stderr@) ==> outcome_view(res) == Err::<Seq<char>, Failure>(
            Failure::AdbFailed(decode_utf8(stderr@)),
        ),
{
    if success {
        Ok(lossy_utf8(stdout))
    } else {
        Err(ToolError::AdbFailed(lossy_utf8(stderr)))
    }
}

} // verus!
