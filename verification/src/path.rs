use vstd::prelude::*;

use crate::json::same_text;

verus! {

/// The path conventions of the machine the server runs on.
#[derive(PartialEq, Eq, Structural, Clone, Copy, Debug)]
pub enum PathStyle {
    /// Components are separated by `/`.
    Unix,
    /// Components are separated by `\` or `/`, `\` is put between joined
    /// parts, and a path may begin with a drive such as `C:`.
    Windows,
}

/// Whether `c` separates components.
pub open spec fn is_separator(style: PathStyle, c: char) -> bool {
    c == '/' || (style == PathStyle::Windows && c == '\\')
}

/// The separator put between joined parts.
pub open spec fn main_separator(style: PathStyle) -> char {
    match style {
        PathStyle::Unix => '/',
        PathStyle::Windows => '\\',
    }
}

/// Whether `p` begins with a drive, an ASCII letter and a colon.
pub open spec fn starts_with_drive(p: Seq<char>) -> bool {
    &&& p.len() >= 2
    &&& p[1] == ':'
    &&& (('a' <= p[0] && p[0] <= 'z') || ('A' <= p[0] && p[0] <= 'Z'))
}

/// The length of the prefix of `p`: its drive, on Windows.  Other Windows
/// prefixes (`\\server\share`, `\\?\`, `\\.\`) are not told apart here:
/// they are read as ordinary components.
pub open spec fn prefix_len(style: PathStyle, p: Seq<char>) -> int {
    if style == PathStyle::Windows && starts_with_drive(p) {
        2
    } else {
        0
    }
}

/// The position of the last separator in `p`, or -1 when there is none.
pub open spec fn last_separator(style: PathStyle, p: Seq<char>) -> int
    decreases p.len(),
{
    if p.len() == 0 {
        -1
    } else if is_separator(style, p.last()) {
        p.len() - 1
    } else {
        last_separator(style, p.drop_last())
    }
}

pub proof fn lemma_last_separator(style: PathStyle, p: Seq<char>)
    ensures
        -1 <= last_separator(style, p) < p.len(),
        last_separator(style, p) >= 0 ==> is_separator(style, p[last_separator(style, p)]),
        forall|j: int| last_separator(style, p) < j < p.len() ==> !is_separator(style, #[trigger] p[j]),
    decreases p.len(),
{
    if p.len() > 0 && !is_separator(style, p.last()) {
        lemma_last_separator(style, p.drop_last());
        assert forall|j: int| last_separator(style, p) < j < p.len() implies !is_separator(
            style,
            #[trigger] p[j],
        ) by {
            if j < p.len() - 1 {
                assert(p[j] == p.drop_last()[j]);
            }
        }
    }
}

/// The last normal component of a path without prefix: empty components
/// and `.` are skipped, and a path that ends in `..`, or has no normal
/// component, has none.
pub open spec fn last_component(style: PathStyle, p: Seq<char>) -> Option<Seq<char>>
    decreases p.len(),
{
    let k = last_separator(style, p);
    let seg = p.subrange(k + 1, p.len() as int);
    if seg == seq!['.', '.'] {
        None
    } else if seg.len() > 0 && seg != seq!['.'] {
        Some(seg)
    } else if k < 0 {
        None
    } else {
        proof {
            lemma_last_separator(style, p);
        }
        last_component(style, p.subrange(0, k))
    }
}

/// The final component of a path, following the separators of `style` and
/// skipping a Windows drive.
pub open spec fn file_name(style: PathStyle, p: Seq<char>) -> Option<Seq<char>> {
    last_component(style, p.subrange(prefix_len(style, p), p.len() as int))
}

/// `name` placed under the directory `dir`, by the conventions of `style`:
/// a `name` that begins with a separator, or on Windows with a drive,
/// replaces `dir` (on Windows a rooted `name` keeps the drive of `dir`),
/// and otherwise the separator of `style` is put between the two unless
/// `dir` is empty, already ends with a separator, or is a bare drive.
pub open spec fn join(style: PathStyle, dir: Seq<char>, name: Seq<char>) -> Seq<char> {
    if style == PathStyle::Windows && starts_with_drive(name) {
        name
    } else if name.len() > 0 && is_separator(style, name[0]) {
        if style == PathStyle::Windows {
            dir.subrange(0, prefix_len(style, dir)) + name
        } else {
            name
        }
    } else if dir.len() == 0 || is_separator(style, dir.last()) || (prefix_len(style, dir) == 2
        && dir.len() == 2) {
        dir + name
    } else {
        dir + seq![main_separator(style)] + name
    }
}

/// A component found by `last_component` is never empty, `.` or `..`, and
/// holds no separator.
pub proof fn lemma_last_component_is_component(style: PathStyle, p: Seq<char>)
    ensures
        last_component(style, p) matches Some(n) ==> {
            &&& n.len() > 0
            &&& n != seq!['.']
            &&& n != seq!['.', '.']
            &&& forall|j: int| 0 <= j < n.len() ==> !is_separator(style, #[trigger] n[j])
        },
    decreases p.len(),
{
    lemma_last_separator(style, p);
    let k = last_separator(style, p);
    let seg = p.subrange(k + 1, p.len() as int);
    if !(seg == seq!['.', '.']) && !(seg.len() > 0 && seg != seq!['.']) && k >= 0 {
        lemma_last_component_is_component(style, p.subrange(0, k));
    } else if seg.len() > 0 && seg != seq!['.'] && seg != seq!['.', '.'] {
        assert forall|j: int| 0 <= j < seg.len() implies !is_separator(style, #[trigger] seg[j]) by {
            assert(seg[j] == p[k + 1 + j]);
        }
    }
}

/// A component found by `file_name` is never empty, `.` or `..`, and holds
/// no separator.
pub proof fn lemma_file_name_is_component(style: PathStyle, p: Seq<char>)
    ensures
        file_name(style, p) matches Some(n) ==> {
            &&& n.len() > 0
            &&& n != seq!['.']
            &&& n != seq!['.', '.']
            &&& forall|j: int| 0 <= j < n.len() ==> !is_separator(style, #[trigger] n[j])
        },
{
    lemma_last_component_is_component(style, p.subrange(prefix_len(style, p), p.len() as int));
}

/// Whether `c` separates components.
fn separates(style: PathStyle, c: char) -> (r: bool)
    ensures
        r == is_separator(style, c),
{
    c == '/' || (style == PathStyle::Windows && c == '\\')
}

/// Whether the text begins with a drive.
fn has_drive(p: &str) -> (r: bool)
    ensures
        r == starts_with_drive(p@),
{
    if p.unicode_len() < 2 {
        return false;
    }
    let c = p.get_char(0);
    p.get_char(1) == ':' && (('a' <= c && c <= 'z') || ('A' <= c && c <= 'Z'))
}

/// The last normal component of `path` from `start` on.
fn last_component_of(path: &str, start: usize, style: PathStyle) -> (res: Option<String>)
    requires
        start <= path@.len(),
    ensures
        match res {
            Some(n) => last_component(style, path@.subrange(start as int, path@.len() as int)) == Some(n@),
            None => last_component(style, path@.subrange(start as int, path@.len() as int)) == None::<
                Seq<char>,
            >,
        },
{
    let n = path.unicode_len();
    let ghost whole = path@.subrange(start as int, n as int);
    let mut end: usize = n;
    assert(whole.subrange(0, (end - start) as int) == whole);
    loop
        invariant
            n == path@.len(),
            start <= end <= n,
            whole == path@.subrange(start as int, n as int),
            last_component(style, whole) == last_component(
                style,
                path@.subrange(start as int, end as int),
            ),
        decreases end,
    {
        let ghost p = path@.subrange(start as int, end as int);
        proof {
            reveal_strlit("..");
            reveal_strlit(".");
            assert("."@ =~= seq!['.']);
            assert(".."@ =~= seq!['.', '.']);
        }
        let mut k: usize = end;
        while k > start && !separates(style, path.get_char(k - 1))
            invariant
                n == path@.len(),
                start <= k <= end <= n,
                p == path@.subrange(start as int, end as int),
                forall|j: int| k - start <= j < end - start ==> !is_separator(style, #[trigger] p[j]),
            decreases k,
        {
            k = k - 1;
        }
        proof {
            lemma_last_separator(style, p);
            let ls = last_separator(style, p);
            if ls >= k - start {
                assert(is_separator(style, p[ls]));
            }
            if k > start {
                assert(is_separator(style, p[k - start - 1]));
            }
            assert(ls == k - start - 1);
        }
        let seg = path.substring_char(k, end);
        assert(seg@ == p.subrange(k - start, p.len() as int));
        if same_text(seg, "..") {
            assert(last_component(style, p) == None::<Seq<char>>);
            return None;
        }
        let is_dot = same_text(seg, ".");
        if k < end && !is_dot {
            assert(last_component(style, p) == Some(seg@));
            return Some(seg.to_owned());
        }
        if k == start {
            assert(last_component(style, p) == None::<Seq<char>>);
            return None;
        }
        assert(last_component(style, p) == last_component(style, p.subrange(0, k - start - 1)));
        assert(p.subrange(0, k - start - 1) == path@.subrange(start as int, k - 1));
        end = k - 1;
    }
}

/// The last component of `path`, by the conventions of `style`.
pub fn file_name_of(path: &str, style: PathStyle) -> (res: Option<String>)
    ensures
        match res {
            Some(n) => file_name(style, path@) == Some(n@),
            None => file_name(style, path@) == None::<Seq<char>>,
        },
{
    let start: usize = if style == PathStyle::Windows && has_drive(path) {
        2
    } else {
        0
    };
    last_component_of(path, start, style)
}

/// `name` placed under the directory `dir`, by the conventions of `style`.
pub fn join_path(dir: &str, name: &str, style: PathStyle) -> (res: String)
    ensures
        res@ == join(style, dir@, name@),
{
    let windows = style == PathStyle::Windows;
    if windows && has_drive(name) {
        return name.to_owned();
    }
    if name.unicode_len() > 0 && separates(style, name.get_char(0)) {
        if windows {
            let keep: usize = if has_drive(dir) {
                2
            } else {
                0
            };
            return dir.substring_char(0, keep).to_owned().concat(name);
        } else {
            return name.to_owned();
        }
    }
    let d = dir.unicode_len();
    let bare_drive = windows && d == 2 && has_drive(dir);
    let joined = if d == 0 || separates(style, dir.get_char(d - 1)) || bare_drive {
        dir.to_owned()
    } else if windows {
        proof {
            reveal_strlit("\\");
        }
        dir.to_owned().concat("\\")
    } else {
        proof {
            reveal_strlit("/");
        }
        dir.to_owned().concat("/")
    };
    joined.concat(name)
}

} // verus!
