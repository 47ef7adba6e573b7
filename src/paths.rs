use vstd::prelude::*;
use crate::error::{BridgeError, DirectoryKind};

verus! {

/// Path separators, as either platform writes them.
pub open spec fn is_separator(c: char) -> bool {
    c == '/' || c == '\\'
}

/// A name that stays in the directory it is joined to: not empty, not `.`
/// or `..`, and without separators or NUL.
pub open spec fn is_plain_file_name(n: Seq<char>) -> bool {
    &&& n.len() > 0
    &&& n != seq!['.']
    &&& n != seq!['.', '.']
    &&& forall|i: int| 0 <= i < n.len() ==> !is_separator(#[trigger] n[i]) && n[i] != '\0'
}

/// `dir` and `name` joined by one separator; an empty directory adds none,
/// nor does one that already ends in a separator.
pub open spec fn joined(dir: Seq<char>, name: Seq<char>) -> Seq<char> {
    if dir.len() == 0 {
        name
    } else if is_separator(dir.last()) {
        dir + name
    } else {
        dir + seq!['/'] + name
    }
}

/// A path rooted at a separator, or at a drive letter followed by `:` and a
/// separator.
pub open spec fn is_absolute_path(p: Seq<char>) -> bool {
    ||| p.len() > 0 && is_separator(p[0])
    ||| p.len() >= 3 && (('A' <= p[0] <= 'Z') || ('a' <= p[0] <= 'z')) && p[1] == ':'
        && is_separator(p[2])
}

fn char_is_separator(c: char) -> (r: bool)
    ensures
        r == is_separator(c),
{
    c == '/' || c == '\\'
}

/// Whether `name` can be used as a file name inside a directory.
pub fn check_file_name(name: &str) -> (r: bool)
    ensures
        r == is_plain_file_name(name@),
{
    let n = name.unicode_len();
    if n == 0 {
        return false;
    }
    let mut dots: usize = 0;
    let mut i: usize = 0;
    while i < n
        invariant
            n == name@.len(),
            i <= n,
            dots <= i,
            dots == i <==> forall|k: int| 0 <= k < i ==> name@[k] == '.',
            forall|k: int| 0 <= k < i ==> !is_separator(#[trigger] name@[k]) && name@[k] != '\0',
        decreases n - i,
    {
        let c = name.get_char(i);
        if char_is_separator(c) || c == '\0' {
            return false;
        }
        if c == '.' && dots == i {
            dots = dots + 1;
        }
        i = i + 1;
    }
    if dots == n && n <= 2 {
        assert(n == 1 ==> name@ =~= seq!['.']);
        assert(n == 2 ==> name@ =~= seq!['.', '.']);
        false
    } else {
        assert(name@ != seq!['.'] && name@ != seq!['.', '.']) by {
            if name@ =~= seq!['.'] || name@ =~= seq!['.', '.'] {
                assert(forall|k: int| 0 <= k < n ==> name@[k] == '.');
            }
        }
        true
    }
}

/// Joins a directory and a file name into a full path.
pub fn join_path(dir: &str, name: &str) -> (r: String)
    ensures
        r@ == joined(dir@, name@),
{
    let n = dir.unicode_len();
    let mut r = String::from_str(dir);
    if n == 0 {
        String::from_str(name)
    } else if char_is_separator(dir.get_char(n - 1)) {
        r.append(name);
        r
    } else {
        r.append("/");
        r.append(name);
        proof {
            reveal_strlit("/");
        }
        r
    }
}

/// Whether `p` names a location from the root.
pub fn check_absolute(p: &str) -> (r: bool)
    ensures
        r == is_absolute_path(p@),
{
    let n = p.unicode_len();
    if n == 0 {
        return false;
    }
    let c0 = p.get_char(0);
    if char_is_separator(c0) {
        return true;
    }
    if n < 3 {
        return false;
    }
    let letter = ('A' <= c0 && c0 <= 'Z') || ('a' <= c0 && c0 <= 'z');
    letter && p.get_char(1) == ':' && char_is_separator(p.get_char(2))
}

/// The directory of `kind`, from what the host answered when asked for it.
/// A host failure is passed on with its reason; a path that is not absolute
/// is refused.
pub fn resolve_directory(kind: DirectoryKind, host: Result<String, String>) -> (r: Result<
    String,
    BridgeError,
>)
    ensures
        match host {
            Ok(p) => if is_absolute_path(p@) {
                r matches Ok(q) && q@ == p@
            } else {
                r matches Err(e) && e@ matches crate::error::ErrorView::DirectoryResolution {
                    kind: k,
                    reason,
                } && k == kind && reason == "not an absolute path: "@ + p@
            },
            Err(why) => r matches Err(e) && e@ == (crate::error::ErrorView::DirectoryResolution {
                kind,
                reason: why@,
            }),
        },
        r matches Ok(q) ==> is_absolute_path(q@) && q@.len() > 0,
{
    match host {
        Ok(p) => {
            if check_absolute(p.as_str()) {
                Ok(p)
            } else {
                let mut reason = String::from_str("not an absolute path: ");
                reason.append(p.as_str());
                Err(BridgeError::DirectoryResolution { kind, reason })
            }
        },
        Err(why) => Err(BridgeError::DirectoryResolution { kind, reason: why }),
    }
}

} // verus!
