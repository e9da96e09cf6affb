//! Resolution of redirection targets.
//!
//! A caller may supply a filesystem path for each standard stream; a stream
//! without a target is redirected to the platform's null device, so its
//! writes are discarded without error. A supplied path must be representable
//! in the platform's filename encoding and must hold no interior NUL
//! character, since the OS open call takes a NUL-terminated string; both
//! checks run in the original process, before any forking, so their failures
//! are synchronously visible to the caller.

use vstd::prelude::*;
use crate::error::Error;

verus! {

/// Which standard stream a redirection target is meant for.
#[derive(Clone, Copy, PartialEq, Eq, Debug)]
pub enum StreamKind {
    Stdout,
    Stderr,
}

/// The discard sink used when no redirection target is supplied.
pub open spec fn null_device() -> Seq<char> {
    "/dev/null"@
}

/// `s` holds a NUL character.
pub open spec fn has_nul(s: Seq<char>) -> bool {
    exists|j: int| 0 <= j < s.len() && s[j] == '\0'
}

/// `i` is the position of the first NUL character of `s`.
pub open spec fn is_first_nul(s: Seq<char>, i: int) -> bool {
    &&& 0 <= i < s.len()
    &&& s[i] == '\0'
    &&& forall|j: int| 0 <= j < i ==> s[j] != '\0'
}

/// The position of the first NUL character of `s`, meaningful when `s` holds
/// one.
pub open spec fn first_nul_index(s: Seq<char>) -> int {
    choose|i: int| is_first_nul(s, i)
}

/// The first NUL position is unique: `first_nul_index` names it.
pub proof fn lemma_first_nul_unique(s: Seq<char>, i: int)
    requires
        is_first_nul(s, i),
    ensures
        first_nul_index(s) == i,
        has_nul(s),
{
    assert(has_nul(s)) by {
        assert(0 <= i < s.len() && s[i] == '\0');
    }
    assert(exists|k: int| is_first_nul(s, k)) by {
        assert(is_first_nul(s, i));
    }
    let j = first_nul_index(s);
    assert(is_first_nul(s, j));
    if j < i {
        assert(s[j] != '\0');
        assert(false);
    }
    if j > i {
        assert(s[i] != '\0');
        assert(false);
    }
}

/// The error reported when the target path for `kind` holds an interior NUL
/// at position `i`.
pub open spec fn nul_error(kind: StreamKind, i: int) -> Error {
    match kind {
        StreamKind::Stdout => Error::StdoutFilenameFFI(i as usize),
        StreamKind::Stderr => Error::StderrFilenameFFI(i as usize),
    }
}

/// The error reported when the supplied target path for `kind` cannot be
/// represented in the platform's native filename encoding. The conversion
/// itself happens in the unverified driver; this function fixes which error
/// each stream reports.
pub fn encoding_error(kind: StreamKind) -> (r: Error)
    ensures
        kind == StreamKind::Stdout ==> r == Error::StdoutFilenameToStr,
        kind == StreamKind::Stderr ==> r == Error::StderrFilenameToStr,
{
    match kind {
        StreamKind::Stdout => Error::StdoutFilenameToStr,
        StreamKind::Stderr => Error::StderrFilenameToStr,
    }
}

/// Position of the first NUL character in `s`, if any.
fn find_nul(s: &str) -> (r: Option<usize>)
    ensures
        r matches Some(i) ==> is_first_nul(s@, i as int),
        r is None ==> !has_nul(s@),
{
    let n = s.unicode_len();
    let mut i: usize = 0;
    while i < n
        invariant
            n == s@.len(),
            i <= n,
            forall|j: int| 0 <= j < i ==> s@[j] != '\0',
        decreases n - i,
    {
        if s.get_char(i) == '\0' {
            return Some(i);
        }
        i += 1;
    }
    None
}

/// Resolve the redirection target for `kind`: the supplied path, or the null
/// device when none was supplied. Rejects a path with an interior NUL,
/// reporting the position of the first one; every other input is accepted.
pub fn resolve_target_path<'a>(kind: StreamKind, supplied: Option<&'a str>) -> (r: Result<
    &'a str,
    Error,
>)
    ensures
        supplied is None ==> (r matches Ok(p) && p@ == null_device() && !has_nul(p@)),
        supplied matches Some(q) ==> {
            &&& (!has_nul(q@) ==> r == Ok::<&'a str, Error>(q))
            &&& (has_nul(q@) ==> r == Err::<&'a str, Error>(
                nul_error(kind, first_nul_index(q@)),
            ))
        },
        r is Err <==> (supplied matches Some(q) && has_nul(q@)),
{
    match supplied {
        None => {
            let dev = "/dev/null";
            proof {
                reveal_strlit("/dev/null");
                assert(!has_nul(dev@)) by {
                    assert(forall|j: int| 0 <= j < dev@.len() ==> dev@[j] != '\0');
                }
            }
            Ok(dev)
        },
        Some(p) => {
            match find_nul(p) {
                None => Ok(p),
                Some(i) => {
                    proof {
                        lemma_first_nul_unique(p@, i as int);
                    }
                    Err(
                        match kind {
                            StreamKind::Stdout => Error::StdoutFilenameFFI(i),
                            StreamKind::Stderr => Error::StderrFilenameFFI(i),
                        },
                    )
                },
            }
        },
    }
}

} // verus!
