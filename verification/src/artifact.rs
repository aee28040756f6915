//! Artifact names: which names a download may ask for, and where an
//! artifact is to be found.

use vstd::prelude::*;
use vstd::std_specs::iter::IteratorSpec;
use vstd::string::StringExecFns;
use crate::failure::ErrorKind;

verus! {

/// The characters that part the segments of a path.
pub open spec fn is_separator(c: char) -> bool {
    c == '/' || c == '\\'
}

/// Whether a path separator occurs anywhere in the name.
pub open spec fn has_separator(name: Seq<char>) -> bool {
    exists|i: int| 0 <= i < name.len() && is_separator(#[trigger] name[i])
}

/// Whether two dots stand side by side anywhere in the name.
pub open spec fn has_parent_sequence(name: Seq<char>) -> bool {
    exists|i: int| 0 <= i < name.len() - 1 && #[trigger] name[i] == '.' && name[i + 1] == '.'
}

/// A plain name is one path segment that cannot lead out of the directory
/// it is looked up in: no separator and no `..` in it.
pub open spec fn is_plain_name(name: Seq<char>) -> bool {
    !has_separator(name) && !has_parent_sequence(name)
}

/// Whether the name is a plain name.
pub fn check_plain_name(name: &str) -> (plain: bool)
    ensures
        plain == is_plain_name(name@),
{
    let mut chars = name.chars();
    let ghost mut seen: int = 0;
    let mut after_dot: bool = false;
    loop
        invariant
            0 <= seen <= name@.len(),
            chars.remaining() == name@.skip(seen),
            is_plain_name(name@.take(seen)),
            after_dot <==> (seen > 0 && name@[seen - 1] == '.'),
        decreases name@.len() - seen,
    {
        match chars.next() {
            None => {
                assert(name@.take(seen) =~= name@);
                return true;
            },
            Some(c) => {
                assert(c == name@[seen]);
                if c == '/' || c == '\\' {
                    assert(is_separator(name@[seen]));
                    return false;
                }
                if c == '.' && after_dot {
                    assert(name@[seen - 1] == '.' && name@[seen - 1 + 1] == '.');
                    return false;
                }
                proof {
                    let shorter = name@.take(seen);
                    let longer = name@.take(seen + 1);
                    assert(longer =~= shorter.push(c));
                    assert forall|i: int| 0 <= i < longer.len() implies !is_separator(
                        #[trigger] longer[i],
                    ) by {
                        if i < seen {
                            assert(longer[i] == shorter[i]);
                        }
                    }
                    assert forall|i: int| 0 <= i < longer.len() - 1 implies !(#[trigger] longer[i]
                        == '.' && longer[i + 1] == '.') by {
                        if i < seen - 1 {
                            assert(longer[i] == shorter[i]);
                            assert(longer[i + 1] == shorter[i + 1]);
                        }
                    }
                    assert(name@.skip(seen).drop_first() =~= name@.skip(seen + 1));
                    seen = seen + 1;
                }
                after_dot = c == '.';
            },
        }
    }
}

/// What the host is to do about a download.
#[derive(Debug, PartialEq, Eq)]
pub enum DownloadStep {
    /// Open the artifact at this path, relative to the artifact directory,
    /// and stream it back.
    Open(String),
    /// Answer with this failure, without looking at the file system.
    Refuse(ErrorKind),
}

/// Decides what to do about a download of `name`: a plain name is looked up
/// under that very name, any other name is refused.
pub fn plan_download(name: &str) -> (step: DownloadStep)
    ensures
        is_plain_name(name@) ==> (step matches DownloadStep::Open(path) && path@ == name@),
        !is_plain_name(name@) ==> step == DownloadStep::Refuse(ErrorKind::InvalidArtifactName),
{
    if check_plain_name(name) {
        DownloadStep::Open(String::from_str(name))
    } else {
        DownloadStep::Refuse(ErrorKind::InvalidArtifactName)
    }
}

/// What the host found when it tried to open an artifact.
#[derive(Clone, Copy, Debug, PartialEq, Eq, Structural)]
pub enum Lookup {
    /// The artifact is there and open.
    Found,
    /// There is no file of that name.
    Missing,
    /// There is something of that name, but it could not be opened.
    Unreadable,
}

/// What becomes of a download after the host tried to open the artifact.
pub open spec fn outcome_of(lookup: Lookup) -> Result<(), ErrorKind> {
    match lookup {
        Lookup::Found => Ok(()),
        Lookup::Missing => Err(ErrorKind::NotFound),
        Lookup::Unreadable => Err(ErrorKind::StorageFailure),
    }
}

/// The result of a download, given what the host found: an artifact that
/// is there is served, one that is missing is reported as not found, and
/// one that cannot be opened is the server's failure.
pub fn download_outcome(lookup: Lookup) -> (r: Result<(), ErrorKind>)
    ensures
        r == outcome_of(lookup),
{
    match lookup {
        Lookup::Found => Ok(()),
        Lookup::Missing => Err(ErrorKind::NotFound),
        Lookup::Unreadable => Err(ErrorKind::StorageFailure),
    }
}

/// Where an artifact of the given name is downloaded from.
pub open spec fn download_url_of(name: Seq<char>) -> Seq<char> {
    "/download/"@ + name
}

/// The URL under which an artifact of the given name is downloaded.
pub fn download_url(name: &str) -> (url: String)
    ensures
        url@ == download_url_of(name@),
{
    String::from_str("/download/").concat(name)
}

} // verus!
