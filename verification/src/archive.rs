//! The layout that a package's archive must have.
//!
//! The archive of version `v` of the package `n` holds one directory, named by `n` in lower
//! case, a hyphen and `v`. An entry that lies elsewhere is not unpacked, nor any entry behind
//! it.

use crate::error::{failure, CloneError, ErrorKind, ErrorView};
use crate::text::{chars_of, occurs_at, skip};
use vstd::prelude::*;

verus! {

/// What `str::to_lowercase` makes of `text`.
pub uninterp spec fn lowercase(text: Seq<char>) -> Seq<char>;

/// `str::to_lowercase`: the text with every character replaced by its lower case.
#[verifier::external_body]
fn to_lowercase(text: &str) -> (out: String)
    ensures
        out@ == lowercase(text@),
{
    text.to_lowercase()
}

/// The name of a package's directory, made of the package's name in lower case and the
/// version: the two with a hyphen between them.
pub open spec fn directory_of(lowered: Seq<char>, version: Seq<char>) -> Seq<char> {
    lowered + "-"@ + version
}

/// The directory that the archive of version `version` of the package `name` holds.
pub open spec fn archive_base(name: Seq<char>, version: Seq<char>) -> Seq<char> {
    directory_of(lowercase(name), version)
}

/// Names a package's directory from the package's name in lower case and the version.
pub fn directory_name(lowered: &str, version: &str) -> (out: String)
    ensures
        out@ == directory_of(lowered@, version@),
{
    let mut out = lowered.to_owned();
    out.append("-");
    out.append(version);
    out
}

/// Names the directory that the archive of version `version` of the package `name` holds.
pub fn crate_base(name: &str, version: &str) -> (out: String)
    ensures
        out@ == archive_base(name@, version@),
{
    let lowered = to_lowercase(name);
    directory_name(lowered.as_str(), version)
}

/// The entry at `path` lies in the directory `base`: it is that directory, or its path goes on
/// behind `base` with a `/`.
pub open spec fn entry_within(base: Seq<char>, path: Seq<char>) -> bool {
    occurs_at(path, 0, base) && (path.len() == base.len() || path[base.len() as int] == '/')
}

/// The failure for an entry at `path` that lies outside the directory `base`.
pub open spec fn layout_mismatch(base: Seq<char>, path: Seq<char>) -> ErrorView {
    failure(
        ErrorKind::ArchiveLayoutMismatch,
        "Expected path `"@ + base + "` in tarball, got `"@ + path + "`."@,
    )
}

/// Whether the entry at `path` lies in the directory `base`.
pub fn is_within(base: &str, path: &str) -> (r: bool)
    ensures
        r == entry_within(base@, path@),
{
    let base = chars_of(base);
    let path = chars_of(path);
    match skip(&path, 0, &base) {
        None => false,
        Some(behind) => behind == path.len() || path[behind] == '/',
    }
}

/// Admits an entry that lies in the directory `base`, and refuses any other.
pub fn check_entry(base: &str, path: &str) -> (r: Result<(), CloneError>)
    ensures
        match r {
            Ok(_) => entry_within(base@, path@),
            Err(e) => !entry_within(base@, path@) && e@ == layout_mismatch(base@, path@),
        },
{
    if is_within(base, path) {
        Ok(())
    } else {
        let mut message = "Expected path `".to_owned();
        message.append(base);
        message.append("` in tarball, got `");
        message.append(path);
        message.append("`.");
        Err(CloneError { kind: ErrorKind::ArchiveLayoutMismatch, message })
    }
}

/// `index` is where unpacking stops: the entry there lies outside the directory `base`, and
/// every entry before it lies within.
pub open spec fn stops_at(base: Seq<char>, paths: Seq<Seq<char>>, index: int) -> bool {
    &&& 0 <= index < paths.len()
    &&& !entry_within(base, paths[index])
    &&& forall|j: int| 0 <= j < index ==> entry_within(base, #[trigger] paths[j])
}

/// Finds the first of the entries, in the archive's order, that lies outside the directory
/// `base`. The entries before it are those that are unpacked; `None` says that all are.
pub fn first_outside(base: &str, paths: &Vec<String>) -> (r: Option<usize>)
    ensures
        match r {
            Some(index) => stops_at(base@, crate::text::texts(paths@), index as int),
            None => forall|j: int|
                0 <= j < paths.len() ==> entry_within(base@, #[trigger] crate::text::texts(paths@)[j]),
        },
{
    let ghost entries = crate::text::texts(paths@);
    let mut k: usize = 0;
    while k < paths.len()
        invariant
            k <= paths.len(),
            entries == crate::text::texts(paths@),
            forall|j: int| 0 <= j < k ==> entry_within(base@, #[trigger] entries[j]),
        decreases paths.len() - k,
    {
        if !is_within(base, paths[k].as_str()) {
            return Some(k);
        }
        k += 1;
    }
    None
}

} // verus!
