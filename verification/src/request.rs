//! What a request asks for: the package, and the version constraint.
//!
//! The package is named by a specifier, which may hold a version behind a `:` or an `@`. The
//! version may also be given beside the specifier, but not in both places.

use crate::error::{failure, CloneError, ErrorKind, ErrorView};
use crate::text::{chars_of, optional_string_text, optional_text};
use crate::version::{check_semver_req, constraint_of};
use vstd::prelude::*;

verus! {

/// A package specifier, taken apart: the name, and the version that stands behind it.
#[derive(Debug, Clone, PartialEq, Eq)]
pub struct PackageSpec {
    pub name: String,
    pub version: Option<String>,
}

/// Whether `c` parts the name from the version in a package specifier.
pub open spec fn is_separator(c: char) -> bool {
    c == ':' || c == '@'
}

/// The index of the first separator in `spec` at or after `from`; the length of `spec` if
/// there is none.
pub open spec fn name_end(spec: Seq<char>, from: int) -> int
    decreases spec.len() - from,
{
    if from < 0 || from >= spec.len() {
        spec.len() as int
    } else if is_separator(spec[from]) {
        from
    } else {
        name_end(spec, from + 1)
    }
}

/// The name in a package specifier: what stands before the first separator.
pub open spec fn spec_name(spec: Seq<char>) -> Seq<char> {
    spec.subrange(0, name_end(spec, 0))
}

/// The version in a package specifier: what stands behind the first separator, if there is
/// one.
pub open spec fn spec_version(spec: Seq<char>) -> Option<Seq<char>> {
    if name_end(spec, 0) < spec.len() {
        Some(spec.subrange(name_end(spec, 0) + 1, spec.len() as int))
    } else {
        None
    }
}

/// Takes a package specifier apart at its first `:` or `@`.
pub fn parse_spec(spec: &str) -> (r: PackageSpec)
    ensures
        r.name@ == spec_name(spec@),
        optional_string_text(r.version) == spec_version(spec@),
{
    let chars = chars_of(spec);
    let mut end: usize = 0;
    while end < chars.len() && chars[end] != ':' && chars[end] != '@'
        invariant
            end <= chars.len(),
            chars@ == spec@,
            name_end(spec@, 0) == name_end(spec@, end as int),
        decreases chars.len() - end,
    {
        end += 1;
    }
    let name = spec.substring_char(0, end).to_owned();
    let version = if end < chars.len() {
        Some(spec.substring_char(end + 1, chars.len()).to_owned())
    } else {
        None
    };
    PackageSpec { name, version }
}

/// The failure for a version that is given twice.
pub open spec fn both_versions() -> ErrorView {
    failure(ErrorKind::InvalidSpec, "Cannot specify both a :version and --version."@)
}

/// The constraint that a request carries. The version may stand in the specifier or be given
/// beside it, not both.
pub open spec fn version_request(embedded: Option<Seq<char>>, version: Option<Seq<char>>) -> Result<
    Option<Seq<char>>,
    ErrorView,
> {
    if embedded is Some && version is Some {
        Err(both_versions())
    } else {
        let raw = if version is Some {
            version
        } else {
            embedded
        };
        match raw {
            None => Ok(None),
            Some(text) => match constraint_of(text) {
                Ok(constraint) => Ok(Some(constraint)),
                Err(e) => Err(e),
            },
        }
    }
}

/// The outcome of reading a request's constraint, as a mathematical value.
pub open spec fn constraint_outcome(r: Result<Option<String>, CloneError>) -> Result<
    Option<Seq<char>>,
    ErrorView,
> {
    match r {
        Ok(constraint) => Ok(optional_string_text(constraint)),
        Err(e) => Err(e@),
    }
}

/// Reads the constraint of a request from the version in the specifier and the version given
/// beside it.
pub fn read_version_request(embedded: Option<&str>, version: Option<&str>) -> (r: Result<
    Option<String>,
    CloneError,
>)
    ensures
        constraint_outcome(r) == version_request(optional_text(embedded), optional_text(version)),
{
    if embedded.is_some() && version.is_some() {
        return Err(
            CloneError::new(ErrorKind::InvalidSpec, "Cannot specify both a :version and --version."),
        );
    }
    let raw = if version.is_some() {
        version
    } else {
        embedded
    };
    match raw {
        None => Ok(None),
        Some(text) => match check_semver_req(text) {
            Ok(constraint) => Ok(Some(constraint)),
            Err(e) => Err(e),
        },
    }
}

/// A specifier holds a version exactly where it holds a separator.
pub proof fn lemma_spec_version_iff_separator(spec: Seq<char>)
    ensures
        spec_version(spec) is Some <==> exists|i: int|
            0 <= i < spec.len() && is_separator(#[trigger] spec[i]),
{
    lemma_name_end(spec, 0);
    if spec_version(spec) is Some {
        assert(is_separator(spec[name_end(spec, 0)]));
    }
}

/// `name_end(spec, from)` lies between `from` and the end of `spec`; no separator stands before
/// it, and one stands at it unless it is the end.
pub proof fn lemma_name_end(spec: Seq<char>, from: int)
    requires
        0 <= from <= spec.len(),
    ensures
        from <= name_end(spec, from) <= spec.len(),
        forall|i: int| from <= i < name_end(spec, from) ==> !is_separator(#[trigger] spec[i]),
        name_end(spec, from) < spec.len() ==> is_separator(spec[name_end(spec, from)]),
    decreases spec.len() - from,
{
    if from < spec.len() && !is_separator(spec[from]) {
        lemma_name_end(spec, from + 1);
    }
}

} // verus!
