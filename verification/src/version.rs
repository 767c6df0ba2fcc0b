//! Version constraints, and the choice of one published version.
//!
//! Versions and requirements are read, printed, compared and matched by the `semver` crate.
//! This module holds them as texts and states what it decides over four names for what
//! `semver` computes from such texts.

use crate::error::{failure, failure_about, text_outcome, CloneError, ErrorKind, ErrorView};
use crate::text::{chars_of, holds_char, optional_text};
use vstd::prelude::*;

verus! {

/// `semver::Error`: why a text is no version, or no requirement. Nothing is read from it.
#[verifier::external_type_specification]
#[verifier::external_body]
pub struct ExSemverError(semver::Error);

/// What `semver` prints for the version that it reads from `text`; `None` where it reads none.
pub uninterp spec fn version_canonical(text: Seq<char>) -> Option<Seq<char>>;

/// What `semver` prints for the requirement that it reads from `text`; `None` where it reads
/// none.
pub uninterp spec fn requirement_canonical(text: Seq<char>) -> Option<Seq<char>>;

/// Whether the requirement written as `requirement` admits the version written as `version`.
pub uninterp spec fn requirement_matches(requirement: Seq<char>, version: Seq<char>) -> bool;

/// Whether the version written as `a` is ordered at or below the version written as `b`.
pub uninterp spec fn version_le(a: Seq<char>, b: Seq<char>) -> bool;

/// `semver::Version::parse` followed by the version's `Display`: the version that `text`
/// denotes, printed again, or the error with which `text` is refused.
#[verifier::external_body]
fn canonical_version(text: &str) -> (r: Result<String, semver::Error>)
    ensures
        match r {
            Ok(s) => version_canonical(text@) == Some(s@),
            Err(_) => version_canonical(text@) is None,
        },
{
    match semver::Version::parse(text) {
        Ok(version) => Ok(version.to_string()),
        Err(e) => Err(e),
    }
}

/// `semver::VersionReq::parse` followed by the requirement's `Display`: the requirement that
/// `text` denotes, printed again, or the error with which `text` is refused.
#[verifier::external_body]
fn canonical_requirement(text: &str) -> (r: Result<String, semver::Error>)
    ensures
        match r {
            Ok(s) => requirement_canonical(text@) == Some(s@),
            Err(_) => requirement_canonical(text@) is None,
        },
{
    match semver::VersionReq::parse(text) {
        Ok(requirement) => Ok(requirement.to_string()),
        Err(e) => Err(e),
    }
}

/// `semver::VersionReq::matches`, on a requirement and a version that `semver` reads from the
/// two texts.
#[verifier::external_body]
fn requirement_admits(requirement: &str, version: &str) -> (r: bool)
    requires
        requirement_canonical(requirement@) is Some,
        version_canonical(version@) is Some,
    ensures
        r == requirement_matches(requirement@, version@),
{
    let requirement = semver::VersionReq::parse(requirement).unwrap();
    requirement.matches(&semver::Version::parse(version).unwrap())
}

/// `<=` of `semver::Version`, on the versions that `semver` reads from the two texts. The order
/// is documented as total: of two versions one is at or below the other, and what is at or
/// below `a` is at or below whatever `a` is at or below.
#[verifier::external_body]
fn version_at_most(a: &str, b: &str) -> (r: bool)
    requires
        version_canonical(a@) is Some,
        version_canonical(b@) is Some,
    ensures
        r == version_le(a@, b@),
        r || version_le(b@, a@),
        forall|c: Seq<char>|
            version_canonical(c) is Some && #[trigger] version_le(c, a@) && r ==> version_le(
                c,
                b@,
            ),
{
    semver::Version::parse(a).unwrap() <= semver::Version::parse(b).unwrap()
}

/// Whether `text` denotes a version.
fn is_version(text: &str) -> (r: bool)
    ensures
        r == version_canonical(text@) is Some,
{
    canonical_version(text).is_ok()
}

/// Whether `text` denotes a requirement.
fn is_requirement(text: &str) -> (r: bool)
    ensures
        r == requirement_canonical(text@) is Some,
{
    canonical_requirement(text).is_ok()
}

/// The characters with which a range expression may begin.
pub open spec fn range_operators() -> Seq<char> {
    "<>=^~"@
}

/// A constraint text is a range expression where it begins with an operator or holds a `*`.
pub open spec fn is_range(version: Seq<char>) -> bool {
    version.len() > 0 && (range_operators().contains(version[0]) || version.contains('*'))
}

/// The failure for a constraint text that is empty.
pub open spec fn empty_version() -> ErrorView {
    failure(ErrorKind::InvalidSpec, "version is empty"@)
}

/// The failure for a text that should be a requirement and is none.
pub open spec fn bad_requirement(text: Seq<char>) -> ErrorView {
    failure_about(ErrorKind::InvalidSpec, "`"@, text, "` is not a valid version requirement."@)
}

/// The failure for a text that should be an exact version and is none.
pub open spec fn bad_version(text: Seq<char>) -> ErrorView {
    failure_about(
        ErrorKind::InvalidSpec,
        "`"@,
        text,
        "` is not a valid semver version.\nUse an exact version like 1.2.3 or a version requirement expression."@,
    )
}

/// How a raw text is written as a constraint, where `printed` is what `semver` prints for it,
/// if it reads it. A range expression is written as `semver` prints it; any other text must
/// be an exact version `v` and is written `=v`. The empty text is invalid.
pub open spec fn constraint_given(version: Seq<char>, printed: Option<Seq<char>>) -> Result<
    Seq<char>,
    ErrorView,
> {
    if version.len() == 0 {
        Err(empty_version())
    } else if is_range(version) {
        match printed {
            Some(printed) => Ok(printed),
            None => Err(bad_requirement(version)),
        }
    } else {
        match printed {
            Some(printed) => Ok("="@ + printed),
            None => Err(bad_version(version)),
        }
    }
}

/// What `semver` prints for a raw text: for a range expression the requirement that it reads
/// from it, for any other text the version.
pub open spec fn printed_form(version: Seq<char>) -> Option<Seq<char>> {
    if is_range(version) {
        requirement_canonical(version)
    } else {
        version_canonical(version)
    }
}

/// The constraint that a raw text stands for.
pub open spec fn constraint_of(version: Seq<char>) -> Result<Seq<char>, ErrorView> {
    constraint_given(version, printed_form(version))
}

/// How a raw constraint text is read. The empty text is invalid. A text that begins with one
/// of `<`, `>`, `=`, `^` and `~`, or holds a `*`, is read as a range expression and as nothing
/// else. Any other text is read as an exact version and stands for `=` and that version.
pub proof fn lemma_constraint_reading(version: Seq<char>)
    ensures
        version.len() == 0 ==> constraint_of(version) == Err::<Seq<char>, ErrorView>(
            empty_version(),
        ),
        empty_version().kind == ErrorKind::InvalidSpec,
        version.len() > 0 && (range_operators().contains(version[0]) || version.contains('*'))
            ==> constraint_of(version) == match requirement_canonical(version) {
            Some(printed) => Ok::<Seq<char>, ErrorView>(printed),
            None => Err(bad_requirement(version)),
        },
        bad_requirement(version).kind == ErrorKind::InvalidSpec,
        version.len() > 0 && !range_operators().contains(version[0]) && !version.contains('*')
            ==> constraint_of(version) == match version_canonical(version) {
            Some(printed) => Ok::<Seq<char>, ErrorView>("="@ + printed),
            None => Err(bad_version(version)),
        },
        bad_version(version).kind == ErrorKind::InvalidSpec,
{
}

/// Whether a raw constraint text is a range expression.
pub fn is_range_expression(version: &str) -> (r: bool)
    ensures
        r == is_range(version@),
{
    let chars = chars_of(version);
    if chars.len() == 0 {
        return false;
    }
    let operators = chars_of("<>=^~");
    holds_char(&operators, chars[0]) || holds_char(&chars, '*')
}

/// Writes a raw text as a constraint. `printed` is what `semver` prints for the text, read as
/// a requirement where it is a range expression and as a version where it is none; it is
/// `None` where `semver` does not read the text.
pub fn constraint_from(version: &str, printed: Option<&str>) -> (r: Result<String, CloneError>)
    ensures
        text_outcome(r) == constraint_given(version@, optional_text(printed)),
{
    if version.unicode_len() == 0 {
        return Err(CloneError::new(ErrorKind::InvalidSpec, "version is empty"));
    }
    if is_range_expression(version) {
        match printed {
            Some(printed) => Ok(printed.to_owned()),
            None => Err(
                CloneError::about(
                    ErrorKind::InvalidSpec,
                    "`",
                    version,
                    "` is not a valid version requirement.",
                ),
            ),
        }
    } else {
        match printed {
            Some(printed) => {
                let mut out = "=".to_owned();
                out.append(printed);
                Ok(out)
            },
            None => Err(
                CloneError::about(
                    ErrorKind::InvalidSpec,
                    "`",
                    version,
                    "` is not a valid semver version.\nUse an exact version like 1.2.3 or a version requirement expression.",
                ),
            ),
        }
    }
}

/// Reads a raw constraint text and gives the constraint in its printed form.
pub fn check_semver_req(version: &str) -> (r: Result<String, CloneError>)
    ensures
        text_outcome(r) == constraint_of(version@),
{
    let read = if is_range_expression(version) {
        canonical_requirement(version)
    } else {
        canonical_version(version)
    };
    match read {
        Ok(printed) => constraint_from(version, Some(printed.as_str())),
        Err(_) => constraint_from(version, None),
    }
}

/// A version that the registry lists: its number, and the path from which it is downloaded.
#[derive(Debug, Clone, PartialEq, Eq)]
pub struct PublishedVersion {
    pub num: String,
    pub dl_path: String,
}

/// A listed version as a mathematical value.
pub ghost struct Listing {
    pub num: Seq<char>,
    pub dl_path: Seq<char>,
}

impl View for PublishedVersion {
    type V = Listing;

    open spec fn view(&self) -> Listing {
        Listing { num: self.num@, dl_path: self.dl_path@ }
    }
}

/// The listed versions as mathematical values.
pub open spec fn listings(versions: Seq<PublishedVersion>) -> Seq<Listing> {
    Seq::new(versions.len(), |i: int| versions[i]@)
}

/// The numbers of a list of versions.
pub open spec fn numbers(versions: Seq<Listing>) -> Seq<Seq<char>> {
    Seq::new(versions.len(), |i: int| versions[i].num)
}

/// Whether a version may be chosen under `constraint`: any may where there is none.
pub open spec fn eligible(constraint: Option<Seq<char>>, version: Seq<char>) -> bool {
    match constraint {
        Some(requirement) => requirement_matches(requirement, version),
        None => true,
    }
}

/// The failure for a registry that lists a number which is no version.
pub open spec fn unreadable_number() -> ErrorView {
    failure(ErrorKind::RegistryError, "Could not parse crate `num`."@)
}

/// The failure for a constraint that no listed version satisfies.
pub open spec fn no_matching_version() -> ErrorView {
    failure(ErrorKind::NoMatchingVersion, "Could not find any matching versions."@)
}

/// Why no version can be chosen, if none can: the constraint is no requirement, or a listed
/// number is no version, or no listed version is eligible; in this order.
pub open spec fn selection_failure(
    nums: Seq<Seq<char>>,
    constraint: Option<Seq<char>>,
) -> Option<ErrorView> {
    if constraint is Some && requirement_canonical(constraint->0) is None {
        Some(bad_requirement(constraint->0))
    } else if exists|i: int| 0 <= i < nums.len() && version_canonical(#[trigger] nums[i]) is None {
        Some(unreadable_number())
    } else if forall|i: int| 0 <= i < nums.len() ==> !eligible(constraint, #[trigger] nums[i]) {
        Some(no_matching_version())
    } else {
        None
    }
}

/// The version at index `i` is the one to take: it is eligible, every other eligible version
/// is at or below it, and it is at or below no eligible version after it.
pub open spec fn is_selected(nums: Seq<Seq<char>>, constraint: Option<Seq<char>>, i: int) -> bool {
    &&& 0 <= i < nums.len()
    &&& eligible(constraint, nums[i])
    &&& forall|j: int|
        0 <= j < nums.len() && j != i && eligible(constraint, #[trigger] nums[j]) ==> version_le(
            nums[j],
            nums[i],
        )
    &&& forall|j: int|
        i < j < nums.len() && eligible(constraint, #[trigger] nums[j]) ==> !version_le(
            nums[i],
            nums[j],
        )
}

/// The index of the version to take, or why none can be taken.
pub open spec fn selection(nums: Seq<Seq<char>>, constraint: Option<Seq<char>>) -> Result<
    int,
    ErrorView,
> {
    match selection_failure(nums, constraint) {
        Some(e) => Err(e),
        None => Ok(choose|i: int| is_selected(nums, constraint, i)),
    }
}

/// At most one index is selected.
pub proof fn lemma_selection_is_unique(
    nums: Seq<Seq<char>>,
    constraint: Option<Seq<char>>,
    i: int,
    j: int,
)
    requires
        is_selected(nums, constraint, i),
        is_selected(nums, constraint, j),
    ensures
        i == j,
{
    if i < j {
        assert(eligible(constraint, nums[j]));
        assert(eligible(constraint, nums[i]));
    } else if j < i {
        assert(eligible(constraint, nums[i]));
        assert(eligible(constraint, nums[j]));
    }
}

/// The choice does not depend on the order of the list: where two lists hold the same
/// versions, the version taken from the one and the version taken from the other are the
/// same, or each is at or below the other.
pub proof fn lemma_selection_ignores_order(
    first: Seq<Seq<char>>,
    second: Seq<Seq<char>>,
    constraint: Option<Seq<char>>,
    i: int,
    j: int,
)
    requires
        forall|version: Seq<char>| first.contains(version) <==> second.contains(version),
        is_selected(first, constraint, i),
        is_selected(second, constraint, j),
    ensures
        first[i] == second[j] || (version_le(first[i], second[j]) && version_le(
            second[j],
            first[i],
        )),
{
    if first[i] != second[j] {
        assert(first.contains(first[i]));
        assert(second.contains(second[j]));
        let there = choose|k: int| 0 <= k < second.len() && second[k] == first[i];
        let here = choose|k: int| 0 <= k < first.len() && first[k] == second[j];
        assert(eligible(constraint, second[there]));
        assert(eligible(constraint, first[here]));
    }
}

/// The index that is held once the version at `candidate` has been looked at. `admitted` says
/// whether that version is eligible, and `at_most` whether the version held so far is at or
/// below it. An eligible version is taken where none is held, or where the one held is at or
/// below it.
pub open spec fn held_after(
    held: Option<usize>,
    candidate: usize,
    admitted: bool,
    at_most: bool,
) -> Option<usize> {
    if admitted && (held is None || at_most) {
        Some(candidate)
    } else {
        held
    }
}

/// Decides whether the version at `candidate` is taken for the one held so far.
pub fn hold_newer(held: Option<usize>, candidate: usize, admitted: bool, at_most: bool) -> (r:
    Option<usize>)
    ensures
        r == held_after(held, candidate, admitted, at_most),
{
    if admitted && (held.is_none() || at_most) {
        Some(candidate)
    } else {
        held
    }
}

/// How a selection ends. `requirement_ok` says whether the constraint, if there is one, is a
/// requirement, `numbers_ok` whether every listed number is a version, and `held` is the index
/// held when all versions have been looked at.
pub open spec fn concluded(
    constraint: Option<Seq<char>>,
    requirement_ok: bool,
    numbers_ok: bool,
    held: Option<usize>,
) -> Result<usize, ErrorView> {
    if constraint is Some && !requirement_ok {
        Err(bad_requirement(constraint->0))
    } else if !numbers_ok {
        Err(unreadable_number())
    } else {
        match held {
            Some(index) => Ok(index),
            None => Err(no_matching_version()),
        }
    }
}

/// The outcome of a selection as a mathematical value.
pub open spec fn index_outcome(r: Result<usize, CloneError>) -> Result<usize, ErrorView> {
    match r {
        Ok(index) => Ok(index),
        Err(e) => Err(e@),
    }
}

/// Ends a selection: with the index held, or with the failure that comes first.
pub fn conclude(
    constraint: Option<&str>,
    requirement_ok: bool,
    numbers_ok: bool,
    held: Option<usize>,
) -> (r: Result<usize, CloneError>)
    ensures
        index_outcome(r) == concluded(optional_text(constraint), requirement_ok, numbers_ok, held),
{
    if let Some(requirement) = constraint {
        if !requirement_ok {
            return Err(
                CloneError::about(
                    ErrorKind::InvalidSpec,
                    "`",
                    requirement,
                    "` is not a valid version requirement.",
                ),
            );
        }
    }
    if !numbers_ok {
        return Err(CloneError::new(ErrorKind::RegistryError, "Could not parse crate `num`."));
    }
    match held {
        Some(index) => Ok(index),
        None => Err(
            CloneError::new(ErrorKind::NoMatchingVersion, "Could not find any matching versions."),
        ),
    }
}

/// Whether every listed number is a version.
fn all_readable(versions: &Vec<PublishedVersion>) -> (r: bool)
    ensures
        r == forall|i: int|
            0 <= i < versions.len() ==> version_canonical(
                #[trigger] numbers(listings(versions@))[i],
            ) is Some,
{
    let ghost nums = numbers(listings(versions@));
    let mut k: usize = 0;
    while k < versions.len()
        invariant
            k <= versions.len(),
            nums == numbers(listings(versions@)),
            forall|j: int| 0 <= j < k ==> version_canonical(#[trigger] nums[j]) is Some,
        decreases versions.len() - k,
    {
        if !is_version(versions[k].num.as_str()) {
            assert(version_canonical(nums[k as int]) is None);
            return false;
        }
        k += 1;
    }
    true
}

/// Looks at the versions in order and holds the newest eligible one.
fn newest_eligible(versions: &Vec<PublishedVersion>, constraint: Option<&str>) -> (held: Option<
    usize,
>)
    requires
        constraint is Some ==> requirement_canonical(constraint->0@) is Some,
        forall|i: int|
            0 <= i < versions.len() ==> version_canonical(
                #[trigger] numbers(listings(versions@))[i],
            ) is Some,
    ensures
        match held {
            Some(index) => is_selected(
                numbers(listings(versions@)),
                optional_text(constraint),
                index as int,
            ),
            None => forall|i: int|
                0 <= i < versions.len() ==> !eligible(
                    optional_text(constraint),
                    #[trigger] numbers(listings(versions@))[i],
                ),
        },
{
    let ghost nums = numbers(listings(versions@));
    let ghost wanted = optional_text(constraint);
    let mut held: Option<usize> = None;
    let mut k: usize = 0;
    while k < versions.len()
        invariant
            k <= versions.len(),
            nums == numbers(listings(versions@)),
            wanted == optional_text(constraint),
            constraint is Some ==> requirement_canonical(constraint->0@) is Some,
            forall|j: int| 0 <= j < nums.len() ==> version_canonical(#[trigger] nums[j]) is Some,
            match held {
                None => forall|j: int| 0 <= j < k ==> !eligible(wanted, #[trigger] nums[j]),
                Some(b) => b < k && is_selected(nums.take(k as int), wanted, b as int),
            },
        decreases versions.len() - k,
    {
        let candidate = versions[k].num.as_str();
        assert(candidate@ == nums[k as int]);
        let admitted = match constraint {
            Some(requirement) => requirement_admits(requirement, candidate),
            None => true,
        };
        let at_most = match held {
            Some(b) => {
                assert(versions[b as int].num@ == nums[b as int]);
                admitted && version_at_most(versions[b].num.as_str(), candidate)
            },
            None => false,
        };
        let ghost before = nums.take(k as int);
        let ghost after = nums.take(k + 1);
        assert forall|j: int| 0 <= j < k implies #[trigger] after[j] == before[j] by {}
        proof {
            if admitted && held is Some && at_most {
                let b = held->0 as int;
                assert forall|j: int|
                    0 <= j < k && eligible(wanted, #[trigger] after[j]) implies version_le(
                    after[j],
                    after[k as int],
                ) by {
                    if j != b {
                        assert(eligible(wanted, before[j]));
                        assert(version_le(nums[j], nums[b]));
                    }
                }
            } else {
                assert forall|j: int|
                    0 <= j < k && eligible(wanted, #[trigger] after[j]) implies eligible(
                    wanted,
                    before[j],
                ) by {}
            }
        }
        held = hold_newer(held, k, admitted, at_most);
        k += 1;
    }
    assert(nums.take(k as int) =~= nums);
    held
}

/// Chooses among the published versions the newest one that `constraint` admits, and gives its
/// index.
pub fn select_version(versions: &Vec<PublishedVersion>, constraint: Option<&str>) -> (r: Result<
    usize,
    CloneError,
>)
    ensures
        match r {
            Ok(i) => selection(numbers(listings(versions@)), optional_text(constraint)) == Ok::<
                int,
                ErrorView,
            >(i as int) && is_selected(
                numbers(listings(versions@)),
                optional_text(constraint),
                i as int,
            ),
            Err(e) => selection(numbers(listings(versions@)), optional_text(constraint)) == Err::<
                int,
                ErrorView,
            >(e@),
        },
{
    let requirement_ok = match constraint {
        Some(requirement) => is_requirement(requirement),
        None => true,
    };
    let numbers_ok = requirement_ok && all_readable(versions);
    let held = if numbers_ok {
        newest_eligible(versions, constraint)
    } else {
        None
    };
    proof {
        if held is Some {
            let nums = numbers(listings(versions@));
            let wanted = optional_text(constraint);
            let chosen = choose|i: int| is_selected(nums, wanted, i);
            lemma_selection_is_unique(nums, wanted, held->0 as int, chosen);
        }
    }
    conclude(constraint, requirement_ok, numbers_ok, held)
}

} // verus!
