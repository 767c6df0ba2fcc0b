//! Constraints, and the choice of a version.

use cargo_clone::version::{
    check_semver_req, conclude, constraint_from, hold_newer, is_range_expression, select_version,
};
use cargo_clone::{ErrorKind, PublishedVersion};

fn listed(nums: &[&str]) -> Vec<PublishedVersion> {
    nums.iter()
        .map(|num| PublishedVersion { num: num.to_string(), dl_path: format!("/dl/{}", num) })
        .collect()
}

fn chosen(nums: &[&str], constraint: Option<&str>) -> String {
    let versions = listed(nums);
    let index = select_version(&versions, constraint).unwrap();
    versions[index].num.clone()
}

#[test]
fn an_empty_constraint_is_invalid() {
    let e = check_semver_req("").unwrap_err();
    assert_eq!(e.kind(), ErrorKind::InvalidSpec);
    assert_eq!(e.message(), "version is empty");
}

#[test]
fn an_exact_version_becomes_an_equals_constraint() {
    assert_eq!(check_semver_req("1.2.3").unwrap(), "=1.2.3");
    assert_eq!(check_semver_req("0.0.0").unwrap(), "=0.0.0");
    assert_eq!(check_semver_req("1.2.3-alpha.1").unwrap(), "=1.2.3-alpha.1");
    assert_eq!(check_semver_req("1.2.3+build.5").unwrap(), "=1.2.3+build.5");
}

#[test]
fn a_text_that_is_no_exact_version_is_invalid() {
    for text in ["abc", "1.2", "1", "1.2.3.4", " 1.2.3", "1.2.3 ", "01.2.3", "1.0.0-", "v1.2.3", "1.2.x"] {
        let e = check_semver_req(text).unwrap_err();
        assert_eq!(e.kind(), ErrorKind::InvalidSpec, "{:?}", text);
        assert_eq!(
            e.message(),
            format!(
                "`{}` is not a valid semver version.\nUse an exact version like 1.2.3 or a version requirement expression.",
                text
            )
        );
    }
}

#[test]
fn a_range_is_kept_as_semver_prints_it() {
    assert_eq!(check_semver_req("^1.0").unwrap(), "^1.0");
    assert_eq!(check_semver_req("=1.0.5").unwrap(), "=1.0.5");
    assert_eq!(check_semver_req("~1.2.3").unwrap(), "~1.2.3");
    assert_eq!(check_semver_req("<2").unwrap(), "<2");
    assert_eq!(check_semver_req(">= 1.0").unwrap(), ">=1.0");
    assert_eq!(check_semver_req(">=1.0,<2.0").unwrap(), ">=1.0, <2.0");
    assert_eq!(check_semver_req("*").unwrap(), "*");
    assert_eq!(check_semver_req("1.*").unwrap(), "1.*");
    assert_eq!(check_semver_req("1.2.*").unwrap(), "1.2.*");
}

#[test]
fn a_text_with_an_operator_or_a_star_is_never_read_as_a_version() {
    // Each of these would be an exact version without its first character.
    for text in ["<1.2.3", ">1.2.3", "=1.2.3", "^1.2.3", "~1.2.3"] {
        let printed = check_semver_req(text).unwrap();
        assert_eq!(printed, text);
    }
    for text in ["^", "<", "=abc", "~x", "*.*", "1.2.3*", "abc*", ">=1.0 <2.0"] {
        let e = check_semver_req(text).unwrap_err();
        assert_eq!(e.kind(), ErrorKind::InvalidSpec, "{:?}", text);
        assert_eq!(e.message(), format!("`{}` is not a valid version requirement.", text));
    }
}

#[test]
fn the_newest_version_under_a_caret_constraint_is_taken() {
    let nums = ["1.0.0", "1.0.5", "1.2.0", "2.0.0-beta"];
    assert_eq!(chosen(&nums, Some("^1.0")), "1.2.0");
}

#[test]
fn the_choice_does_not_depend_on_the_order() {
    let orders: [[&str; 4]; 6] = [
        ["1.0.0", "1.0.5", "1.2.0", "2.0.0-beta"],
        ["2.0.0-beta", "1.2.0", "1.0.5", "1.0.0"],
        ["1.2.0", "1.0.0", "2.0.0-beta", "1.0.5"],
        ["1.0.5", "2.0.0-beta", "1.0.0", "1.2.0"],
        ["1.2.0", "2.0.0-beta", "1.0.5", "1.0.0"],
        ["1.0.0", "1.2.0", "1.0.5", "2.0.0-beta"],
    ];
    for nums in orders {
        assert_eq!(chosen(&nums, Some("^1.0")), "1.2.0");
        assert_eq!(chosen(&nums, None), "2.0.0-beta");
        assert_eq!(chosen(&nums, Some("<1.2")), "1.0.5");
        assert_eq!(chosen(&nums, Some("=1.0.0")), "1.0.0");
    }
}

#[test]
fn versions_are_ordered_as_numbers_not_as_texts() {
    assert_eq!(chosen(&["1.9.0", "1.10.0", "1.2.0"], None), "1.10.0");
    assert_eq!(chosen(&["0.9.9", "0.10.0"], Some("*")), "0.10.0");
    assert_eq!(chosen(&["1.0.0", "1.0.0-rc.1", "1.0.0-beta.11", "1.0.0-beta.2"], None), "1.0.0");
    assert_eq!(
        chosen(&["1.0.0-alpha", "1.0.0-rc.1", "1.0.0-beta.11", "1.0.0-beta.2"], None),
        "1.0.0-rc.1"
    );
    assert_eq!(chosen(&["1.0.0-beta.11", "1.0.0-beta.2"], None), "1.0.0-beta.11");
}

#[test]
fn of_equal_candidates_the_later_is_taken() {
    let versions = listed(&["1.0.0", "0.5.0", "1.0.0"]);
    assert_eq!(select_version(&versions, None), Ok(2));
    let versions = listed(&["3.0.0", "0.5.0", "1.0.0"]);
    assert_eq!(select_version(&versions, None), Ok(0));
    let versions = listed(&["1.0.0"]);
    assert_eq!(select_version(&versions, Some("^1")), Ok(0));
}

#[test]
fn no_matching_version() {
    let versions = listed(&["1.0.0", "1.0.5", "1.2.0", "2.0.0-beta"]);
    let e = select_version(&versions, Some("^3")).unwrap_err();
    assert_eq!(e.kind(), ErrorKind::NoMatchingVersion);
    assert_eq!(e.message(), "Could not find any matching versions.");
    let e = select_version(&Vec::new(), None).unwrap_err();
    assert_eq!(e.kind(), ErrorKind::NoMatchingVersion);
    // A pre-release is not taken under a constraint that names none.
    let versions = listed(&["2.0.0-beta"]);
    assert_eq!(select_version(&versions, Some("*")).unwrap_err().kind(), ErrorKind::NoMatchingVersion);
    assert_eq!(select_version(&versions, Some(">=1")).unwrap_err().kind(), ErrorKind::NoMatchingVersion);
    assert_eq!(select_version(&versions, None), Ok(0));
}

#[test]
fn a_listed_number_that_is_no_version_is_a_registry_error() {
    let versions = listed(&["1.0.0", "one", "2.0.0"]);
    let e = select_version(&versions, None).unwrap_err();
    assert_eq!(e.kind(), ErrorKind::RegistryError);
    assert_eq!(e.message(), "Could not parse crate `num`.");
    let e = select_version(&versions, Some("^1")).unwrap_err();
    assert_eq!(e.kind(), ErrorKind::RegistryError);
}

#[test]
fn a_constraint_that_is_no_requirement_is_refused_before_the_list_is_read() {
    let versions = listed(&["1.0.0", "one"]);
    let e = select_version(&versions, Some("one")).unwrap_err();
    assert_eq!(e.kind(), ErrorKind::InvalidSpec);
    assert_eq!(e.message(), "`one` is not a valid version requirement.");
}

#[test]
fn a_range_expression_is_told_by_its_first_character_or_a_star() {
    for text in ["<1", ">1", "=1", "^1", "~1", "*", "1.*", "1.2.*", "x*y", "<", "~", "=abc", "1.2.3*"] {
        assert!(is_range_expression(text), "{:?}", text);
    }
    for text in ["", "1.2.3", "1", "abc", " ^1", "1<2", "1.2.3-^", "v=1", "1 ~ 2"] {
        assert!(!is_range_expression(text), "{:?}", text);
    }
}

#[test]
fn a_constraint_is_written_from_what_semver_prints() {
    assert_eq!(constraint_from("1.2.3", Some("1.2.3")), Ok("=1.2.3".to_string()));
    assert_eq!(constraint_from("^1.0", Some("^1.0")), Ok("^1.0".to_string()));
    assert_eq!(constraint_from(">= 1.0", Some(">=1.0")), Ok(">=1.0".to_string()));
    assert_eq!(constraint_from("x", Some("y")), Ok("=y".to_string()));
    assert_eq!(constraint_from("", Some("y")).unwrap_err().message(), "version is empty");
    assert_eq!(constraint_from("", None).unwrap_err().message(), "version is empty");
    assert_eq!(
        constraint_from("^x", None).unwrap_err().message(),
        "`^x` is not a valid version requirement."
    );
    assert_eq!(
        constraint_from("abc", None).unwrap_err().message(),
        "`abc` is not a valid semver version.\nUse an exact version like 1.2.3 or a version requirement expression."
    );
}

#[test]
fn an_eligible_version_is_held_unless_the_one_held_is_newer() {
    assert_eq!(hold_newer(None, 0, true, false), Some(0));
    assert_eq!(hold_newer(None, 0, true, true), Some(0));
    assert_eq!(hold_newer(None, 0, false, false), None);
    assert_eq!(hold_newer(None, 0, false, true), None);
    assert_eq!(hold_newer(Some(2), 5, true, true), Some(5));
    assert_eq!(hold_newer(Some(2), 5, true, false), Some(2));
    assert_eq!(hold_newer(Some(2), 5, false, true), Some(2));
    assert_eq!(hold_newer(Some(2), 5, false, false), Some(2));
}

#[test]
fn a_selection_ends_with_the_first_failure_or_the_index_held() {
    assert_eq!(conclude(None, true, true, Some(3)), Ok(3));
    assert_eq!(conclude(Some("^1"), true, true, Some(0)), Ok(0));
    assert_eq!(conclude(None, false, true, Some(3)), Ok(3));
    let message = |r: Result<usize, cargo_clone::CloneError>| r.unwrap_err().message();
    assert_eq!(message(conclude(None, true, true, None)), "Could not find any matching versions.");
    assert_eq!(message(conclude(None, true, false, Some(1))), "Could not parse crate `num`.");
    assert_eq!(message(conclude(Some("^1"), true, false, None)), "Could not parse crate `num`.");
    assert_eq!(
        message(conclude(Some("one"), false, false, None)),
        "`one` is not a valid version requirement."
    );
    assert_eq!(
        message(conclude(Some("one"), false, true, Some(1))),
        "`one` is not a valid version requirement."
    );
}
