//! Whole requests, driven against a stand-in for the registry and the hosting service.

use cargo_clone::archive::{check_entry, first_outside};
use cargo_clone::{CloneError, CloneMethodKind, Cloner, ErrorKind, HttpReply, Replies, Step};

const BITFLAGS: &str = r#"{
    "crate": {
        "name": "bitflags",
        "homepage": "https://github.com/bitflags/bitflags",
        "repository": "https://github.com/bitflags/bitflags"
    },
    "versions": [
        {"num": "2.4.0", "dl_path": "/api/v1/crates/bitflags/2.4.0/download"},
        {"num": "1.3.2", "dl_path": "/api/v1/crates/bitflags/1.3.2/download"},
        {"num": "1.0.5", "dl_path": "/api/v1/crates/bitflags/1.0.5/download"},
        {"num": "1.0.4", "dl_path": "/api/v1/crates/bitflags/1.0.4/download"}
    ]
}"#;

const FOO: &str = r#"{
    "crate": {"name": "foo", "homepage": null, "repository": null},
    "versions": [{"num": "0.0.0", "dl_path": "/api/v1/crates/foo/0.0.0/download"}]
}"#;

const RS_GRAPH: &str = r#"{
    "crate": {"name": "rs-graph", "repository": "https://chiselapp.com/user/fifr/repository/rs-graph"},
    "versions": [{"num": "0.21.0", "dl_path": "/api/v1/crates/rs-graph/0.21.0/download"}]
}"#;

/// What the stand-in answers at `url`.
fn answer(url: &str) -> HttpReply {
    let body = match url {
        "https://crates.io/api/v1/crates/bitflags" => BITFLAGS,
        "https://crates.io/api/v1/crates/foo" => FOO,
        "https://crates.io/api/v1/crates/rs-graph" => RS_GRAPH,
        _ => return HttpReply { status: 404, body: r#"{"errors":[{"detail":"Not Found"}]}"#.to_string() },
    };
    HttpReply { status: 200, body: body.to_string() }
}

/// Follows a request up to the step that obtains the source.
fn clone(
    method_name: &str,
    spec: &str,
    version: Option<&str>,
    extra: &[&str],
) -> Result<Step, CloneError> {
    let cloner = Cloner::new();
    let method_kind = CloneMethodKind::from(method_name).unwrap();
    let mut replies = Replies::new();
    assert_eq!(replies, Replies { registry: None, hosting: None });
    for _ in 0..3 {
        match cloner.clone(method_kind, spec, version, extra, &replies)? {
            Step::FetchMetadata { url } => replies.registry = Some(answer(&url)),
            Step::QueryHosting { url } => replies.hosting = Some(answer(&url)),
            step => return Ok(step),
        }
    }
    panic!("the request asks again for an answer that it has");
}

fn assert_err(err: Result<Step, CloneError>, expected: &str) {
    let err = err.expect_err("got Ok");
    let s = err.message();
    if !s.contains(expected) {
        panic!("Expected: {}\nGot: {}\n", expected, s);
    }
}

#[test]
fn err_both_new_old_style_version() {
    assert_err(
        clone("crate", "foo:1.2.3", Some("1.2.3"), &[]),
        "Cannot specify both",
    );
}

#[test]
fn parse_version_err() {
    assert_err(
        clone("crate", "foo", Some("abc"), &[]),
        "not a valid semver",
    );
}

#[test]
fn parse_version_empty() {
    assert_err(clone("crate", "foo", Some(""), &[]), "version is empty");
}

#[test]
fn parse_version_req_ok() {
    let step = clone("crate", "bitflags", Some("=1.0.5"), &[]).unwrap();
    assert_eq!(
        step,
        Step::Download {
            url: "https://crates.io/api/v1/crates/bitflags/1.0.5/download".to_string(),
            base: "bitflags-1.0.5".to_string(),
        }
    );
    assert_eq!(check_entry("bitflags-1.0.5", "bitflags-1.0.5/src/lib.rs"), Ok(()));
    let entries = vec![
        "bitflags-1.0.5/Cargo.toml".to_string(),
        "bitflags-1.0.5/src/lib.rs".to_string(),
    ];
    assert_eq!(first_outside("bitflags-1.0.5", &entries), None);
}

#[test]
fn extra_args_crate() {
    assert_err(clone("crate", "foo", None, &["extra"]), "extra arguments");
}

#[test]
fn version_with_method() {
    assert_err(
        clone("git", "bitflags", Some("1.2.3"), &[]),
        "only works with",
    );
}

#[test]
fn unknown_crate() {
    assert_err(clone("auto", "test", None, &[]), "not found");
}

#[test]
fn clone_fossil() {
    let step = clone("fossil", "rs-graph", None, &["graph.fossil"]).unwrap();
    assert_eq!(
        step,
        Step::RunTool {
            program: "fossil".to_string(),
            args: vec![
                "clone".to_string(),
                "https://chiselapp.com/user/fifr/repository/rs-graph".to_string(),
                "graph.fossil".to_string(),
            ],
        }
    );
}

#[test]
fn clone_git_args() {
    let step = clone("git", "bitflags", None, &["--depth=1", "bf"]).unwrap();
    assert_eq!(
        step,
        Step::RunTool {
            program: "git".to_string(),
            args: vec![
                "clone".to_string(),
                "https://github.com/bitflags/bitflags".to_string(),
                "--depth=1".to_string(),
                "bf".to_string(),
            ],
        }
    );
}

#[test]
fn auto_rewrites_a_github_location() {
    let step = clone("auto", "bitflags", None, &["bf"]).unwrap();
    assert_eq!(
        step,
        Step::RunTool {
            program: "git".to_string(),
            args: vec![
                "clone".to_string(),
                "https://github.com/bitflags/bitflags.git".to_string(),
                "bf".to_string(),
            ],
        }
    );
}

#[test]
fn auto_with_a_version_takes_the_archive() {
    let step = clone("auto", "bitflags@^1.0", None, &[]).unwrap();
    assert_eq!(
        step,
        Step::Download {
            url: "https://crates.io/api/v1/crates/bitflags/1.3.2/download".to_string(),
            base: "bitflags-1.3.2".to_string(),
        }
    );
}

#[test]
fn auto_without_a_location_takes_the_archive() {
    let step = clone("auto", "foo", None, &[]).unwrap();
    assert_eq!(
        step,
        Step::Download {
            url: "https://crates.io/api/v1/crates/foo/0.0.0/download".to_string(),
            base: "foo-0.0.0".to_string(),
        }
    );
}

#[test]
fn the_free_function_starts_at_the_public_registry() {
    let replies = Replies { registry: None, hosting: None };
    assert_eq!(
        cargo_clone::clone("auto", "serde", None, &[], &replies),
        Ok(Step::FetchMetadata { url: "https://crates.io/api/v1/crates/serde".to_string() })
    );
    assert_eq!(cargo_clone::DEFAULT_REGISTRY_URL, "https://crates.io");
    assert_eq!(cargo_clone::DEFAULT_GITHUB_URL, "https://github.com");
    assert_eq!(cargo_clone::DEFAULT_GITLAB_URL, "https://gitlab.com");
    assert_eq!(
        cargo_clone::DEFAULT_BITBUCKET_URL,
        "https://api.bitbucket.org/2.0/repositories"
    );
}

#[test]
fn a_version_given_twice_is_refused_whatever_the_versions() {
    let replies = Replies { registry: Some(answer("https://crates.io/api/v1/crates/foo")), hosting: None };
    for method in ["crate", "git", "hg", "pijul", "fossil", "auto"] {
        for (spec, version) in [("foo:1.2.3", "1.2.3"), ("foo@1.2.3", "2.0.0"), ("foo:", ""), ("foo@x", "y")] {
            let kind = CloneMethodKind::from(method).unwrap();
            let none = Replies { registry: None, hosting: None };
            for r in [&none, &replies] {
                let e = Cloner::new().clone(kind, spec, Some(version), &["x"], r).unwrap_err();
                assert_eq!(e.kind(), ErrorKind::InvalidSpec);
                assert_eq!(e.message(), "Cannot specify both a :version and --version.");
            }
        }
    }
}

#[test]
fn a_version_with_a_repository_method_is_refused() {
    for method in ["git", "hg", "mercurial", "pijul", "fossil"] {
        for (spec, version) in [("bitflags", Some("1.2.3")), ("bitflags:^1", None), ("bitflags@*", None)] {
            let e = clone(method, spec, version, &[]).unwrap_err();
            assert_eq!(e.kind(), ErrorKind::VersionNotSupportedForMethod);
        }
    }
    let e = clone("git", "bitflags", Some("1.2.3"), &[]).unwrap_err();
    assert_eq!(
        e.message(),
        "Specifying a version `=1.2.3` only works with the `crate` method."
    );
}

#[test]
fn a_repository_method_without_a_location_is_refused_first() {
    let e = clone("git", "foo", Some("1.2.3"), &[]).unwrap_err();
    assert_eq!(e.kind(), ErrorKind::NoRepositoryDeclared);
    assert_eq!(e.message(), "Could not find repository path in crates.io.");
    let e = clone("hg", "foo", None, &["x"]).unwrap_err();
    assert_eq!(e.kind(), ErrorKind::NoRepositoryDeclared);
}

#[test]
fn setters_change_where_requests_go() {
    let mut cloner = Cloner::new();
    cloner
        .set_registry_url("http://localhost:1")
        .set_github_url("http://localhost:2")
        .set_gitlab_url("http://localhost:3")
        .set_bitbucket_url("http://localhost:4")
        .set_out_dir("/tmp/out");
    assert_eq!(cloner.out_dir(), Some("/tmp/out"));
    assert_eq!(Cloner::new().out_dir(), None);
    let none = Replies { registry: None, hosting: None };
    assert_eq!(
        cloner.clone(CloneMethodKind::Auto, "bitflags", None, &[], &none),
        Ok(Step::FetchMetadata { url: "http://localhost:1/api/v1/crates/bitflags".to_string() })
    );
    let with = Replies {
        registry: Some(HttpReply { status: 200, body: BITFLAGS.to_string() }),
        hosting: None,
    };
    assert_eq!(
        cloner.clone(CloneMethodKind::Auto, "bitflags", None, &[], &with),
        Ok(Step::RunTool {
            program: "git".to_string(),
            args: vec!["clone".to_string(), "http://localhost:2/bitflags/bitflags.git".to_string()],
        })
    );
    assert_eq!(
        cloner.clone(CloneMethodKind::Crate, "bitflags", None, &[], &with),
        Ok(Step::Download {
            url: "http://localhost:1/api/v1/crates/bitflags/2.4.0/download".to_string(),
            base: "bitflags-2.4.0".to_string(),
        })
    );
}

#[test]
fn a_bitbucket_location_is_settled_by_the_service() {
    let body = r#"{"crate": {"repository": "https://bitbucket.org/acme/widgets"}, "versions": []}"#;
    let mut replies = Replies {
        registry: Some(HttpReply { status: 200, body: body.to_string() }),
        hosting: None,
    };
    let cloner = Cloner::new();
    assert_eq!(
        cloner.clone(CloneMethodKind::Auto, "widgets", None, &["-q"], &replies),
        Ok(Step::QueryHosting {
            url: "https://api.bitbucket.org/2.0/repositories/acme/widgets".to_string()
        })
    );
    replies.hosting = Some(HttpReply {
        status: 200,
        body: r#"{"scm":"hg","links":{"clone":[{"name":"https","href":"https://x/y"}]}}"#
            .to_string(),
    });
    assert_eq!(
        cloner.clone(CloneMethodKind::Auto, "widgets", None, &["-q"], &replies),
        Ok(Step::RunTool {
            program: "hg".to_string(),
            args: vec!["clone".to_string(), "https://x/y".to_string(), "-q".to_string()],
        })
    );
    // An explicit method trusts the declared location and asks nobody.
    assert_eq!(
        cloner.clone(CloneMethodKind::Git, "widgets", None, &[], &replies),
        Ok(Step::RunTool {
            program: "git".to_string(),
            args: vec!["clone".to_string(), "https://bitbucket.org/acme/widgets".to_string()],
        })
    );
    replies.hosting = Some(HttpReply { status: 503, body: String::new() });
    let e = cloner.clone(CloneMethodKind::Auto, "widgets", None, &[], &replies).unwrap_err();
    assert_eq!(e.kind(), ErrorKind::HostingApiError);
    assert_eq!(
        e.message(),
        "Failed to get repo info from bitbucket API `https://api.bitbucket.org/2.0/repositories/acme/widgets`: `503`"
    );
}

#[test]
fn requests_fail_with_the_kind_of_their_failure() {
    let kind = |r: Result<Step, CloneError>| r.unwrap_err().kind();
    assert_eq!(kind(clone("crate", "foo:1.2.3", Some("1.2.3"), &[])), ErrorKind::InvalidSpec);
    assert_eq!(kind(clone("crate", "foo", Some("abc"), &[])), ErrorKind::InvalidSpec);
    assert_eq!(kind(clone("crate", "foo", Some(""), &[])), ErrorKind::InvalidSpec);
    assert_eq!(kind(clone("crate", "foo:", None, &[])), ErrorKind::InvalidSpec);
    assert_eq!(kind(clone("crate", "foo", None, &["extra"])), ErrorKind::UnexpectedExtraArguments);
    assert_eq!(kind(clone("auto", "foo", None, &["extra"])), ErrorKind::UnexpectedExtraArguments);
    assert_eq!(kind(clone("auto", "bitflags", Some("1"), &["x"])), ErrorKind::InvalidSpec);
    assert_eq!(kind(clone("auto", "bitflags", Some("^1"), &["x"])), ErrorKind::UnexpectedExtraArguments);
    assert_eq!(kind(clone("auto", "test", None, &[])), ErrorKind::PackageNotFound);
    assert_eq!(kind(clone("crate", "bitflags", Some("^3"), &[])), ErrorKind::NoMatchingVersion);
    assert_eq!(kind(clone("pijul", "foo", None, &[])), ErrorKind::NoRepositoryDeclared);
    assert_eq!(kind(clone("auto", "rs-graph", None, &[])), ErrorKind::UnknownVcs);
    assert_eq!(
        clone("auto", "rs-graph", None, &[]).unwrap_err().message(),
        "Could not determine the VCS from repo `https://chiselapp.com/user/fifr/repository/rs-graph`, use the `--method` option to specify how to download."
    );
    assert_eq!(
        clone("crate", "foo", None, &["extra"]).unwrap_err().message(),
        "Got extra arguments, crate downloads take no extra arguments."
    );
}

#[test]
fn a_registry_that_answers_badly_ends_the_request() {
    let cloner = Cloner::new();
    let with = |status: u16, body: &str| Replies {
        registry: Some(HttpReply { status, body: body.to_string() }),
        hosting: None,
    };
    let run = |replies: &Replies| {
        cloner.clone(CloneMethodKind::Crate, "foo", None, &[], replies).unwrap_err()
    };
    let e = run(&with(500, FOO));
    assert_eq!(e.kind(), ErrorKind::RegistryError);
    assert_eq!(e.message(), "Failed to get package info from crates.io: `500`");
    let e = run(&with(200, "<html>"));
    assert_eq!(e.kind(), ErrorKind::RegistryError);
    assert_eq!(e.message(), "Failed to convert to json.");
    let e = run(&with(200, r#"{"versions": []}"#));
    assert_eq!(e.kind(), ErrorKind::RegistryError);
    assert_eq!(e.message(), "`crate` expected in pkg info");
    let e = run(&with(200, r#"{"crate": {}}"#));
    assert_eq!(e.kind(), ErrorKind::RegistryError);
    assert_eq!(e.message(), "Could not find `versions` array on crates.io.");
    let e = run(&with(200, r#"{"crate": {}, "versions": [{"num": "1", "dl_path": "/x"}]}"#));
    assert_eq!(e.kind(), ErrorKind::RegistryError);
    assert_eq!(e.message(), "Could not parse crate `num`.");
    let e = run(&with(200, r#"{"crate": {}, "versions": []}"#));
    assert_eq!(e.kind(), ErrorKind::NoMatchingVersion);
    // A repository method does not read the list of versions.
    let body = r#"{"crate": {"repository": "https://example.com/x"}}"#;
    assert_eq!(
        cloner.clone(CloneMethodKind::Fossil, "foo", None, &[], &with(200, body)),
        Ok(Step::RunTool {
            program: "fossil".to_string(),
            args: vec!["clone".to_string(), "https://example.com/x".to_string()],
        })
    );
}

#[test]
fn the_package_name_is_lowered_in_the_archive_directory_only() {
    let body = r#"{"crate": {}, "versions": [{"num": "0.11.4", "dl_path": "/dl/Inflector"}]}"#;
    let replies = Replies {
        registry: Some(HttpReply { status: 200, body: body.to_string() }),
        hosting: None,
    };
    let none = Replies::new();
    let cloner = Cloner::new();
    assert_eq!(
        cloner.clone(CloneMethodKind::Auto, "Inflector@=0.11.4", None, &[], &none),
        Ok(Step::FetchMetadata { url: "https://crates.io/api/v1/crates/Inflector".to_string() })
    );
    assert_eq!(
        cloner.clone(CloneMethodKind::Auto, "Inflector@=0.11.4", None, &[], &replies),
        Ok(Step::Download {
            url: "https://crates.io/dl/Inflector".to_string(),
            base: "inflector-0.11.4".to_string(),
        })
    );
}

#[test]
fn a_request_is_followed_step_by_step() {
    fn ask(_url: &str) -> HttpReply {
        HttpReply { status: 200, body: String::from(r#"{"crate": {}, "versions": []}"#) }
    }
    let cloner = Cloner::new();
    let mut replies = Replies::new();
    let outcome = loop {
        match cloner.clone(CloneMethodKind::Auto, "bitflags", None, &[], &replies) {
            Ok(Step::FetchMetadata { url }) => replies.registry = Some(ask(&url)),
            Ok(Step::QueryHosting { url }) => replies.hosting = Some(ask(&url)),
            Ok(Step::Download { url, base }) => break format!("unpack {url}, it holds {base}"),
            Ok(Step::RunTool { program, args }) => break format!("run {program} {args:?}"),
            Err(e) => break e.message(),
        }
    };
    assert_eq!(outcome, "Could not find any matching versions.");
}
