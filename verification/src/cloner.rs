//! The cloner: the services it talks to, and what it decides.
//!
//! A clone needs answers from the registry and, for some locations, from a hosting service,
//! and it ends in a download or in the run of a version-control program. None of that is done
//! here. `Cloner::clone` takes the answers that are there so far and says what is to be done
//! next: whoever calls it performs that step and, if the step was a request, calls again with
//! the answer.

use crate::archive::{archive_base, crate_base};
use crate::error::{failure, failure_about, CloneError, ErrorKind, ErrorView};
use crate::bitbucket::{bitbucket, bitbucket_target};
use crate::hosting::{
    bases_of, detect_repo, detection, detection_outcome, Bases, Detection, DetectionView,
};
use crate::method::{CloneMethodKind, ResolvedTarget, TargetView, TerminalMethod};
use crate::registry::{
    declared_location, get_repo, metadata_url, pkg_info_of, published_versions, read_pkg_info,
    versions_of, HttpReply, PackageInfo, PackageView, ReplyView,
};
use crate::request::{
    both_versions, is_separator, lemma_spec_version_iff_separator, parse_spec,
    read_version_request, spec_name, spec_version, version_request,
};
use crate::text::{borrow, optional_string_text, optional_text, slice_texts, texts};
use crate::version::{numbers, select_version, selection, Listing};
use vstd::prelude::*;

verus! {

/// https://api.bitbucket.org/2.0/repositories
pub const DEFAULT_BITBUCKET_URL: &'static str = "https://api.bitbucket.org/2.0/repositories";

/// https://github.com
pub const DEFAULT_GITHUB_URL: &'static str = "https://github.com";

/// https://gitlab.com
pub const DEFAULT_GITLAB_URL: &'static str = "https://gitlab.com";

/// https://crates.io
pub const DEFAULT_REGISTRY_URL: &'static str = "https://crates.io";

/// The services that a clone talks to, and the directory that it fills.
#[derive(Debug, Clone)]
pub struct Cloner {
    registry_url: String,
    github_url: String,
    gitlab_url: String,
    bitbucket_url: String,
    out_dir: Option<String>,
}

/// A cloner as a mathematical value.
pub ghost struct ClonerView {
    pub registry_url: Seq<char>,
    pub github_url: Seq<char>,
    pub gitlab_url: Seq<char>,
    pub bitbucket_url: Seq<char>,
    pub out_dir: Option<Seq<char>>,
}

impl ClonerView {
    /// The cloner that talks to the public services and has no output directory.
    pub open spec fn public_services() -> ClonerView {
        ClonerView {
            registry_url: DEFAULT_REGISTRY_URL@,
            github_url: DEFAULT_GITHUB_URL@,
            gitlab_url: DEFAULT_GITLAB_URL@,
            bitbucket_url: DEFAULT_BITBUCKET_URL@,
            out_dir: None,
        }
    }

    /// The bases from which the locations of the hosting services are written.
    pub open spec fn bases(self) -> Bases {
        bases_of(self.github_url, self.gitlab_url, self.bitbucket_url)
    }
}

impl View for Cloner {
    type V = ClonerView;

    closed spec fn view(&self) -> ClonerView {
        ClonerView {
            registry_url: self.registry_url@,
            github_url: self.github_url@,
            gitlab_url: self.gitlab_url@,
            bitbucket_url: self.bitbucket_url@,
            out_dir: optional_string_text(self.out_dir),
        }
    }
}

/// The answers that have come in so far.
#[derive(Debug, Clone, PartialEq, Eq)]
pub struct Replies {
    /// The registry's answer to the metadata request.
    pub registry: Option<HttpReply>,
    /// The hosting service's answer.
    pub hosting: Option<HttpReply>,
}

/// The answers as mathematical values.
pub ghost struct RepliesView {
    pub registry: Option<ReplyView>,
    pub hosting: Option<ReplyView>,
}

/// An optional answer as a mathematical value.
pub open spec fn optional_reply(reply: Option<HttpReply>) -> Option<ReplyView> {
    match reply {
        Some(reply) => Some(reply@),
        None => None,
    }
}

impl Replies {
    /// No answer yet.
    pub fn new() -> (r: Replies)
        ensures
            r@.registry is None,
            r@.hosting is None,
    {
        Replies { registry: None, hosting: None }
    }
}

impl View for Replies {
    type V = RepliesView;

    open spec fn view(&self) -> RepliesView {
        RepliesView {
            registry: optional_reply(self.registry),
            hosting: optional_reply(self.hosting),
        }
    }
}

/// What is to be done next.
#[derive(Debug, Clone, PartialEq, Eq)]
pub enum Step {
    /// Ask the registry for the package's metadata at `url`.
    FetchMetadata { url: String },
    /// Ask the hosting service at `url` how the repository is kept.
    QueryHosting { url: String },
    /// Download the archive at `url` and unpack it; its entries lie in the directory `base`.
    Download { url: String, base: String },
    /// Run `program` with the arguments `args` in the output directory.
    RunTool { program: String, args: Vec<String> },
}

/// A step as a mathematical value.
pub ghost enum StepView {
    FetchMetadata { url: Seq<char> },
    QueryHosting { url: Seq<char> },
    Download { url: Seq<char>, base: Seq<char> },
    RunTool { program: Seq<char>, args: Seq<Seq<char>> },
}

impl View for Step {
    type V = StepView;

    open spec fn view(&self) -> StepView {
        match self {
            Step::FetchMetadata { url } => StepView::FetchMetadata { url: url@ },
            Step::QueryHosting { url } => StepView::QueryHosting { url: url@ },
            Step::Download { url, base } => StepView::Download { url: url@, base: base@ },
            Step::RunTool { program, args } => StepView::RunTool {
                program: program@,
                args: texts(args@),
            },
        }
    }
}

/// The outcome of a decision as a mathematical value.
pub open spec fn step_outcome(r: Result<Step, CloneError>) -> Result<StepView, ErrorView> {
    match r {
        Ok(step) => Ok(step@),
        Err(e) => Err(e@),
    }
}

/// The target of an archive download.
pub open spec fn archive_target() -> TargetView {
    TargetView { method: TerminalMethod::Crate, location: Seq::empty() }
}

/// The failure for a repository method where the registry names no repository.
pub open spec fn no_repository() -> ErrorView {
    failure(ErrorKind::NoRepositoryDeclared, "Could not find repository path in crates.io."@)
}

/// The method and target of a request. `Auto` takes the archive where a version is asked for
/// or no location is declared, and else goes by the shape of the declared location. `Crate`
/// takes the archive. A repository method takes the declared location as it stands, and fails
/// where none is declared.
pub open spec fn resolution(
    method: CloneMethodKind,
    has_version: bool,
    declared: Option<Seq<char>>,
    bases: Bases,
) -> Result<DetectionView, ErrorView> {
    match method {
        CloneMethodKind::Auto => if has_version {
            Ok(DetectionView::Resolved(archive_target()))
        } else {
            match declared {
                Some(repo) => detection(repo, bases),
                None => Ok(DetectionView::Resolved(archive_target())),
            }
        },
        CloneMethodKind::Crate => Ok(DetectionView::Resolved(archive_target())),
        _ => match declared {
            None => Err(no_repository()),
            Some(repo) => Ok(
                DetectionView::Resolved(
                    TargetView { method: method.terminal_of()->0, location: repo },
                ),
            ),
        },
    }
}

/// The failure for extra arguments with an archive download.
pub open spec fn extra_arguments() -> ErrorView {
    failure(
        ErrorKind::UnexpectedExtraArguments,
        "Got extra arguments, crate downloads take no extra arguments."@,
    )
}

/// The failure for a version constraint with a repository method.
pub open spec fn version_with_method(constraint: Seq<char>) -> ErrorView {
    failure_about(
        ErrorKind::VersionNotSupportedForMethod,
        "Specifying a version `"@,
        constraint,
        "` only works with the `crate` method."@,
    )
}

/// Why a method does not go with what else is asked, if it does not: an archive takes no
/// extra arguments, and a repository method takes no version constraint.
pub open spec fn refused_arguments(
    method: TerminalMethod,
    constraint: Option<Seq<char>>,
    extra: Seq<Seq<char>>,
) -> Option<ErrorView> {
    if method == TerminalMethod::Crate {
        if extra.len() > 0 {
            Some(extra_arguments())
        } else {
            None
        }
    } else {
        match constraint {
            Some(text) => Some(version_with_method(text)),
            None => None,
        }
    }
}

/// The arguments with which a version-control program clones from `location`.
pub open spec fn clone_arguments(location: Seq<char>, extra: Seq<Seq<char>>) -> Seq<Seq<char>> {
    seq!["clone"@, location] + extra
}

/// The run of the program of `method` that clones from `location`.
pub open spec fn tool_run(
    method: TerminalMethod,
    location: Seq<char>,
    extra: Seq<Seq<char>>,
) -> StepView {
    StepView::RunTool { program: method.command_text(), args: clone_arguments(location, extra) }
}

/// The download of the listed version `chosen` of the package `name` from the registry at
/// `registry`.
pub open spec fn download_of(registry: Seq<char>, name: Seq<char>, chosen: Listing) -> StepView {
    StepView::Download { url: registry + chosen.dl_path, base: archive_base(name, chosen.num) }
}

/// The download of the newest version of the package `name` that `constraint` admits, among
/// those that the package lists.
pub open spec fn download(
    registry: Seq<char>,
    name: Seq<char>,
    constraint: Option<Seq<char>>,
    info: PackageView,
) -> Result<StepView, ErrorView> {
    match versions_of(info) {
        Err(e) => Err(e),
        Ok(versions) => match selection(numbers(versions), constraint) {
            Err(e) => Err(e),
            Ok(i) => Ok(download_of(registry, name, versions[i])),
        },
    }
}

/// The step that obtains `target`, unless the method does not go with what else is asked.
pub open spec fn acquisition(
    registry: Seq<char>,
    target: TargetView,
    name: Seq<char>,
    constraint: Option<Seq<char>>,
    extra: Seq<Seq<char>>,
    info: PackageView,
) -> Result<StepView, ErrorView> {
    match refused_arguments(target.method, constraint, extra) {
        Some(e) => Err(e),
        None => if target.method == TerminalMethod::Crate {
            download(registry, name, constraint, info)
        } else {
            Ok(tool_run(target.method, target.location, extra))
        },
    }
}

/// What follows once the metadata document is there.
pub open spec fn plan_with_metadata(
    cloner: ClonerView,
    method: CloneMethodKind,
    name: Seq<char>,
    constraint: Option<Seq<char>>,
    extra: Seq<Seq<char>>,
    info: PackageView,
    hosting: Option<ReplyView>,
) -> Result<StepView, ErrorView> {
    match declared_location(info) {
        Err(e) => Err(e),
        Ok(declared) => match resolution(method, constraint is Some, declared, cloner.bases()) {
            Err(e) => Err(e),
            Ok(DetectionView::Resolved(target)) => acquisition(
                cloner.registry_url,
                target,
                name,
                constraint,
                extra,
                info,
            ),
            Ok(DetectionView::AskBitbucket { url }) => match hosting {
                None => Ok(StepView::QueryHosting { url }),
                Some(answer) => match bitbucket_target(url, answer.status, answer.body) {
                    Err(e) => Err(e),
                    Ok(target) => acquisition(
                        cloner.registry_url,
                        target,
                        name,
                        constraint,
                        extra,
                        info,
                    ),
                },
            },
        },
    }
}

/// What is to be done next for a request, given the answers so far; or the failure in which
/// the request ends. The request is read first, then the registry is asked, then the method is
/// settled, for which a hosting service may have to be asked, and then the step that obtains
/// the source is made up.
pub open spec fn plan(
    cloner: ClonerView,
    method: CloneMethodKind,
    spec: Seq<char>,
    version: Option<Seq<char>>,
    extra: Seq<Seq<char>>,
    replies: RepliesView,
) -> Result<StepView, ErrorView> {
    match version_request(spec_version(spec), version) {
        Err(e) => Err(e),
        Ok(constraint) => match replies.registry {
            None => Ok(
                StepView::FetchMetadata { url: metadata_url(cloner.registry_url, spec_name(spec)) },
            ),
            Some(reply) => match pkg_info_of(spec_name(spec), reply.status, reply.body) {
                Err(e) => Err(e),
                Ok(info) => plan_with_metadata(
                    cloner,
                    method,
                    spec_name(spec),
                    constraint,
                    extra,
                    info,
                    replies.hosting,
                ),
            },
        },
    }
}

/// The failure for a version-control program that did not finish successfully.
pub open spec fn tool_failed(program: Seq<char>, location: Seq<char>) -> ErrorView {
    failure(
        ErrorKind::ExternalToolFailed,
        "`"@ + program + " clone "@ + location + "` did not finish successfully."@,
    )
}

/// The failure for a version-control program that could not be run.
pub open spec fn tool_missing(program: Seq<char>) -> ErrorView {
    failure_about(ErrorKind::ExternalToolFailed, "Failed to run `"@, program, "`."@)
}

/// Judges the run of `program`, which was to clone from `location`. `exit` is `None` where the
/// program could not be run, and else says whether it ended successfully.
pub fn tool_outcome(program: &str, location: &str, exit: Option<bool>) -> (r: Result<(), CloneError>)
    ensures
        match r {
            Ok(_) => exit == Some(true),
            Err(e) => match exit {
                None => e@ == tool_missing(program@),
                Some(success) => !success && e@ == tool_failed(program@, location@),
            },
        },
{
    match exit {
        None => Err(CloneError::about(ErrorKind::ExternalToolFailed, "Failed to run `", program, "`.")),
        Some(true) => Ok(()),
        Some(false) => {
            let mut message = "`".to_owned();
            message.append(program);
            message.append(" clone ");
            message.append(location);
            message.append("` did not finish successfully.");
            Err(CloneError { kind: ErrorKind::ExternalToolFailed, message })
        },
    }
}

/// The outcome of a test that passes or fails, as a mathematical value.
pub open spec fn refusal(r: Result<(), CloneError>) -> Option<ErrorView> {
    match r {
        Ok(_) => None,
        Err(e) => Some(e@),
    }
}

/// Tests whether `method` goes with the constraint and the extra arguments that are asked.
pub fn check_arguments(method: TerminalMethod, constraint: Option<&str>, extra: &[&str]) -> (r:
    Result<(), CloneError>)
    ensures
        refusal(r) == refused_arguments(method, optional_text(constraint), slice_texts(extra@)),
{
    match method {
        TerminalMethod::Crate => {
            if extra.len() > 0 {
                Err(
                    CloneError::new(
                        ErrorKind::UnexpectedExtraArguments,
                        "Got extra arguments, crate downloads take no extra arguments.",
                    ),
                )
            } else {
                Ok(())
            }
        },
        _ => match constraint {
            Some(text) => Err(
                CloneError::about(
                    ErrorKind::VersionNotSupportedForMethod,
                    "Specifying a version `",
                    text,
                    "` only works with the `crate` method.",
                ),
            ),
            None => Ok(()),
        },
    }
}

/// Makes up the run of the program that clones `target`, with the extra arguments behind the
/// location.
pub fn run_step(target: &ResolvedTarget, extra: &[&str]) -> (r: Step)
    ensures
        r@ == tool_run(target@.method, target@.location, slice_texts(extra@)),
{
    let mut args: Vec<String> = Vec::new();
    args.push("clone".to_owned());
    args.push(target.location.clone());
    let mut k: usize = 0;
    while k < extra.len()
        invariant
            k <= extra.len(),
            texts(args@) == clone_arguments(target@.location, slice_texts(extra@).take(k as int)),
        decreases extra.len() - k,
    {
        let ghost before = texts(args@);
        args.push(extra[k].to_owned());
        assert(texts(args@) =~= before.push(extra@[k as int]@));
        assert(slice_texts(extra@).take(k + 1) =~= slice_texts(extra@).take(k as int).push(
            extra@[k as int]@,
        ));
        k += 1;
    }
    assert(slice_texts(extra@).take(k as int) =~= slice_texts(extra@));
    Step::RunTool { program: target.method.command().to_owned(), args }
}

/// Makes up the download from the registry at `registry_url` of the archive at `dl_path`,
/// which holds the directory `base`.
pub fn download_step(registry_url: &str, dl_path: &str, base: String) -> (r: Step)
    ensures
        r@ == (StepView::Download { url: registry_url@ + dl_path@, base: base@ }),
{
    let mut url = registry_url.to_owned();
    url.append(dl_path);
    Step::Download { url, base }
}

impl Cloner {
    /// Creates a cloner that talks to the public services and has no output directory.
    pub fn new() -> (r: Cloner)
        ensures
            r@ == ClonerView::public_services(),
    {
        Cloner {
            registry_url: DEFAULT_REGISTRY_URL.to_owned(),
            github_url: DEFAULT_GITHUB_URL.to_owned(),
            gitlab_url: DEFAULT_GITLAB_URL.to_owned(),
            bitbucket_url: DEFAULT_BITBUCKET_URL.to_owned(),
            out_dir: None,
        }
    }

    /// Sets the URL of the registry, from which metadata and `.crate` files are downloaded.
    pub fn set_registry_url(&mut self, value: &str) -> (r: &mut Self)
        ensures
            r@ == (ClonerView { registry_url: value@, ..old(self)@ }),
            *final(self) == *final(r),
    {
        self.registry_url = value.to_owned();
        self
    }

    /// Sets the URL from which the locations of GitHub repositories are written.
    pub fn set_github_url(&mut self, value: &str) -> (r: &mut Self)
        ensures
            r@ == (ClonerView { github_url: value@, ..old(self)@ }),
            *final(self) == *final(r),
    {
        self.github_url = value.to_owned();
        self
    }

    /// Sets the URL from which the locations of GitLab repositories are written.
    pub fn set_gitlab_url(&mut self, value: &str) -> (r: &mut Self)
        ensures
            r@ == (ClonerView { gitlab_url: value@, ..old(self)@ }),
            *final(self) == *final(r),
    {
        self.gitlab_url = value.to_owned();
        self
    }

    /// Sets the URL at which Bitbucket describes its repositories.
    pub fn set_bitbucket_url(&mut self, value: &str) -> (r: &mut Self)
        ensures
            r@ == (ClonerView { bitbucket_url: value@, ..old(self)@ }),
            *final(self) == *final(r),
    {
        self.bitbucket_url = value.to_owned();
        self
    }

    /// Sets the directory where the clone will be done.
    ///
    /// The package will appear as a directory underneath the given path.
    pub fn set_out_dir(&mut self, value: &str) -> (r: &mut Self)
        ensures
            r@ == (ClonerView { out_dir: Some(value@), ..old(self)@ }),
            *final(self) == *final(r),
    {
        self.out_dir = Some(value.to_owned());
        self
    }

    /// The output directory, if one was set.
    pub fn out_dir(&self) -> (r: Option<&str>)
        ensures
            optional_text(r) == self@.out_dir,
    {
        borrow(&self.out_dir)
    }

    /// Settles the method and the target of a request for `method_kind`, given whether a
    /// version is asked for and which location the package declares.
    pub fn resolve_method(
        &self,
        method_kind: CloneMethodKind,
        has_version: bool,
        declared: Option<&str>,
    ) -> (r: Result<Detection, CloneError>)
        ensures
            detection_outcome(r) == resolution(
                method_kind,
                has_version,
                optional_text(declared),
                self@.bases(),
            ),
    {
        let archive = ResolvedTarget { method: TerminalMethod::Crate, location: String::new() };
        match method_kind.terminal() {
            None => {
                if has_version {
                    Ok(Detection::Resolved(archive))
                } else {
                    match declared {
                        Some(repo) => detect_repo(
                            repo,
                            self.github_url.as_str(),
                            self.gitlab_url.as_str(),
                            self.bitbucket_url.as_str(),
                        ),
                        None => Ok(Detection::Resolved(archive)),
                    }
                }
            },
            Some(TerminalMethod::Crate) => Ok(Detection::Resolved(archive)),
            Some(method) => match declared {
                None => Err(
                    CloneError::new(
                        ErrorKind::NoRepositoryDeclared,
                        "Could not find repository path in crates.io.",
                    ),
                ),
                Some(repo) => Ok(
                    Detection::Resolved(ResolvedTarget { method, location: repo.to_owned() }),
                ),
            },
        }
    }

    /// Makes up the step that obtains `target` for the package `name`.
    pub fn acquire(
        &self,
        target: &ResolvedTarget,
        name: &str,
        constraint: Option<&str>,
        extra: &[&str],
        pkg_info: &PackageInfo,
    ) -> (r: Result<Step, CloneError>)
        ensures
            step_outcome(r) == acquisition(
                self@.registry_url,
                target@,
                name@,
                optional_text(constraint),
                slice_texts(extra@),
                pkg_info@,
            ),
    {
        if let Err(e) = check_arguments(target.method, constraint, extra) {
            return Err(e);
        }
        match target.method {
            TerminalMethod::Crate => {
                let versions = match published_versions(pkg_info) {
                    Ok(versions) => versions,
                    Err(e) => {
                        return Err(e);
                    },
                };
                let index = match select_version(&versions, constraint) {
                    Ok(index) => index,
                    Err(e) => {
                        return Err(e);
                    },
                };
                let chosen = &versions[index];
                let base = crate_base(name, chosen.num.as_str());
                Ok(download_step(self.registry_url.as_str(), chosen.dl_path.as_str(), base))
            },
            _ => Ok(run_step(target, extra)),
        }
    }

    /// Says what is to be done next to clone the package that `spec` names.
    ///
    /// - `method_kind` - Method to fetch the package.
    /// - `spec` - The name of the package, with or without a version behind `:` or `@`.
    /// - `version` - The version constraint, where it is not part of `spec`.
    /// - `extra` - Additional arguments passed to the version-control program.
    /// - `replies` - The answers that have come in so far.
    pub fn clone(
        &self,
        method_kind: CloneMethodKind,
        spec: &str,
        version: Option<&str>,
        extra: &[&str],
        replies: &Replies,
    ) -> (r: Result<Step, CloneError>)
        ensures
            step_outcome(r) == plan(
                self@,
                method_kind,
                spec@,
                optional_text(version),
                slice_texts(extra@),
                replies@,
            ),
    {
        let parts = parse_spec(spec);
        let name = parts.name.as_str();
        let constraint = match read_version_request(borrow(&parts.version), version) {
            Ok(constraint) => constraint,
            Err(e) => {
                return Err(e);
            },
        };
        let reply = match &replies.registry {
            Some(reply) => reply,
            None => {
                let mut url = self.registry_url.clone();
                url.append("/api/v1/crates/");
                url.append(name);
                return Ok(Step::FetchMetadata { url });
            },
        };
        let pkg_info = match read_pkg_info(name, reply) {
            Ok(pkg_info) => pkg_info,
            Err(e) => {
                return Err(e);
            },
        };
        let declared = match get_repo(&pkg_info) {
            Ok(declared) => declared,
            Err(e) => {
                return Err(e);
            },
        };
        let resolved = match self.resolve_method(
            method_kind,
            constraint.is_some(),
            borrow(&declared),
        ) {
            Ok(resolved) => resolved,
            Err(e) => {
                return Err(e);
            },
        };
        let target = match resolved {
            Detection::Resolved(target) => target,
            Detection::AskBitbucket { url } => match &replies.hosting {
                None => {
                    return Ok(Step::QueryHosting { url });
                },
                Some(answer) => match bitbucket(url.as_str(), answer) {
                    Ok(target) => target,
                    Err(e) => {
                        return Err(e);
                    },
                },
            },
        };
        self.acquire(&target, name, borrow(&constraint), extra, &pkg_info)
    }
}

/// Says what is to be done next to clone a package, for a cloner that talks to the public
/// services.
///
/// - `method_name` - Method to fetch the package: one of `crate`, `git`, `hg`, `mercurial`,
///   `pijul`, `fossil` and `auto`.
/// - `spec` - The name of the package, with or without a version behind `:` or `@`.
/// - `version` - The version constraint, where it is not part of `spec`.
/// - `extra` - Additional arguments passed to the version-control program.
/// - `replies` - The answers that have come in so far.
pub fn clone(
    method_name: &str,
    spec: &str,
    version: Option<&str>,
    extra: &[&str],
    replies: &Replies,
) -> (r: Result<Step, CloneError>)
    requires
        CloneMethodKind::from_text(method_name@) is Some,
    ensures
        step_outcome(r) == plan(
            ClonerView::public_services(),
            CloneMethodKind::from_text(method_name@)->0,
            spec@,
            optional_text(version),
            slice_texts(extra@),
            replies@,
        ),
{
    let method_kind = CloneMethodKind::from(method_name).unwrap();
    Cloner::new().clone(method_kind, spec, version, extra, replies)
}

/// A request that gives a version both in the specifier and beside it fails as an invalid
/// specifier, whatever the two versions are, whatever else is asked, and whatever answers
/// are there.
pub proof fn lemma_version_given_twice(
    cloner: ClonerView,
    method: CloneMethodKind,
    spec: Seq<char>,
    version: Seq<char>,
    extra: Seq<Seq<char>>,
    replies: RepliesView,
)
    requires
        exists|i: int| 0 <= i < spec.len() && is_separator(#[trigger] spec[i]),
    ensures
        plan(cloner, method, spec, Some(version), extra, replies) == Err::<StepView, ErrorView>(
            both_versions(),
        ),
        both_versions().kind == ErrorKind::InvalidSpec,
{
    lemma_spec_version_iff_separator(spec);
}

/// A request for a repository method with a version constraint fails, once the registry has
/// answered: where the package declares a location, because the version is not supported for
/// the method; where it declares none, because no repository is declared.
pub proof fn lemma_version_with_repository_method(
    cloner: ClonerView,
    method: CloneMethodKind,
    spec: Seq<char>,
    version: Option<Seq<char>>,
    extra: Seq<Seq<char>>,
    replies: RepliesView,
)
    requires
        method.is_repository_method(),
        version_request(spec_version(spec), version) matches Ok(Some(_)),
        replies.registry matches Some(reply) && pkg_info_of(
            spec_name(spec),
            reply.status,
            reply.body,
        ) matches Ok(doc) && declared_location(doc) is Ok,
    ensures
        ({
            let constraint = version_request(spec_version(spec), version)->Ok_0->0;
            let reply = replies.registry->0;
            let doc = pkg_info_of(spec_name(spec), reply.status, reply.body)->Ok_0;
            plan(cloner, method, spec, version, extra, replies) == Err::<StepView, ErrorView>(
                if declared_location(doc)->Ok_0 is Some {
                    version_with_method(constraint)
                } else {
                    no_repository()
                },
            )
        }),
        version_with_method(
            version_request(spec_version(spec), version)->Ok_0->0,
        ).kind == ErrorKind::VersionNotSupportedForMethod,
        no_repository().kind == ErrorKind::NoRepositoryDeclared,
{
}

/// No answer is asked for twice, and nothing is obtained before the registry has answered:
/// without the registry's answer a request fails or asks the registry, with it the request
/// never asks the registry again, and with the hosting service's answer it never asks the
/// hosting service again. Whoever follows the steps is done after three of them.
pub proof fn lemma_answers_are_asked_for_once(
    cloner: ClonerView,
    method: CloneMethodKind,
    spec: Seq<char>,
    version: Option<Seq<char>>,
    extra: Seq<Seq<char>>,
    replies: RepliesView,
)
    ensures
        replies.registry is None ==> plan(cloner, method, spec, version, extra, replies) is Err
            || plan(cloner, method, spec, version, extra, replies)->Ok_0 is FetchMetadata,
        replies.registry is Some ==> !(plan(cloner, method, spec, version, extra, replies) is Ok
            && plan(cloner, method, spec, version, extra, replies)->Ok_0 is FetchMetadata),
        replies.hosting is Some ==> !(plan(cloner, method, spec, version, extra, replies) is Ok
            && plan(cloner, method, spec, version, extra, replies)->Ok_0 is QueryHosting),
{
}

/// The hosting service is asked only for `Auto`, and only where no version is asked for.
pub proof fn lemma_hosting_is_asked_for_auto_only(
    cloner: ClonerView,
    method: CloneMethodKind,
    spec: Seq<char>,
    version: Option<Seq<char>>,
    extra: Seq<Seq<char>>,
    replies: RepliesView,
)
    requires
        plan(cloner, method, spec, version, extra, replies) is Ok,
        plan(cloner, method, spec, version, extra, replies)->Ok_0 is QueryHosting,
    ensures
        method == CloneMethodKind::Auto,
        version_request(spec_version(spec), version) == Ok::<Option<Seq<char>>, ErrorView>(None),
{
}

/// A program that is run is the program of a repository method, and it is run with `clone`,
/// the location and the extra arguments, in this order.
pub proof fn lemma_programs_that_run(
    cloner: ClonerView,
    method: CloneMethodKind,
    spec: Seq<char>,
    version: Option<Seq<char>>,
    extra: Seq<Seq<char>>,
    replies: RepliesView,
)
    requires
        plan(cloner, method, spec, version, extra, replies) is Ok,
        plan(cloner, method, spec, version, extra, replies)->Ok_0 is RunTool,
    ensures
        ({
            let program = plan(cloner, method, spec, version, extra, replies)->Ok_0->program;
            let args = plan(cloner, method, spec, version, extra, replies)->Ok_0->args;
            &&& program == "git"@ || program == "hg"@ || program == "pijul"@ || program
                == "fossil"@
            &&& method != CloneMethodKind::Auto ==> program == method.command_text()
            &&& args.len() == 2 + extra.len()
            &&& args[0] == "clone"@
            &&& args.skip(2) == extra
        }),
{
}

} // verus!
