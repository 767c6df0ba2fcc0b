//! Which version-control system a declared location belongs to.
//!
//! The system is told from the shape of the location. Where the shape leaves it open, as it
//! does at Bitbucket, the hosting service has to be asked.

use crate::error::{failure_about, CloneError, ErrorKind, ErrorView};
use crate::location::{
    find_hosted_path, host_texts, hosted_path, is_distinct_host, is_well_formed,
    lemma_written_location_is_read, written_location, RepoPath, Span,
};
use crate::method::{ResolvedTarget, TargetView, TerminalMethod};
use crate::text::{chars_of, ends_with, occurs, starts_with};
use vstd::prelude::*;

verus! {

/// What the shape of a location tells: the target, or that Bitbucket has to be asked at `url`
/// which system the repository is kept in.
#[derive(Debug, Clone, PartialEq, Eq)]
pub enum Detection {
    Resolved(ResolvedTarget),
    AskBitbucket { url: String },
}

/// A detection as a mathematical value.
pub ghost enum DetectionView {
    Resolved(TargetView),
    AskBitbucket { url: Seq<char> },
}

impl View for Detection {
    type V = DetectionView;

    open spec fn view(&self) -> DetectionView {
        match self {
            Detection::Resolved(target) => DetectionView::Resolved(target@),
            Detection::AskBitbucket { url } => DetectionView::AskBitbucket { url: url@ },
        }
    }
}

/// The bases from which the locations of the hosting services are written.
pub ghost struct Bases {
    pub github: Seq<char>,
    pub gitlab: Seq<char>,
    pub bitbucket: Seq<char>,
}

/// The bases `github`, `gitlab` and `bitbucket`.
pub open spec fn bases_of(github: Seq<char>, gitlab: Seq<char>, bitbucket: Seq<char>) -> Bases {
    Bases { github, gitlab, bitbucket }
}

/// The hosts of GitHub.
pub open spec fn github_hosts() -> Seq<Seq<char>> {
    seq!["github.com/"@]
}

/// The hosts of GitLab.
pub open spec fn gitlab_hosts() -> Seq<Seq<char>> {
    seq!["gitlab.com/"@]
}

/// The hosts of Bitbucket.
pub open spec fn bitbucket_hosts() -> Seq<Seq<char>> {
    seq!["bitbucket.org/"@, "bitbucket.com/"@]
}

/// The location from which git clones the repository `path` of the service at `base`.
pub open spec fn git_location(base: Seq<char>, path: RepoPath) -> Seq<char> {
    base + "/"@ + path.owner + "/"@ + path.name + ".git"@
}

/// Where the service at `base` describes the repository `path`.
pub open spec fn api_location(base: Seq<char>, path: RepoPath) -> Seq<char> {
    base + "/"@ + path.owner + "/"@ + path.name
}

/// A target that is cloned with git from `location`.
pub open spec fn git_target(location: Seq<char>) -> DetectionView {
    DetectionView::Resolved(TargetView { method: TerminalMethod::Git, location })
}

/// The failure for a location of no known shape.
pub open spec fn unknown_vcs(repo: Seq<char>) -> ErrorView {
    failure_about(
        ErrorKind::UnknownVcs,
        "Could not determine the VCS from repo `"@,
        repo,
        "`, use the `--method` option to specify how to download."@,
    )
}

/// What the shape of the location `repo` tells. The rules are tried in this order: a location
/// that ends in `.git` is cloned with git as it stands; a location at GitHub or at GitLab is
/// cloned with git from the service's base; for a location at Bitbucket the service has to be
/// asked; a location at the Pijul nest is cloned with pijul as it stands; any other is unknown.
pub open spec fn detection(repo: Seq<char>, bases: Bases) -> Result<DetectionView, ErrorView> {
    if ends_with(repo, ".git"@) {
        Ok(git_target(repo))
    } else if hosted_path(repo, github_hosts()) is Some {
        Ok(git_target(git_location(bases.github, hosted_path(repo, github_hosts())->0)))
    } else if hosted_path(repo, gitlab_hosts()) is Some {
        Ok(git_target(git_location(bases.gitlab, hosted_path(repo, gitlab_hosts())->0)))
    } else if hosted_path(repo, bitbucket_hosts()) is Some {
        Ok(
            DetectionView::AskBitbucket {
                url: api_location(bases.bitbucket, hosted_path(repo, bitbucket_hosts())->0),
            },
        )
    } else if starts_with(repo, "https://nest.pijul.com/"@) {
        Ok(DetectionView::Resolved(TargetView { method: TerminalMethod::Pijul, location: repo }))
    } else {
        Err(unknown_vcs(repo))
    }
}

/// A location that ends in `.git` is cloned with git from that location, whatever else it
/// looks like.
pub proof fn lemma_git_suffix_is_kept(repo: Seq<char>, bases: Bases)
    requires
        ends_with(repo, ".git"@),
    ensures
        detection(repo, bases) == Ok::<DetectionView, ErrorView>(git_target(repo)),
        git_target(repo)->Resolved_0.method == TerminalMethod::Git,
        git_target(repo)->Resolved_0.location == repo,
{
}

/// A location at GitHub that is written in full, and does not end in `.git`, is cloned with
/// git from the base for GitHub, the owner, the name and `.git`.
pub proof fn lemma_github_location_is_rewritten(
    secure: bool,
    www: bool,
    path: RepoPath,
    rest: Seq<char>,
    bases: Bases,
)
    requires
        is_well_formed(path),
        rest.len() > 0 ==> rest[0] == '/',
        !ends_with(written_location(secure, www, "github.com/"@, path, rest), ".git"@),
    ensures
        detection(written_location(secure, www, "github.com/"@, path, rest), bases) == Ok::<
            DetectionView,
            ErrorView,
        >(git_target(bases.github + "/"@ + path.owner + "/"@ + path.name + ".git"@)),
{
    lemma_hosts_are_distinct();
    lemma_written_location_is_read(secure, www, github_hosts(), 0, path, rest);
}

/// The hosts of the three services can be told apart, and none of them from `www.`: what the
/// laws on written locations ask of a list of hosts holds of each of the three lists.
pub proof fn lemma_hosts_are_distinct()
    ensures
        is_distinct_host(github_hosts(), 0),
        is_distinct_host(gitlab_hosts(), 0),
        is_distinct_host(bitbucket_hosts(), 0),
        is_distinct_host(bitbucket_hosts(), 1),
{
    reveal_strlit("github.com/");
    reveal_strlit("gitlab.com/");
    reveal_strlit("bitbucket.org/");
    reveal_strlit("bitbucket.com/");
    assert("bitbucket.org/"@[10] != "bitbucket.com/"@[10]);
}

/// The outcome of a detection as a mathematical value.
pub open spec fn detection_outcome(r: Result<Detection, CloneError>) -> Result<
    DetectionView,
    ErrorView,
> {
    match r {
        Ok(found) => Ok(found@),
        Err(e) => Err(e@),
    }
}

/// Writes `base`, `/`, the owner, `/` and the name that stand in `repo` at `span`.
fn write_api_location(base: &str, repo: &str, span: Span) -> (out: String)
    requires
        span.within(repo@),
    ensures
        out@ == api_location(base@, span.cut(repo@)),
{
    let mut out = base.to_owned();
    out.append("/");
    out.append(repo.substring_char(span.owner_start, span.owner_end));
    out.append("/");
    out.append(repo.substring_char(span.name_start, span.name_end));
    out
}

/// Decides from the shape of the location `repo` how it is cloned. The bases are those from
/// which the locations of GitHub, GitLab and Bitbucket are written.
pub fn detect_repo(repo: &str, github_url: &str, gitlab_url: &str, bitbucket_url: &str) -> (r:
    Result<Detection, CloneError>)
    ensures
        detection_outcome(r) == detection(repo@, bases_of(github_url@, gitlab_url@, bitbucket_url@)),
{
    let text = chars_of(repo);
    let suffix = chars_of(".git");
    if suffix.len() <= text.len() && occurs(&text, text.len() - suffix.len(), &suffix) {
        return Ok(
            Detection::Resolved(
                ResolvedTarget { method: TerminalMethod::Git, location: repo.to_owned() },
            ),
        );
    }
    let mut github: Vec<Vec<char>> = Vec::new();
    github.push(chars_of("github.com/"));
    assert(host_texts(github@) =~= github_hosts());
    if let Some(span) = find_hosted_path(&text, &github) {
        let mut location = write_api_location(github_url, repo, span);
        location.append(".git");
        return Ok(Detection::Resolved(ResolvedTarget { method: TerminalMethod::Git, location }));
    }
    let mut gitlab: Vec<Vec<char>> = Vec::new();
    gitlab.push(chars_of("gitlab.com/"));
    assert(host_texts(gitlab@) =~= gitlab_hosts());
    if let Some(span) = find_hosted_path(&text, &gitlab) {
        let mut location = write_api_location(gitlab_url, repo, span);
        location.append(".git");
        return Ok(Detection::Resolved(ResolvedTarget { method: TerminalMethod::Git, location }));
    }
    let mut bitbucket: Vec<Vec<char>> = Vec::new();
    bitbucket.push(chars_of("bitbucket.org/"));
    bitbucket.push(chars_of("bitbucket.com/"));
    assert(host_texts(bitbucket@) =~= bitbucket_hosts());
    if let Some(span) = find_hosted_path(&text, &bitbucket) {
        let url = write_api_location(bitbucket_url, repo, span);
        return Ok(Detection::AskBitbucket { url });
    }
    let nest = chars_of("https://nest.pijul.com/");
    if occurs(&text, 0, &nest) {
        return Ok(
            Detection::Resolved(
                ResolvedTarget { method: TerminalMethod::Pijul, location: repo.to_owned() },
            ),
        );
    }
    Err(
        CloneError::about(
            ErrorKind::UnknownVcs,
            "Could not determine the VCS from repo `",
            repo,
            "`, use the `--method` option to specify how to download.",
        ),
    )
}

} // verus!
