//! What Bitbucket says of a repository: the system it is kept in, and where it is cloned from.
//!
//! An answer's body is read once, into a `HostingInfo` that holds what is read from it as
//! plain values. Whatever is missing in the document is missing there; it is a failure only
//! where it is needed.

use crate::error::{failure, failure_about, text_outcome, CloneError, ErrorKind, ErrorView};
use crate::json::{
    as_list, get_text, json_model, json_parse, member, models, parse_value, text_member,
    value_items, value_member, Json,
};
use crate::method::{ResolvedTarget, TargetView, TerminalMethod};
use crate::registry::HttpReply;
use crate::text::{decimal, decimal_text, optional_string_text, owned, same_text};
use vstd::prelude::*;

verus! {

/// A clone link: the texts under `name` and under `href`, where there are such.
#[derive(Debug, Clone, PartialEq, Eq)]
pub struct CloneLink {
    pub name: Option<String>,
    pub href: Option<String>,
}

/// What is read from an answer of Bitbucket: the text under `scm`, and the list under `clone`
/// in the member `links`, where there are such.
#[derive(Debug, Clone, PartialEq, Eq)]
pub struct HostingInfo {
    pub scm: Option<String>,
    pub clone_links: Option<Vec<CloneLink>>,
}

/// A `CloneLink` as a mathematical value.
pub ghost struct LinkView {
    pub name: Option<Seq<char>>,
    pub href: Option<Seq<char>>,
}

/// A `HostingInfo` as a mathematical value.
pub ghost struct HostingView {
    pub scm: Option<Seq<char>>,
    pub clone_links: Option<Seq<LinkView>>,
}

impl View for CloneLink {
    type V = LinkView;

    open spec fn view(&self) -> LinkView {
        LinkView {
            name: optional_string_text(self.name),
            href: optional_string_text(self.href),
        }
    }
}

/// The links of a list as mathematical values.
pub open spec fn link_views(links: Seq<CloneLink>) -> Seq<LinkView> {
    Seq::new(links.len(), |i: int| links[i]@)
}

impl View for HostingInfo {
    type V = HostingView;

    open spec fn view(&self) -> HostingView {
        HostingView {
            scm: optional_string_text(self.scm),
            clone_links: match self.clone_links {
                Some(links) => Some(link_views(links@)),
                None => None,
            },
        }
    }
}

/// The clone link that the document `doc` is.
pub open spec fn link_of(doc: Json) -> LinkView {
    LinkView { name: text_member(doc, "name"@), href: text_member(doc, "href"@) }
}

/// The clone links that the documents `docs` are.
pub open spec fn links_of(docs: Seq<Json>) -> Seq<LinkView> {
    Seq::new(docs.len(), |i: int| link_of(docs[i]))
}

/// What is read from the answer `doc`.
pub open spec fn hosting_of(doc: Json) -> HostingView {
    HostingView {
        scm: text_member(doc, "scm"@),
        clone_links: match member(doc, "links"@) {
            None => None,
            Some(links) => match member(links, "clone"@) {
                None => None,
                Some(clone) => match as_list(clone) {
                    Some(docs) => Some(links_of(docs)),
                    None => None,
                },
            },
        },
    }
}

/// What is read from the text `body`, where it is a document.
pub open spec fn parsed_hosting(body: Seq<char>) -> Option<HostingView> {
    match json_parse(body) {
        Some(doc) => Some(hosting_of(doc)),
        None => None,
    }
}

/// Reads from an answer of Bitbucket what is read from such.
fn read_hosting(doc: &serde_json::Value) -> (r: HostingInfo)
    ensures
        r@ == hosting_of(json_model(*doc)),
{
    let listed = match value_member(doc, "links") {
        None => None,
        Some(links) => match value_member(links, "clone") {
            None => None,
            Some(clone) => value_items(clone),
        },
    };
    let clone_links = match listed {
        None => None,
        Some(listed) => {
            let ghost docs = models(listed@);
            let mut links: Vec<CloneLink> = Vec::new();
            let mut k: usize = 0;
            while k < listed.len()
                invariant
                    k <= listed.len(),
                    docs == models(listed@),
                    links@.len() == k,
                    forall|j: int| 0 <= j < k ==> (#[trigger] links@[j])@ == link_of(docs[j]),
                decreases listed.len() - k,
            {
                let doc = &listed[k];
                links.push(
                    CloneLink {
                        name: owned(get_text(doc, "name")),
                        href: owned(get_text(doc, "href")),
                    },
                );
                k += 1;
            }
            assert(link_views(links@) =~= links_of(docs));
            Some(links)
        },
    };
    HostingInfo { scm: owned(get_text(doc, "scm")), clone_links }
}

/// The method for the system that Bitbucket names: git for `git`, hg for `hg`.
pub open spec fn scm_method(scm: Seq<char>) -> Option<TerminalMethod> {
    if scm == "git"@ {
        Some(TerminalMethod::Git)
    } else if scm == "hg"@ {
        Some(TerminalMethod::Mercurial)
    } else {
        None
    }
}

/// The failure for a request that Bitbucket answers at `url` with the status `status`.
pub open spec fn hosting_status(url: Seq<char>, status: u16) -> ErrorView {
    failure(
        ErrorKind::HostingApiError,
        "Failed to get repo info from bitbucket API `"@ + url + "`: `"@ + decimal_text(
            status as nat,
        ) + "`"@,
    )
}

/// The failure for an answer of Bitbucket that lacks something; `message` says what.
pub open spec fn malformed(message: Seq<char>) -> ErrorView {
    failure(ErrorKind::MalformedHostingResponse, message)
}

/// The failure for a system that Bitbucket names and that is not supported.
pub open spec fn unsupported_scm(scm: Seq<char>) -> ErrorView {
    failure_about(ErrorKind::UnsupportedScm, "Unexpected bitbucket scm: `"@, scm, "`"@)
}

/// The location in the first of the links `links[from..]` that is named `https`. Every link up
/// to that one must have a name, and that one a location.
pub open spec fn https_link(links: Seq<LinkView>, from: int) -> Result<Seq<char>, ErrorView>
    decreases links.len() - from,
{
    if from < 0 || from >= links.len() {
        Err(malformed("Could not find `https` clone in bitbucket."@))
    } else {
        match links[from].name {
            None => Err(malformed("Could not get clone `name` from bitbucket."@)),
            Some(name) => if name == "https"@ {
                match links[from].href {
                    None => Err(malformed("Could not get clone `href` from bitbucket."@)),
                    Some(href) => Ok(href),
                }
            } else {
                https_link(links, from + 1)
            },
        }
    }
}

/// The target that an answer of Bitbucket describes: the method for the system that it names,
/// and the location of the clone link named `https`. The system is judged before the links
/// are looked at.
pub open spec fn described_target(info: HostingView) -> Result<TargetView, ErrorView> {
    match info.scm {
        None => Err(malformed("Could not get `scm` from bitbucket."@)),
        Some(scm) => match scm_method(scm) {
            None => Err(unsupported_scm(scm)),
            Some(method) => match info.clone_links {
                None => Err(malformed("Could not get `clone` from bitbucket."@)),
                Some(links) => match https_link(links, 0) {
                    Err(e) => Err(e),
                    Ok(location) => Ok(TargetView { method, location }),
                },
            },
        },
    }
}

/// The target in an answer that Bitbucket gave at `url`, where `parsed` is what was read from
/// its body, if that is a document. A status outside 200 to 299 is a failure of the service.
pub open spec fn target_given(url: Seq<char>, status: u16, parsed: Option<HostingView>) -> Result<
    TargetView,
    ErrorView,
> {
    if !(200 <= status <= 299) {
        Err(hosting_status(url, status))
    } else {
        match parsed {
            None => Err(malformed("Failed to convert to bitbucket json."@)),
            Some(info) => described_target(info),
        }
    }
}

/// The target in the reply that Bitbucket gave at `url`.
pub open spec fn bitbucket_target(url: Seq<char>, status: u16, body: Seq<char>) -> Result<
    TargetView,
    ErrorView,
> {
    target_given(url, status, parsed_hosting(body))
}

/// The outcome of a step that gives a target or fails, as a mathematical value.
pub open spec fn target_outcome(r: Result<ResolvedTarget, CloneError>) -> Result<
    TargetView,
    ErrorView,
> {
    match r {
        Ok(target) => Ok(target@),
        Err(e) => Err(e@),
    }
}

/// What was read from a body, as a mathematical value.
pub open spec fn parsed_view(parsed: Option<HostingInfo>) -> Option<HostingView> {
    match parsed {
        Some(info) => Some(info@),
        None => None,
    }
}

/// Finds the location of the first clone link named `https`.
pub fn find_https_link(links: &Vec<CloneLink>) -> (r: Result<String, CloneError>)
    ensures
        text_outcome(r) == https_link(link_views(links@), 0),
{
    let ghost views = link_views(links@);
    let mut k: usize = 0;
    while k < links.len()
        invariant
            k <= links.len(),
            views == link_views(links@),
            https_link(views, 0) == https_link(views, k as int),
        decreases links.len() - k,
    {
        let link = &links[k];
        match &link.name {
            None => {
                return Err(
                    CloneError::new(
                        ErrorKind::MalformedHostingResponse,
                        "Could not get clone `name` from bitbucket.",
                    ),
                );
            },
            Some(name) => {
                if same_text(name.as_str(), "https") {
                    return match &link.href {
                        None => Err(
                            CloneError::new(
                                ErrorKind::MalformedHostingResponse,
                                "Could not get clone `href` from bitbucket.",
                            ),
                        ),
                        Some(href) => Ok(href.clone()),
                    };
                }
            },
        }
        k += 1;
    }
    Err(
        CloneError::new(
            ErrorKind::MalformedHostingResponse,
            "Could not find `https` clone in bitbucket.",
        ),
    )
}

/// Tells from what Bitbucket says of a repository how it is cloned, and from where.
pub fn describe_target(info: &HostingInfo) -> (r: Result<ResolvedTarget, CloneError>)
    ensures
        target_outcome(r) == described_target(info@),
{
    let scm = match &info.scm {
        Some(scm) => scm.as_str(),
        None => {
            return Err(
                CloneError::new(
                    ErrorKind::MalformedHostingResponse,
                    "Could not get `scm` from bitbucket.",
                ),
            );
        },
    };
    let method = if same_text(scm, "git") {
        TerminalMethod::Git
    } else if same_text(scm, "hg") {
        TerminalMethod::Mercurial
    } else {
        return Err(
            CloneError::about(ErrorKind::UnsupportedScm, "Unexpected bitbucket scm: `", scm, "`"),
        );
    };
    match &info.clone_links {
        None => Err(
            CloneError::new(
                ErrorKind::MalformedHostingResponse,
                "Could not get `clone` from bitbucket.",
            ),
        ),
        Some(links) => match find_https_link(links) {
            Err(e) => Err(e),
            Ok(location) => Ok(ResolvedTarget { method, location }),
        },
    }
}

/// Judges an answer that Bitbucket gave at `url` by its status, and tells from it how the
/// repository is cloned. `parsed` is what was read from the body, or `None` where the body is
/// no document.
pub fn target_from(url: &str, status: u16, parsed: Option<HostingInfo>) -> (r: Result<
    ResolvedTarget,
    CloneError,
>)
    ensures
        target_outcome(r) == target_given(url@, status, parsed_view(parsed)),
{
    if !(200 <= status && status <= 299) {
        let code = decimal(status);
        let mut message = "Failed to get repo info from bitbucket API `".to_owned();
        message.append(url);
        message.append("`: `");
        message.append(code.as_str());
        message.append("`");
        return Err(CloneError { kind: ErrorKind::HostingApiError, message });
    }
    match parsed {
        None => Err(
            CloneError::new(
                ErrorKind::MalformedHostingResponse,
                "Failed to convert to bitbucket json.",
            ),
        ),
        Some(info) => describe_target(&info),
    }
}

/// Reads from the reply that Bitbucket gave at `url` how the repository is cloned, and from
/// where.
pub fn bitbucket(url: &str, reply: &HttpReply) -> (r: Result<ResolvedTarget, CloneError>)
    ensures
        target_outcome(r) == bitbucket_target(url@, reply.status, reply.body@),
{
    let parsed = if 200 <= reply.status && reply.status <= 299 {
        match parse_value(reply.body.as_str()) {
            Ok(doc) => Some(read_hosting(&doc)),
            Err(_) => None,
        }
    } else {
        None
    };
    target_from(url, reply.status, parsed)
}

} // verus!
