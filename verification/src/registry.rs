//! What the registry says of a package: the reply to a metadata request, the location that the
//! package declares, and the versions that it lists.
//!
//! A reply's body is read once, into a `PackageInfo` that holds what is read from it as plain
//! values. Whatever is missing in the document is missing there; it is a failure only where
//! it is needed.

use crate::error::{failure, failure_about, CloneError, ErrorKind, ErrorView};
use crate::json::{
    as_list, get_text, json_model, json_parse, member, models, parse_value, text_member,
    value_items, value_member, Json,
};
use crate::text::{decimal, decimal_text, optional_string_text, owned};
use crate::version::{listings, Listing, PublishedVersion};
use vstd::prelude::*;

verus! {

/// An answer to a request over HTTP: the status code and the body.
#[derive(Debug, Clone, PartialEq, Eq)]
pub struct HttpReply {
    pub status: u16,
    pub body: String,
}

/// An answer as a mathematical value.
pub ghost struct ReplyView {
    pub status: u16,
    pub body: Seq<char>,
}

impl View for HttpReply {
    type V = ReplyView;

    open spec fn view(&self) -> ReplyView {
        ReplyView { status: self.status, body: self.body@ }
    }
}

/// What a metadata document says of the package itself: the texts under `repository` and
/// under `homepage`, where there are such.
#[derive(Debug, Clone, PartialEq, Eq)]
pub struct CrateInfo {
    pub repository: Option<String>,
    pub homepage: Option<String>,
}

/// What a metadata document says of one version: the texts under `num` and under `dl_path`,
/// where there are such.
#[derive(Debug, Clone, PartialEq, Eq)]
pub struct VersionEntry {
    pub num: Option<String>,
    pub dl_path: Option<String>,
}

/// What is read from a metadata document: its `crate` member, and the list under `versions`,
/// where there are such.
#[derive(Debug, Clone, PartialEq, Eq)]
pub struct PackageInfo {
    pub krate: Option<CrateInfo>,
    pub versions: Option<Vec<VersionEntry>>,
}

/// A `CrateInfo` as a mathematical value.
pub ghost struct CrateView {
    pub repository: Option<Seq<char>>,
    pub homepage: Option<Seq<char>>,
}

/// A `VersionEntry` as a mathematical value.
pub ghost struct EntryView {
    pub num: Option<Seq<char>>,
    pub dl_path: Option<Seq<char>>,
}

/// A `PackageInfo` as a mathematical value.
pub ghost struct PackageView {
    pub krate: Option<CrateView>,
    pub versions: Option<Seq<EntryView>>,
}

impl View for CrateInfo {
    type V = CrateView;

    open spec fn view(&self) -> CrateView {
        CrateView {
            repository: optional_string_text(self.repository),
            homepage: optional_string_text(self.homepage),
        }
    }
}

impl View for VersionEntry {
    type V = EntryView;

    open spec fn view(&self) -> EntryView {
        EntryView {
            num: optional_string_text(self.num),
            dl_path: optional_string_text(self.dl_path),
        }
    }
}

/// The entries of a list as mathematical values.
pub open spec fn entry_views(entries: Seq<VersionEntry>) -> Seq<EntryView> {
    Seq::new(entries.len(), |i: int| entries[i]@)
}

impl View for PackageInfo {
    type V = PackageView;

    open spec fn view(&self) -> PackageView {
        PackageView {
            krate: match self.krate {
                Some(krate) => Some(krate@),
                None => None,
            },
            versions: match self.versions {
                Some(entries) => Some(entry_views(entries@)),
                None => None,
            },
        }
    }
}

/// What the document `doc` says of one version.
pub open spec fn entry_of(doc: Json) -> EntryView {
    EntryView { num: text_member(doc, "num"@), dl_path: text_member(doc, "dl_path"@) }
}

/// What the documents `docs` say, each of one version.
pub open spec fn entries_of(docs: Seq<Json>) -> Seq<EntryView> {
    Seq::new(docs.len(), |i: int| entry_of(docs[i]))
}

/// What the document `doc` says of the package itself.
pub open spec fn crate_of(doc: Json) -> CrateView {
    CrateView {
        repository: text_member(doc, "repository"@),
        homepage: text_member(doc, "homepage"@),
    }
}

/// What is read from the metadata document `doc`.
pub open spec fn package_of(doc: Json) -> PackageView {
    PackageView {
        krate: match member(doc, "crate"@) {
            Some(krate) => Some(crate_of(krate)),
            None => None,
        },
        versions: match member(doc, "versions"@) {
            Some(inner) => match as_list(inner) {
                Some(docs) => Some(entries_of(docs)),
                None => None,
            },
            None => None,
        },
    }
}

/// What is read from the text `body`, where it is a document.
pub open spec fn parsed_package(body: Seq<char>) -> Option<PackageView> {
    match json_parse(body) {
        Some(doc) => Some(package_of(doc)),
        None => None,
    }
}

/// Reads from a document what it says of one version.
fn read_entry(doc: &serde_json::Value) -> (r: VersionEntry)
    ensures
        r@ == entry_of(json_model(*doc)),
{
    VersionEntry { num: owned(get_text(doc, "num")), dl_path: owned(get_text(doc, "dl_path")) }
}

/// Reads from a metadata document what is read from such.
fn read_package(doc: &serde_json::Value) -> (r: PackageInfo)
    ensures
        r@ == package_of(json_model(*doc)),
{
    let krate = match value_member(doc, "crate") {
        None => None,
        Some(krate) => Some(
            CrateInfo {
                repository: owned(get_text(krate, "repository")),
                homepage: owned(get_text(krate, "homepage")),
            },
        ),
    };
    let listed = match value_member(doc, "versions") {
        None => None,
        Some(inner) => value_items(inner),
    };
    let versions = match listed {
        None => None,
        Some(listed) => {
            let ghost docs = models(listed@);
            let mut entries: Vec<VersionEntry> = Vec::new();
            let mut k: usize = 0;
            while k < listed.len()
                invariant
                    k <= listed.len(),
                    docs == models(listed@),
                    entries@.len() == k,
                    forall|j: int| 0 <= j < k ==> (#[trigger] entries@[j])@ == entry_of(docs[j]),
                decreases listed.len() - k,
            {
                let entry = read_entry(&listed[k]);
                entries.push(entry);
                k += 1;
            }
            assert(entry_views(entries@) =~= entries_of(docs));
            Some(entries)
        },
    };
    PackageInfo { krate, versions }
}

/// Where the registry at `registry` gives the metadata of the package `name`.
pub open spec fn metadata_url(registry: Seq<char>, name: Seq<char>) -> Seq<char> {
    registry + "/api/v1/crates/"@ + name
}

/// The failure for a package that the registry does not know.
pub open spec fn package_not_found(name: Seq<char>) -> ErrorView {
    failure_about(ErrorKind::PackageNotFound, "Package `"@, name, "` not found on crates.io."@)
}

/// The failure for a metadata request that the registry answers with the status `status`.
pub open spec fn registry_status(status: u16) -> ErrorView {
    failure_about(
        ErrorKind::RegistryError,
        "Failed to get package info from crates.io: `"@,
        decimal_text(status as nat),
        "`"@,
    )
}

/// The failure for a metadata body that is no JSON document.
pub open spec fn metadata_unreadable() -> ErrorView {
    failure(ErrorKind::RegistryError, "Failed to convert to json."@)
}

/// What a reply for the package `name` gives, where `parsed` is what was read from its body,
/// if that is a document. Status 200 carries the metadata, 404 says that there is no such
/// package, any other status is a failure of the registry.
pub open spec fn pkg_info_given(name: Seq<char>, status: u16, parsed: Option<PackageView>) -> Result<
    PackageView,
    ErrorView,
> {
    if status == 200 {
        match parsed {
            Some(info) => Ok(info),
            None => Err(metadata_unreadable()),
        }
    } else if status == 404 {
        Err(package_not_found(name))
    } else {
        Err(registry_status(status))
    }
}

/// What a reply with the body `body` gives for the package `name`.
pub open spec fn pkg_info_of(name: Seq<char>, status: u16, body: Seq<char>) -> Result<
    PackageView,
    ErrorView,
> {
    pkg_info_given(name, status, parsed_package(body))
}

/// The outcome of reading a reply, as a mathematical value.
pub open spec fn pkg_info_outcome(r: Result<PackageInfo, CloneError>) -> Result<
    PackageView,
    ErrorView,
> {
    match r {
        Ok(info) => Ok(info@),
        Err(e) => Err(e@),
    }
}

/// What was read from a body, as a mathematical value.
pub open spec fn parsed_view(parsed: Option<PackageInfo>) -> Option<PackageView> {
    match parsed {
        Some(info) => Some(info@),
        None => None,
    }
}

/// Judges a reply for the package `name` by its status. `parsed` is what was read from the
/// body, or `None` where the body is no document.
pub fn pkg_info_from(name: &str, status: u16, parsed: Option<PackageInfo>) -> (r: Result<
    PackageInfo,
    CloneError,
>)
    ensures
        pkg_info_outcome(r) == pkg_info_given(name@, status, parsed_view(parsed)),
{
    if status == 200 {
        match parsed {
            Some(info) => Ok(info),
            None => Err(CloneError::new(ErrorKind::RegistryError, "Failed to convert to json.")),
        }
    } else if status == 404 {
        Err(
            CloneError::about(
                ErrorKind::PackageNotFound,
                "Package `",
                name,
                "` not found on crates.io.",
            ),
        )
    } else {
        let code = decimal(status);
        Err(
            CloneError::about(
                ErrorKind::RegistryError,
                "Failed to get package info from crates.io: `",
                code.as_str(),
                "`",
            ),
        )
    }
}

/// Reads the metadata of the package `name` from the registry's reply.
pub fn read_pkg_info(name: &str, reply: &HttpReply) -> (r: Result<PackageInfo, CloneError>)
    ensures
        pkg_info_outcome(r) == pkg_info_of(name@, reply.status, reply.body@),
{
    let parsed = if reply.status == 200 {
        match parse_value(reply.body.as_str()) {
            Ok(doc) => Some(read_package(&doc)),
            Err(_) => None,
        }
    } else {
        None
    };
    pkg_info_from(name, reply.status, parsed)
}

/// The failure for a metadata document without a `crate` member.
pub open spec fn crate_expected() -> ErrorView {
    failure(ErrorKind::RegistryError, "`crate` expected in pkg info"@)
}

/// The location that a package declares: its repository, else its homepage, else none.
pub open spec fn declared_location(info: PackageView) -> Result<Option<Seq<char>>, ErrorView> {
    match info.krate {
        None => Err(crate_expected()),
        Some(krate) => Ok(
            if krate.repository is Some {
                krate.repository
            } else {
                krate.homepage
            },
        ),
    }
}

/// The outcome of a step that gives an optional text or fails, as a mathematical value.
pub open spec fn optional_text_outcome(r: Result<Option<String>, CloneError>) -> Result<
    Option<Seq<char>>,
    ErrorView,
> {
    match r {
        Ok(text) => Ok(optional_string_text(text)),
        Err(e) => Err(e@),
    }
}

/// Determine the repo path from the package info.
pub fn get_repo(pkg_info: &PackageInfo) -> (r: Result<Option<String>, CloneError>)
    ensures
        optional_text_outcome(r) == declared_location(pkg_info@),
{
    match &pkg_info.krate {
        None => Err(CloneError::new(ErrorKind::RegistryError, "`crate` expected in pkg info")),
        Some(krate) => {
            if krate.repository.is_some() {
                Ok(krate.repository.clone())
            } else {
                Ok(krate.homepage.clone())
            }
        },
    }
}

/// The failure for a metadata document without a list of versions.
pub open spec fn versions_expected() -> ErrorView {
    failure(ErrorKind::RegistryError, "Could not find `versions` array on crates.io."@)
}

/// The failure for a listed version without a number.
pub open spec fn num_expected() -> ErrorView {
    failure(ErrorKind::RegistryError, "Could not get `num` from version."@)
}

/// The failure for a listed version without a download path.
pub open spec fn dl_path_expected() -> ErrorView {
    failure(ErrorKind::RegistryError, "Could not find `dl_path` in crate version info."@)
}

/// The version that an entry lists: it needs a number and a download path.
pub open spec fn listing_of(entry: EntryView) -> Result<Listing, ErrorView> {
    match entry.num {
        None => Err(num_expected()),
        Some(num) => match entry.dl_path {
            None => Err(dl_path_expected()),
            Some(dl_path) => Ok(Listing { num, dl_path }),
        },
    }
}

/// The versions that the first `n` entries list, in order; the failure of the first entry
/// that has one.
pub open spec fn listings_of(entries: Seq<EntryView>, n: nat) -> Result<Seq<Listing>, ErrorView>
    decreases n,
{
    if n == 0 {
        Ok(Seq::empty())
    } else {
        match listings_of(entries, (n - 1) as nat) {
            Err(e) => Err(e),
            Ok(before) => match listing_of(entries[n - 1]) {
                Err(e) => Err(e),
                Ok(listing) => Ok(before.push(listing)),
            },
        }
    }
}

/// The versions that a package lists, in the document's order.
pub open spec fn versions_of(info: PackageView) -> Result<Seq<Listing>, ErrorView> {
    match info.versions {
        None => Err(versions_expected()),
        Some(entries) => listings_of(entries, entries.len()),
    }
}

/// The outcome of listing the versions, as a mathematical value.
pub open spec fn versions_outcome(r: Result<Vec<PublishedVersion>, CloneError>) -> Result<
    Seq<Listing>,
    ErrorView,
> {
    match r {
        Ok(versions) => Ok(listings(versions@)),
        Err(e) => Err(e@),
    }
}

/// Lists the published versions of a package.
pub fn published_versions(pkg_info: &PackageInfo) -> (r: Result<Vec<PublishedVersion>, CloneError>)
    ensures
        versions_outcome(r) == versions_of(pkg_info@),
{
    let entries = match &pkg_info.versions {
        Some(entries) => entries,
        None => {
            return Err(
                CloneError::new(
                    ErrorKind::RegistryError,
                    "Could not find `versions` array on crates.io.",
                ),
            );
        },
    };
    let ghost views = entry_views(entries@);
    let mut versions: Vec<PublishedVersion> = Vec::new();
    assert(listings(versions@) =~= Seq::empty());
    let mut k: usize = 0;
    while k < entries.len()
        invariant
            k <= entries.len(),
            views == entry_views(entries@),
            versions_of(pkg_info@) == listings_of(views, views.len()),
            listings_of(views, k as nat) == Ok::<Seq<Listing>, ErrorView>(listings(versions@)),
        decreases entries.len() - k,
    {
        let entry = &entries[k];
        let num = match &entry.num {
            Some(num) => num,
            None => {
                proof {
                    lemma_fault_stays(views, (k + 1) as nat, views.len());
                }
                return Err(
                    CloneError::new(ErrorKind::RegistryError, "Could not get `num` from version."),
                );
            },
        };
        let dl_path = match &entry.dl_path {
            Some(dl_path) => dl_path,
            None => {
                proof {
                    lemma_fault_stays(views, (k + 1) as nat, views.len());
                }
                return Err(
                    CloneError::new(
                        ErrorKind::RegistryError,
                        "Could not find `dl_path` in crate version info.",
                    ),
                );
            },
        };
        let ghost before = listings(versions@);
        versions.push(PublishedVersion { num: num.clone(), dl_path: dl_path.clone() });
        assert(listings(versions@) =~= before.push(Listing { num: num@, dl_path: dl_path@ }));
        k += 1;
    }
    Ok(versions)
}

/// A failure among the first `n` entries is the failure of every longer run of entries.
pub proof fn lemma_fault_stays(entries: Seq<EntryView>, n: nat, m: nat)
    requires
        n <= m,
        listings_of(entries, n) is Err,
    ensures
        listings_of(entries, m) == listings_of(entries, n),
    decreases m,
{
    if n < m {
        lemma_fault_stays(entries, n, (m - 1) as nat);
    }
}

} // verus!
