//! Decides how the source of a published package is obtained: by downloading the archive of
//! one of its versions from the registry, or by cloning the repository that it declares.
//!
//! The decisions are made here; the requests, the unpacking and the run of a version-control
//! program are left to the caller. [`Cloner::clone`] takes the answers that have come in so
//! far and says what is to be done next:
//!
//! ```
//! use cargo_clone::{CloneMethodKind, Cloner, HttpReply, Replies, Step};
//!
//! // Stands for a request over HTTP.
//! fn ask(_url: &str) -> HttpReply {
//!     HttpReply { status: 200, body: String::from(r#"{"crate": {}, "versions": []}"#) }
//! }
//!
//! let cloner = Cloner::new();
//! let mut replies = Replies::new();
//! let outcome = loop {
//!     match cloner.clone(CloneMethodKind::Auto, "bitflags", None, &[], &replies) {
//!         Ok(Step::FetchMetadata { url }) => replies.registry = Some(ask(&url)),
//!         Ok(Step::QueryHosting { url }) => replies.hosting = Some(ask(&url)),
//!         Ok(Step::Download { url, base }) => break format!("unpack {url}, it holds {base}"),
//!         Ok(Step::RunTool { program, args }) => break format!("run {program} {args:?}"),
//!         Err(e) => break e.message(),
//!     }
//! };
//! assert_eq!(outcome, "Could not find any matching versions.");
//! ```
//!
//! The modules, from the leaves up: [`text`] and [`error`]; [`method`], [`version`],
//! [`location`], [`json`] and [`archive`]; [`registry`], [`bitbucket`], [`hosting`] and
//! [`request`]; and [`cloner`], which puts them together.

pub mod archive;
pub mod bitbucket;
pub mod cloner;
pub mod error;
pub mod hosting;
pub mod json;
pub mod location;
pub mod method;
pub mod registry;
pub mod request;
pub mod text;
pub mod version;

pub use crate::cloner::{
    clone, Cloner, Replies, Step, DEFAULT_BITBUCKET_URL, DEFAULT_GITHUB_URL, DEFAULT_GITLAB_URL,
    DEFAULT_REGISTRY_URL,
};
pub use crate::error::{CloneError, ErrorKind};
pub use crate::hosting::Detection;
pub use crate::method::{CloneMethodKind, ResolvedTarget, TerminalMethod};
pub use crate::registry::{HttpReply, PackageInfo};
pub use crate::request::PackageSpec;
pub use crate::version::PublishedVersion;
