//! Resolution of published artifact versions from a Maven-style repository.
//!
//! The crate holds the decisions of a resolution and proves what they give:
//!
//! - [`Artifact::parse`] reads an identifier such as `de.kinch:my-artifact`;
//! - [`Repository::request`] says which document of the repository describes
//!   an artifact and how to ask for it;
//! - [`resolution::after_status`], [`resolution::after_body`] and
//!   [`resolution::after_failure`] say what the answer means: the artifact
//!   with its versions, no such artifact, or a failure.
//!
//! Sending the request and decoding the document are left to the caller, who
//! reports the status of the response and the decoded document. No function
//! here keeps anything between two calls, and none asks for a second request.
//!
//! Contracts speak of the mathematical value of a type, its view: text is a
//! `Seq<char>`, a list of versions a `Seq<Seq<char>>`. What is taken on trust
//! of code outside this crate is `String::push` in [`text`] and `Url::join`
//! in [`repository`]; the latter's result is named, not described.

pub mod artifact;
pub mod error;
pub mod maven_types;
pub mod repository;
pub mod resolution;
pub mod text;

pub use artifact::{Artifact, ResolvedArtifact};
pub use error::MavenError;
pub use maven_types::{Metadata, Versioning, Versions};
pub use repository::{Credentials, Repository, Request};
pub use resolution::Progress;
