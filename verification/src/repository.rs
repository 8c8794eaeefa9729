//! A remote repository: where it is, who asks, and what to ask it for.

use crate::artifact::{Artifact, ResolvedArtifact, ResolvedView};
use crate::error::{ErrorView, MavenError};
use crate::maven_types::Metadata;
use reqwest::Url;
use vstd::prelude::*;

verus! {

/// `reqwest::Url`, the parsed URL of the `url` crate. Nothing of what a URL
/// holds is stated here: a URL is handed on as it was received.
#[verifier::external_type_specification]
#[verifier::external_body]
pub struct ExUrl(reqwest::Url);

/// The URL that `Url::join` gives for `reference` read against `base`, or
/// `None` where it gives an error.
pub uninterp spec fn url_join(base: Url, reference: Seq<char>) -> Option<Url>;

/// `Url::join` parses `reference` as a URL with `base` as the base URL: a
/// relative reference is resolved against the base, where the base's path
/// counts up to its last `/`. The result depends on the two arguments alone;
/// an error is given as `None`.
#[verifier::external_body]
fn join(base: &Url, reference: &str) -> (joined: Option<Url>)
    ensures
        joined == url_join(*base, reference@),
{
    base.join(reference).ok()
}

/// A user name and a password for basic authentication.
pub struct Credentials {
    username: String,
    password: String,
}

/// The mathematical value of [`Credentials`].
#[verifier::ext_equal]
pub struct CredentialsView {
    pub username: Seq<char>,
    pub password: Seq<char>,
}

impl View for Credentials {
    type V = CredentialsView;

    closed spec fn view(&self) -> CredentialsView {
        CredentialsView { username: self.username@, password: self.password@ }
    }
}

impl Credentials {
    /// Credentials of the user `username` with the password `password`.
    pub fn new(username: &str, password: &str) -> (credentials: Credentials)
        ensures
            credentials@ == (CredentialsView { username: username@, password: password@ }),
    {
        Credentials { username: username.to_owned(), password: password.to_owned() }
    }
}

/// A repository at a base URL, asked with fixed credentials.
///
/// The base URL should end in `/`: a last path segment without it is
/// replaced, not extended, when a document's URL is derived.
pub struct Repository {
    credentials: Credentials,
    url: Url,
}

/// The mathematical value of a [`Repository`].
pub struct RepositoryView {
    pub credentials: CredentialsView,
    pub url: Url,
}

impl View for Repository {
    type V = RepositoryView;

    closed spec fn view(&self) -> RepositoryView {
        RepositoryView { credentials: self.credentials@, url: self.url }
    }
}

/// A GET request with basic authentication.
pub struct Request<'a> {
    pub url: Url,
    pub username: &'a str,
    pub password: &'a str,
}

impl Repository {
    /// The repository at `url`, to be asked with the credentials `cred`.
    pub fn open_remote(cred: Credentials, url: Url) -> (repository: Repository)
        ensures
            repository@ == (RepositoryView { credentials: cred@, url }),
    {
        Repository { credentials: cred, url }
    }

    /// The request for the metadata document of `artifact`: the document's
    /// path joined to the base URL, with the repository's credentials.
    /// There is none where the path cannot be joined to the base URL, as
    /// with a base that takes no path (`mailto:`).
    ///
    /// The path is joined as a relative reference. For a group that is empty
    /// or begins with `.` the path begins with `/`, and the document is then
    /// not looked for below the base.
    pub fn request<'a>(&'a self, artifact: &Artifact) -> (r: Option<Request<'a>>)
        ensures
            match r {
                Some(request) => {
                    &&& url_join(self@.url, artifact@.metadata_path()) == Some(request.url)
                    &&& request.username@ == self@.credentials.username
                    &&& request.password@ == self@.credentials.password
                },
                None => url_join(self@.url, artifact@.metadata_path()) is None,
            },
    {
        let path = artifact.metadata_path();
        match join(&self.url, path.as_str()) {
            Some(url) => Some(
                Request {
                    url,
                    username: self.credentials.username.as_str(),
                    password: self.credentials.password.as_str(),
                },
            ),
            None => None,
        }
    }

    /// The artifact that a decoded metadata document describes, or the
    /// failure to decode it. `decoded` is the document, or the reason why
    /// the response's body is none.
    pub fn parse_metadata(decoded: Result<Metadata, String>) -> (r: Result<
        ResolvedArtifact,
        MavenError,
    >)
        ensures
            match decoded {
                Ok(metadata) => r matches Ok(resolved) && resolved@ == ResolvedView::of_metadata(
                    metadata@,
                ),
                Err(reason) => r matches Err(error) && error@ == (ErrorView::MetadataDecodeError {
                    message: reason@,
                }),
            },
    {
        match decoded {
            Ok(metadata) => Ok(
                ResolvedArtifact {
                    group: metadata.group_id,
                    name: metadata.artifact_id,
                    versions: metadata.versioning.versions.version,
                },
            ),
            Err(reason) => Err(MavenError::MetadataDecodeError { message: reason }),
        }
    }
}

} // verus!
