//! The metadata document that a repository keeps for each artifact, as
//! decoded values.
//!
//! The document is XML: a root element with the children `groupId`,
//! `artifactId` and `versioning`; `versioning` with `latest`, `release` and
//! `versions`; and `versions` with one `version` element for each published
//! version. Field names are the element names in snake case.

use vstd::prelude::*;

verus! {

/// The root of a metadata document.
#[derive(Debug, PartialEq, Eq)]
pub struct Metadata {
    pub group_id: String,
    pub artifact_id: String,
    pub versioning: Versioning,
}

/// The `versioning` element.
#[derive(Debug, PartialEq, Eq)]
pub struct Versioning {
    pub latest: String,
    pub release: String,
    pub versions: Versions,
}

/// The `versions` element: the published versions in document order.
#[derive(Debug, PartialEq, Eq)]
pub struct Versions {
    pub version: Vec<String>,
}

/// The mathematical value of a [`Versioning`].
#[verifier::ext_equal]
pub struct VersioningView {
    pub latest: Seq<char>,
    pub release: Seq<char>,
    pub versions: Seq<Seq<char>>,
}

/// The mathematical value of a [`Metadata`].
#[verifier::ext_equal]
pub struct MetadataView {
    pub group_id: Seq<char>,
    pub artifact_id: Seq<char>,
    pub versioning: VersioningView,
}

impl View for Versions {
    type V = Seq<Seq<char>>;

    open spec fn view(&self) -> Seq<Seq<char>> {
        self.version.deep_view()
    }
}

impl View for Versioning {
    type V = VersioningView;

    open spec fn view(&self) -> VersioningView {
        VersioningView { latest: self.latest@, release: self.release@, versions: self.versions@ }
    }
}

impl View for Metadata {
    type V = MetadataView;

    open spec fn view(&self) -> MetadataView {
        MetadataView {
            group_id: self.group_id@,
            artifact_id: self.artifact_id@,
            versioning: self.versioning@,
        }
    }
}

} // verus!
