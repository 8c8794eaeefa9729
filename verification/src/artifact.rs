//! Artifact identifiers and what a repository publishes for them.
//!
//! An identifier is written `<group>:<name>`, as in `de.kinch:my-artifact`.
//! The segments are taken as they are: an empty segment is accepted, so `:`
//! alone is an identifier with an empty group and an empty name.

use crate::error::{ErrorView, MavenError};
use crate::maven_types::MetadataView;
use crate::text::{
    lemma_join_of_pair, lemma_join_of_split, lemma_split_len, lemma_split_of_join,
    lemma_split_segments_exclude_sep, occurrences, replace, replace_spec, split, split_spec,
};
use std::str::FromStr;
use vstd::prelude::*;

verus! {

/// The character between the segments of an identifier.
pub const SEGMENT_SEPARATOR: char = ':';

/// The name of the metadata document, as it ends a document path.
pub open spec fn metadata_file() -> Seq<char> {
    "/maven-metadata.xml"@
}

/// An artifact: a group and a name within the group.
#[derive(Debug, PartialEq, Eq)]
pub struct Artifact {
    pub group: String,
    pub name: String,
}

/// An artifact together with its published versions, oldest first.
#[derive(Debug, PartialEq, Eq)]
pub struct ResolvedArtifact {
    pub group: String,
    pub name: String,
    pub versions: Vec<String>,
}

/// The mathematical value of an [`Artifact`].
#[verifier::ext_equal]
pub struct ArtifactView {
    pub group: Seq<char>,
    pub name: Seq<char>,
}

/// The mathematical value of a [`ResolvedArtifact`].
#[verifier::ext_equal]
pub struct ResolvedView {
    pub group: Seq<char>,
    pub name: Seq<char>,
    pub versions: Seq<Seq<char>>,
}

impl ArtifactView {
    /// The identifier as it is written: group, separator, name.
    pub open spec fn text(self) -> Seq<char> {
        self.group + seq![SEGMENT_SEPARATOR] + self.name
    }

    /// Whether the identifier can be read back from its text: neither
    /// segment holds the separator.
    pub open spec fn is_plain(self) -> bool {
        !self.group.contains(SEGMENT_SEPARATOR) && !self.name.contains(SEGMENT_SEPARATOR)
    }

    /// The path of the artifact's metadata document below a repository's
    /// base: the group with `/` for each `.`, the name, and the file name.
    pub open spec fn metadata_path(self) -> Seq<char> {
        replace_spec(self.group, '.', '/') + seq!['/'] + self.name + metadata_file()
    }
}

impl ResolvedView {
    /// What a metadata document says of its artifact.
    pub open spec fn of_metadata(metadata: MetadataView) -> ResolvedView {
        ResolvedView {
            group: metadata.group_id,
            name: metadata.artifact_id,
            versions: metadata.versioning.versions,
        }
    }
}

/// What reading the text `s` as an identifier gives.
pub open spec fn parse_spec(s: Seq<char>) -> Result<ArtifactView, ErrorView> {
    let segments = split_spec(s, SEGMENT_SEPARATOR);
    if segments.len() == 2 {
        Ok(ArtifactView { group: segments[0], name: segments[1] })
    } else if segments.len() == 3 {
        Err(ErrorView::UnsupportedVersionedInput { input: s })
    } else {
        Err(ErrorView::InvalidFormat { input: s })
    }
}

/// The mathematical value of the result of reading an identifier.
pub open spec fn parsed_view(r: Result<Artifact, MavenError>) -> Result<ArtifactView, ErrorView> {
    match r {
        Ok(artifact) => Ok(artifact@),
        Err(error) => Err(error@),
    }
}

/// How the number of separators in a text decides what reading it gives:
/// with one, the identifier whose text it is, with no separator in either
/// segment; with two, the refusal of a version; with none or more than two,
/// the refusal of the format.
pub proof fn lemma_parse_by_separators(s: Seq<char>)
    ensures
        occurrences(s, SEGMENT_SEPARATOR) == 1 ==> (parse_spec(s) matches Ok(artifact)
            && artifact.text() == s && artifact.is_plain()),
        occurrences(s, SEGMENT_SEPARATOR) == 2 ==> parse_spec(s) == Err::<ArtifactView, ErrorView>(
            ErrorView::UnsupportedVersionedInput { input: s },
        ),
        occurrences(s, SEGMENT_SEPARATOR) == 0 || occurrences(s, SEGMENT_SEPARATOR) >= 3
            ==> parse_spec(s) == Err::<ArtifactView, ErrorView>(
            ErrorView::InvalidFormat { input: s },
        ),
{
    let parts = split_spec(s, SEGMENT_SEPARATOR);
    lemma_split_len(s, SEGMENT_SEPARATOR);
    if parts.len() == 2 {
        lemma_join_of_split(s, SEGMENT_SEPARATOR);
        lemma_split_segments_exclude_sep(s, SEGMENT_SEPARATOR);
        lemma_join_of_pair(parts[0], parts[1], SEGMENT_SEPARATOR);
        assert(parts == seq![parts[0], parts[1]]);
    }
}

/// Reading the text of an identifier gives the identifier back, provided
/// that neither of its segments holds the separator.
pub proof fn lemma_parse_of_text(artifact: ArtifactView)
    requires
        artifact.is_plain(),
    ensures
        parse_spec(artifact.text()) == Ok::<ArtifactView, ErrorView>(artifact),
{
    lemma_split_of_join(seq![artifact.group, artifact.name], SEGMENT_SEPARATOR);
    lemma_join_of_pair(artifact.group, artifact.name, SEGMENT_SEPARATOR);
}

impl View for Artifact {
    type V = ArtifactView;

    open spec fn view(&self) -> ArtifactView {
        ArtifactView { group: self.group@, name: self.name@ }
    }
}

impl View for ResolvedArtifact {
    type V = ResolvedView;

    open spec fn view(&self) -> ResolvedView {
        ResolvedView {
            group: self.group@,
            name: self.name@,
            versions: self.versions.deep_view(),
        }
    }
}

impl Artifact {
    /// The artifact `name` of the group `group`.
    pub fn new(group: &str, name: &str) -> (artifact: Artifact)
        ensures
            artifact@ == (ArtifactView { group: group@, name: name@ }),
    {
        Artifact { group: group.to_owned(), name: name.to_owned() }
    }

    /// Reads an identifier of the form `<group>:<name>`.
    ///
    /// The text is split at each `:`. Two segments are the group and the
    /// name. Three segments would carry a version, which is not supported.
    /// Any other number of segments is no identifier.
    pub fn parse(s: &str) -> (r: Result<Artifact, MavenError>)
        ensures
            parsed_view(r) == parse_spec(s@),
            occurrences(s@, SEGMENT_SEPARATOR) == 1 ==> (r matches Ok(artifact)
                && artifact@.text() == s@ && artifact@.is_plain()),
            occurrences(s@, SEGMENT_SEPARATOR) == 2 ==> (r matches Err(
                MavenError::UnsupportedVersionedInput { input },
            ) && input@ == s@),
            occurrences(s@, SEGMENT_SEPARATOR) == 0 || occurrences(s@, SEGMENT_SEPARATOR) >= 3
                ==> (r matches Err(MavenError::InvalidFormat { input }) && input@ == s@),
    {
        let mut segments = split(s, SEGMENT_SEPARATOR);
        proof {
            lemma_parse_by_separators(s@);
        }
        if segments.len() == 2 {
            let name = segments.pop().unwrap();
            let group = segments.pop().unwrap();
            Ok(Artifact { group, name })
        } else if segments.len() == 3 {
            Err(MavenError::UnsupportedVersionedInput { input: s.to_owned() })
        } else {
            Err(MavenError::InvalidFormat { input: s.to_owned() })
        }
    }

    /// The identifier as it is written.
    pub fn to_text(&self) -> (text: String)
        ensures
            text@ == self@.text(),
    {
        let mut text = self.group.clone();
        text.push(SEGMENT_SEPARATOR);
        text.append(self.name.as_str());
        text
    }

    /// The path of the artifact's metadata document, relative to the base
    /// of a repository.
    pub fn metadata_path(&self) -> (path: String)
        ensures
            path@ == self@.metadata_path(),
    {
        let mut path = replace(self.group.as_str(), '.', '/');
        path.push('/');
        path.append(self.name.as_str());
        path.append("/maven-metadata.xml");
        path
    }
}

impl FromStr for Artifact {
    type Err = MavenError;

    /// Reads an identifier as [`Artifact::parse`] does.
    fn from_str(s: &str) -> (r: Result<Artifact, MavenError>)
        ensures
            parsed_view(r) == parse_spec(s@),
    {
        Artifact::parse(s)
    }
}

} // verus!
