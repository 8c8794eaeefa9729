//! What a repository's answer means for the resolution of an artifact.
//!
//! A resolution is one request and what follows from its answer. The caller
//! sends the request that [`Repository::request`] describes and reports what
//! came of it: the status of the response to [`after_status`], which may ask
//! for the body; the decoded body to [`after_body`]; a request or a body
//! that did not arrive to [`after_failure`]. Nothing is tried twice.
//!
//! [`Repository::request`]: crate::repository::Repository::request

use crate::artifact::{ResolvedArtifact, ResolvedView};
use crate::error::{ErrorView, MavenError};
use crate::maven_types::{Metadata, MetadataView};
use crate::repository::Repository;
use vstd::prelude::*;

verus! {

/// The status of a response that carries the metadata document.
pub const STATUS_OK: u16 = 200;

/// The status of a response that rejects the credentials.
pub const STATUS_UNAUTHORIZED: u16 = 401;

/// The status of a response that knows no such artifact.
pub const STATUS_NOT_FOUND: u16 = 404;

/// Where a resolution stands once the status of the response is known.
#[derive(Debug, PartialEq, Eq)]
pub enum Progress {
    /// The body holds the metadata document: read and decode it.
    ReadBody,
    /// The resolution has ended, in an artifact, in none, or in a failure.
    Done(Result<Option<ResolvedArtifact>, MavenError>),
}

/// The mathematical value of a [`Progress`].
pub enum ProgressView {
    ReadBody,
    Done(Result<Option<ResolvedView>, ErrorView>),
}

/// The mathematical value of the end of a resolution.
pub open spec fn outcome_view(outcome: Result<Option<ResolvedArtifact>, MavenError>) -> Result<
    Option<ResolvedView>,
    ErrorView,
> {
    match outcome {
        Ok(Some(resolved)) => Ok(Some(resolved@)),
        Ok(None) => Ok(None),
        Err(error) => Err(error@),
    }
}

impl View for Progress {
    type V = ProgressView;

    open spec fn view(&self) -> ProgressView {
        match self {
            Progress::ReadBody => ProgressView::ReadBody,
            Progress::Done(outcome) => ProgressView::Done(outcome_view(*outcome)),
        }
    }
}

/// What the status of a response decides.
pub open spec fn status_progress(status: u16) -> ProgressView {
    if status == STATUS_OK {
        ProgressView::ReadBody
    } else if status == STATUS_NOT_FOUND {
        ProgressView::Done(Ok(None))
    } else if status == STATUS_UNAUTHORIZED {
        ProgressView::Done(Err(ErrorView::AuthenticationError))
    } else {
        ProgressView::Done(Err(ErrorView::UnexpectedStatusError { status }))
    }
}

/// What the body of a response decides: `decoded` is the document in it, or
/// the reason why there is none in it.
pub open spec fn body_outcome(decoded: Result<MetadataView, Seq<char>>) -> Result<
    Option<ResolvedView>,
    ErrorView,
> {
    match decoded {
        Ok(metadata) => Ok(Some(ResolvedView::of_metadata(metadata))),
        Err(reason) => Err(ErrorView::MetadataDecodeError { message: reason }),
    }
}

/// What a resolution ends in when the response has the status `status` and
/// its body, if it is read, decodes to `decoded`.
pub open spec fn resolution_outcome(
    status: u16,
    decoded: Result<MetadataView, Seq<char>>,
) -> Result<Option<ResolvedView>, ErrorView> {
    match status_progress(status) {
        ProgressView::ReadBody => body_outcome(decoded),
        ProgressView::Done(outcome) => outcome,
    }
}

/// The mathematical value of a decoded body.
pub open spec fn decoded_view(decoded: Result<Metadata, String>) -> Result<
    MetadataView,
    Seq<char>,
> {
    match decoded {
        Ok(metadata) => Ok(metadata@),
        Err(reason) => Err(reason@),
    }
}

/// Which responses a resolution ends on in which way. An artifact comes of the
/// status 200 with a document and of nothing else; no artifact without a
/// failure comes of the status 404 and of nothing else; each failure has its
/// own responses, and no response is passed over.
pub proof fn lemma_resolution_cases(status: u16, decoded: Result<MetadataView, Seq<char>>)
    ensures
        resolution_outcome(status, decoded) matches Ok(Some(_)) <==> status == STATUS_OK
            && decoded is Ok,
        resolution_outcome(status, decoded) matches Ok(None) <==> status == STATUS_NOT_FOUND,
        resolution_outcome(status, decoded) matches Err(ErrorView::AuthenticationError) <==> status
            == STATUS_UNAUTHORIZED,
        resolution_outcome(status, decoded) matches Err(ErrorView::MetadataDecodeError { .. })
            <==> status == STATUS_OK && decoded is Err,
        resolution_outcome(status, decoded) matches Err(ErrorView::UnexpectedStatusError { .. })
            <==> status != STATUS_OK && status != STATUS_NOT_FOUND && status
            != STATUS_UNAUTHORIZED,
        resolution_outcome(status, decoded) matches Err(
            ErrorView::UnexpectedStatusError { status: reported },
        ) ==> reported == status,
{
}

/// The body of a response counts only under the status 200: under any other
/// status the resolution ends the same whatever the body holds, and under
/// 404 it ends without an artifact and without a failure.
pub proof fn lemma_body_counts_only_when_ok(
    status: u16,
    decoded: Result<MetadataView, Seq<char>>,
    other: Result<MetadataView, Seq<char>>,
)
    ensures
        status != STATUS_OK ==> resolution_outcome(status, decoded) == resolution_outcome(
            status,
            other,
        ),
        status == STATUS_NOT_FOUND ==> resolution_outcome(status, decoded) == Ok::<
            Option<ResolvedView>,
            ErrorView,
        >(None),
        status == STATUS_OK ==> resolution_outcome(status, decoded) == body_outcome(decoded),
{
}

/// A resolution keeps nothing from one run to the next: two runs whose
/// responses have the same status and hold the same document, or fail to
/// decode for the same reason, end the same.
pub proof fn lemma_resolution_repeatable(
    status: u16,
    first: Result<Metadata, String>,
    second: Result<Metadata, String>,
    first_outcome: Result<Option<ResolvedArtifact>, MavenError>,
    second_outcome: Result<Option<ResolvedArtifact>, MavenError>,
)
    requires
        decoded_view(first) == decoded_view(second),
        outcome_view(first_outcome) == resolution_outcome(status, decoded_view(first)),
        outcome_view(second_outcome) == resolution_outcome(status, decoded_view(second)),
    ensures
        outcome_view(first_outcome) == outcome_view(second_outcome),
{
}

/// Decides on the status of the response: 200 asks for the body, 404 ends
/// the resolution without an artifact, 401 and every other status end it in
/// a failure.
pub fn after_status(status: u16) -> (progress: Progress)
    ensures
        progress@ == status_progress(status),
        progress matches Progress::Done(outcome) ==> forall|decoded: Result<MetadataView, Seq<char>>|
            outcome_view(outcome) == #[trigger] resolution_outcome(status, decoded),
        status == STATUS_OK <==> progress is ReadBody,
        status == STATUS_NOT_FOUND <==> progress matches Progress::Done(Ok(None)),
        status == STATUS_UNAUTHORIZED <==> progress matches Progress::Done(
            Err(MavenError::AuthenticationError),
        ),
{
    if status == STATUS_OK {
        Progress::ReadBody
    } else if status == STATUS_NOT_FOUND {
        Progress::Done(Ok(None))
    } else if status == STATUS_UNAUTHORIZED {
        Progress::Done(Err(MavenError::AuthenticationError))
    } else {
        Progress::Done(Err(MavenError::UnexpectedStatusError { status }))
    }
}

/// Ends the resolution on the body of a response with status 200: in the
/// artifact that the document describes, or in the failure to decode it.
pub fn after_body(decoded: Result<Metadata, String>) -> (outcome: Result<
    Option<ResolvedArtifact>,
    MavenError,
>)
    ensures
        outcome_view(outcome) == body_outcome(decoded_view(decoded)),
        outcome_view(outcome) == resolution_outcome(STATUS_OK, decoded_view(decoded)),
        decoded is Ok <==> outcome matches Ok(Some(_)),
{
    match Repository::parse_metadata(decoded) {
        Ok(resolved) => Ok(Some(resolved)),
        Err(error) => Err(error),
    }
}

/// Ends the resolution on a request or a body that did not arrive, for the
/// reason `cause`.
pub fn after_failure(cause: String) -> (outcome: Result<Option<ResolvedArtifact>, MavenError>)
    ensures
        outcome_view(outcome) == Err::<Option<ResolvedView>, ErrorView>(
            ErrorView::TransportError { message: cause@ },
        ),
{
    Err(MavenError::TransportError { message: cause })
}

} // verus!
