//! The failures a resolution can end in.

use crate::text::{decimal_spec, push_decimal};
use vstd::prelude::*;

verus! {

/// A failure of parsing an identifier or of resolving an artifact.
#[derive(Debug, PartialEq, Eq)]
pub enum MavenError {
    /// An input was refused for the reason given in `message`.
    InvalidInputError { message: String },
    /// An identifier that does not consist of exactly two `:`-separated segments.
    InvalidFormat { input: String },
    /// An identifier with a third segment, which would name a version.
    UnsupportedVersionedInput { input: String },
    /// The repository answered with a document that is not artifact metadata.
    MetadataDecodeError { message: String },
    /// The repository rejected the credentials.
    AuthenticationError,
    /// The repository answered with a status that has no meaning here.
    UnexpectedStatusError { status: u16 },
    /// The request did not complete.
    TransportError { message: String },
}

/// The mathematical value of a [`MavenError`].
pub enum ErrorView {
    InvalidInputError { message: Seq<char> },
    InvalidFormat { input: Seq<char> },
    UnsupportedVersionedInput { input: Seq<char> },
    MetadataDecodeError { message: Seq<char> },
    AuthenticationError,
    UnexpectedStatusError { status: u16 },
    TransportError { message: Seq<char> },
}

impl ErrorView {
    /// The failure in words.
    pub open spec fn message(self) -> Seq<char> {
        match self {
            ErrorView::InvalidInputError { message } => message,
            ErrorView::InvalidFormat { input } => "Invalid maven artifact specified: '"@ + input
                + "'. Expected format <GROUP>:<NAME>"@,
            ErrorView::UnsupportedVersionedInput { input } =>
                "Sorry, parsing of artifact specification with version number is not yet supported. Input: '"@
                + input + "'. Only supported: <GROUP>:<VERSION>"@,
            ErrorView::MetadataDecodeError { message } => "Could not parse metadata xml: "@
                + message,
            ErrorView::AuthenticationError => "The repository rejected the credentials"@,
            ErrorView::UnexpectedStatusError { status } => "Unexpected response status: "@
                + decimal_spec(status as nat),
            ErrorView::TransportError { message } => "Error while downloading metadata: "@
                + message,
        }
    }

    /// The failure as it is shown: the message after the words `Maven Error: `.
    pub open spec fn text(self) -> Seq<char> {
        "Maven Error: "@ + self.message()
    }
}

impl View for MavenError {
    type V = ErrorView;

    open spec fn view(&self) -> ErrorView {
        match self {
            MavenError::InvalidInputError { message } => ErrorView::InvalidInputError {
                message: message@,
            },
            MavenError::InvalidFormat { input } => ErrorView::InvalidFormat { input: input@ },
            MavenError::UnsupportedVersionedInput { input } => ErrorView::UnsupportedVersionedInput {
                input: input@,
            },
            MavenError::MetadataDecodeError { message } => ErrorView::MetadataDecodeError {
                message: message@,
            },
            MavenError::AuthenticationError => ErrorView::AuthenticationError,
            MavenError::UnexpectedStatusError { status } => ErrorView::UnexpectedStatusError {
                status: *status,
            },
            MavenError::TransportError { message } => ErrorView::TransportError {
                message: message@,
            },
        }
    }
}

impl MavenError {
    /// The failure in words.
    pub fn message(&self) -> (words: String)
        ensures
            words@ == self@.message(),
    {
        match self {
            MavenError::InvalidInputError { message } => message.clone(),
            MavenError::InvalidFormat { input } => {
                let mut text = "Invalid maven artifact specified: '".to_owned();
                text.append(input.as_str());
                text.append("'. Expected format <GROUP>:<NAME>");
                text
            },
            MavenError::UnsupportedVersionedInput { input } => {
                let mut text =
                    "Sorry, parsing of artifact specification with version number is not yet supported. Input: '".to_owned();
                text.append(input.as_str());
                text.append("'. Only supported: <GROUP>:<VERSION>");
                text
            },
            MavenError::MetadataDecodeError { message } => {
                let mut text = "Could not parse metadata xml: ".to_owned();
                text.append(message.as_str());
                text
            },
            MavenError::AuthenticationError => "The repository rejected the credentials".to_owned(),
            MavenError::UnexpectedStatusError { status } => {
                let mut text = "Unexpected response status: ".to_owned();
                push_decimal(&mut text, *status);
                text
            },
            MavenError::TransportError { message } => {
                let mut text = "Error while downloading metadata: ".to_owned();
                text.append(message.as_str());
                text
            },
        }
    }

    /// The failure as it is shown.
    pub fn to_text(&self) -> (text: String)
        ensures
            text@ == self@.text(),
    {
        let mut text = "Maven Error: ".to_owned();
        text.append(self.message().as_str());
        text
    }

    /// Fails with an [`MavenError::InvalidInputError`] that carries `message`.
    pub fn invalid_input<T>(message: &str) -> (r: Result<T, MavenError>)
        ensures
            r matches Err(e) && e@ == (ErrorView::InvalidInputError { message: message@ }),
    {
        Err(MavenError::InvalidInputError { message: message.to_owned() })
    }
}

} // verus!
