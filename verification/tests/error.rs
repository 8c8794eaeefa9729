use maven::{Artifact, MavenError};

#[test]
fn invalid_input_carries_the_message() {
    let failed: Result<Artifact, MavenError> = MavenError::invalid_input("no such thing");
    assert_eq!(
        failed,
        Err(MavenError::InvalidInputError {
            message: "no such thing".to_string()
        })
    );
}

#[test]
fn message_of_each_failure() {
    assert_eq!(
        MavenError::InvalidInputError {
            message: "as given".to_string()
        }
        .message(),
        "as given"
    );
    assert_eq!(
        MavenError::InvalidFormat {
            input: "de.kinch".to_string()
        }
        .message(),
        "Invalid maven artifact specified: 'de.kinch'. Expected format <GROUP>:<NAME>"
    );
    assert_eq!(
        MavenError::UnsupportedVersionedInput {
            input: "a:b:1".to_string()
        }
        .message(),
        "Sorry, parsing of artifact specification with version number is not yet supported. Input: 'a:b:1'. Only supported: <GROUP>:<VERSION>"
    );
    assert_eq!(
        MavenError::MetadataDecodeError {
            message: "missing field `groupId`".to_string()
        }
        .message(),
        "Could not parse metadata xml: missing field `groupId`"
    );
    assert_eq!(
        MavenError::AuthenticationError.message(),
        "The repository rejected the credentials"
    );
    assert_eq!(
        MavenError::UnexpectedStatusError { status: 503 }.message(),
        "Unexpected response status: 503"
    );
    assert_eq!(
        MavenError::TransportError {
            message: "connection refused".to_string()
        }
        .message(),
        "Error while downloading metadata: connection refused"
    );
}

#[test]
fn text_of_a_failure_names_the_library() {
    assert_eq!(
        MavenError::InvalidInputError {
            message: "as given".to_string()
        }
        .to_text(),
        "Maven Error: as given"
    );
    assert_eq!(
        MavenError::UnexpectedStatusError { status: 0 }.to_text(),
        "Maven Error: Unexpected response status: 0"
    );
}

#[test]
fn failures_of_different_kinds_differ() {
    let format = MavenError::InvalidFormat {
        input: "x".to_string(),
    };
    let version = MavenError::UnsupportedVersionedInput {
        input: "x".to_string(),
    };
    assert_ne!(format, version);
    assert_ne!(
        MavenError::AuthenticationError,
        MavenError::UnexpectedStatusError { status: 401 }
    );
}
