use maven::resolution::{after_body, after_failure, after_status};
use maven::{
    Artifact, Credentials, MavenError, Metadata, Progress, Repository, ResolvedArtifact,
    Versioning, Versions,
};
use reqwest::Url;

fn example_metadata() -> Metadata {
    Metadata {
        group_id: "de.kinch".to_string(),
        artifact_id: "my-artifact".to_string(),
        versioning: Versioning {
            latest: "2.4.3".to_string(),
            release: "2.4.3".to_string(),
            versions: Versions {
                version: vec![
                    "2.0.0".to_string(),
                    "2.1.0".to_string(),
                    "2.2.0".to_string(),
                ],
            },
        },
    }
}

fn repository(base: &str) -> Repository {
    Repository::open_remote(
        Credentials::new("admin", "password"),
        base.parse().expect("could not parse url"),
    )
}

#[test]
fn request_example_metadata() {
    let maven_repo = repository("http://127.0.0.1:5000/maven/");

    let request = maven_repo
        .request(&"de.kinch:my-artifact".parse().expect(""))
        .expect("could not parse artifact url");
    assert_eq!(
        request.url.path(),
        "/maven/de/kinch/my-artifact/maven-metadata.xml"
    );
    assert_eq!(request.username, "admin");
    assert_eq!(request.password, "password");

    assert_eq!(after_status(200), Progress::ReadBody);
    let resolved_artifact = after_body(Ok(example_metadata()))
        .expect("Failure while resolving artifact")
        .expect("Could not find artifact");

    assert_eq!(
        resolved_artifact,
        ResolvedArtifact {
            group: "de.kinch".to_string(),
            name: "my-artifact".to_string(),
            versions: vec![
                "2.0.0".to_string(),
                "2.1.0".to_string(),
                "2.2.0".to_string(),
            ]
        }
    );
}

#[test]
fn request_url_below_a_base_that_ends_in_a_slash() {
    let repo = repository("https://repo.example.net/maven/");
    let artifact = Artifact::new("de.kinch", "my-artifact");
    let request = repo.request(&artifact).expect("a request");
    assert_eq!(
        request.url.as_str(),
        "https://repo.example.net/maven/de/kinch/my-artifact/maven-metadata.xml"
    );
    let base = Url::parse("https://repo.example.net/maven/").expect("a url");
    assert_eq!(
        base.make_relative(&request.url),
        Some("de/kinch/my-artifact/maven-metadata.xml".to_string())
    );
}

#[test]
fn request_url_below_a_base_without_a_final_slash() {
    let repo = repository("https://repo.example.net/maven");
    let artifact = Artifact::new("de.kinch", "my-artifact");
    let request = repo.request(&artifact).expect("a request");
    assert_eq!(
        request.url.as_str(),
        "https://repo.example.net/de/kinch/my-artifact/maven-metadata.xml"
    );
}

#[test]
fn request_url_is_none_where_the_base_takes_no_path() {
    let repo = repository("mailto:admin@example.net");
    let artifact = Artifact::new("de.kinch", "my-artifact");
    assert!(repo.request(&artifact).is_none());
}

#[test]
fn request_carries_the_credentials() {
    let repo = Repository::open_remote(
        Credentials::new("user", "s3cr3t"),
        Url::parse("http://localhost/").expect("a url"),
    );
    let artifact = Artifact::new("g", "n");
    let request = repo.request(&artifact).expect("a request");
    assert_eq!(request.username, "user");
    assert_eq!(request.password, "s3cr3t");
    assert_eq!(request.url.as_str(), "http://localhost/g/n/maven-metadata.xml");
}

#[test]
fn requests_of_one_repository_are_the_same() {
    let repo = repository("http://127.0.0.1:5000/maven/");
    let artifact = Artifact::new("de.kinch", "my-artifact");
    let first = repo.request(&artifact).expect("a request");
    let second = repo.request(&artifact).expect("a request");
    assert_eq!(first.url, second.url);
    assert_eq!(first.username, second.username);
    assert_eq!(first.password, second.password);
}

#[test]
fn status_ok_asks_for_the_body() {
    assert_eq!(after_status(200), Progress::ReadBody);
}

#[test]
fn status_not_found_is_no_artifact_and_no_failure() {
    assert_eq!(after_status(404), Progress::Done(Ok(None)));
}

#[test]
fn status_unauthorized_is_a_failure_of_its_own() {
    assert_eq!(
        after_status(401),
        Progress::Done(Err(MavenError::AuthenticationError))
    );
    assert_ne!(after_status(401), after_status(404));
}

#[test]
fn other_statuses_are_reported_with_their_number() {
    for status in [0u16, 100, 199, 201, 204, 301, 400, 402, 403, 405, 500, 503, 999, 65535] {
        assert_eq!(
            after_status(status),
            Progress::Done(Err(MavenError::UnexpectedStatusError { status }))
        );
    }
}

#[test]
fn body_with_a_document_is_its_artifact() {
    assert_eq!(
        after_body(Ok(example_metadata())),
        Ok(Some(ResolvedArtifact {
            group: "de.kinch".to_string(),
            name: "my-artifact".to_string(),
            versions: vec![
                "2.0.0".to_string(),
                "2.1.0".to_string(),
                "2.2.0".to_string(),
            ]
        }))
    );
}

#[test]
fn body_keeps_the_order_of_the_versions() {
    let mut metadata = example_metadata();
    metadata.versioning.versions.version = vec![
        "3.0.0".to_string(),
        "1.0.0".to_string(),
        "2.0.0".to_string(),
        "1.0.0".to_string(),
    ];
    let resolved = after_body(Ok(metadata)).expect("no failure").expect("an artifact");
    assert_eq!(resolved.versions, vec!["3.0.0", "1.0.0", "2.0.0", "1.0.0"]);
}

#[test]
fn body_without_versions_is_an_artifact_without_versions() {
    let mut metadata = example_metadata();
    metadata.versioning.versions.version = Vec::new();
    let resolved = after_body(Ok(metadata)).expect("no failure").expect("an artifact");
    assert_eq!(resolved.group, "de.kinch");
    assert_eq!(resolved.name, "my-artifact");
    assert!(resolved.versions.is_empty());
}

#[test]
fn body_that_is_no_document_is_a_decode_failure() {
    assert_eq!(
        after_body(Err("missing field `groupId`".to_string())),
        Err(MavenError::MetadataDecodeError {
            message: "missing field `groupId`".to_string()
        })
    );
}

#[test]
fn parse_metadata_takes_group_name_and_versions() {
    assert_eq!(
        Repository::parse_metadata(Ok(example_metadata())),
        Ok(ResolvedArtifact {
            group: "de.kinch".to_string(),
            name: "my-artifact".to_string(),
            versions: vec![
                "2.0.0".to_string(),
                "2.1.0".to_string(),
                "2.2.0".to_string(),
            ]
        })
    );
    assert_eq!(
        Repository::parse_metadata(Err("unexpected end of stream".to_string())),
        Err(MavenError::MetadataDecodeError {
            message: "unexpected end of stream".to_string()
        })
    );
}

#[test]
fn transport_failure_is_reported_with_its_cause() {
    assert_eq!(
        after_failure("connection refused".to_string()),
        Err(MavenError::TransportError {
            message: "connection refused".to_string()
        })
    );
}

#[test]
fn repeated_resolution_gives_the_same() {
    for status in [200u16, 401, 404, 500] {
        assert_eq!(after_status(status), after_status(status));
    }
    assert_eq!(
        after_body(Ok(example_metadata())),
        after_body(Ok(example_metadata()))
    );
    assert_eq!(
        after_body(Err("not metadata".to_string())),
        after_body(Err("not metadata".to_string()))
    );
}
