use elasticsearch_sink::error::VersionError;
use elasticsearch_sink::version::{
    decide_version, get_version, suppress_type_name, VersionResponse, VersionWarning,
};

#[test]
fn version_is_read_from_a_decoded_body() {
    assert_eq!(get_version(&VersionResponse::Decoded { status: 200, version: Some(7) }), Ok(7));
    assert_eq!(get_version(&VersionResponse::Decoded { status: 204, version: Some(8) }), Ok(8));
    assert_eq!(get_version(&VersionResponse::Decoded { status: 299, version: Some(6) }), Ok(6));
}

#[test]
fn failed_request_gives_no_version() {
    assert_eq!(
        get_version(&VersionResponse::Failed { error: "connection refused".to_string() }),
        Err(VersionError::RequestFailed { error: "connection refused".to_string() })
    );
}

#[test]
fn unexpected_status_gives_no_version() {
    assert_eq!(
        get_version(&VersionResponse::Decoded { status: 503, version: Some(7) }),
        Err(VersionError::UnexpectedStatus { status: 503 })
    );
    assert_eq!(
        get_version(&VersionResponse::Decoded { status: 300, version: Some(7) }),
        Err(VersionError::UnexpectedStatus { status: 300 })
    );
    assert_eq!(
        get_version(&VersionResponse::Decoded { status: 199, version: None }),
        Err(VersionError::UnexpectedStatus { status: 199 })
    );
    assert_eq!(
        get_version(&VersionResponse::Undecodable { status: 401, error: "eof".to_string() }),
        Err(VersionError::UnexpectedStatus { status: 401 })
    );
}

#[test]
fn malformed_body_gives_no_version() {
    assert_eq!(
        get_version(&VersionResponse::Undecodable { status: 200, error: "eof".to_string() }),
        Err(VersionError::InvalidBody { error: "eof".to_string() })
    );
}

#[test]
fn missing_version_gives_no_version() {
    assert_eq!(
        get_version(&VersionResponse::Decoded { status: 200, version: None }),
        Err(VersionError::MissingVersion)
    );
}

#[test]
fn probed_version_is_used() {
    let response = VersionResponse::Decoded { status: 200, version: Some(7) };
    assert_eq!(decide_version(&response, false), (7, None));
    assert_eq!(decide_version(&response, true), (7, None));
}

#[test]
fn failed_probe_assumes_version_6_with_suppressed_type_name() {
    let response = VersionResponse::Failed { error: "timed out".to_string() };
    assert_eq!(
        decide_version(&response, true),
        (
            6,
            Some(VersionWarning {
                assumed_version: 6,
                error: VersionError::RequestFailed { error: "timed out".to_string() }
            })
        )
    );
}

#[test]
fn failed_probe_assumes_version_8_without_suppressed_type_name() {
    let response = VersionResponse::Failed { error: "timed out".to_string() };
    assert_eq!(
        decide_version(&response, false),
        (
            8,
            Some(VersionWarning {
                assumed_version: 8,
                error: VersionError::RequestFailed { error: "timed out".to_string() }
            })
        )
    );
    let response = VersionResponse::Decoded { status: 200, version: None };
    assert_eq!(
        decide_version(&response, false),
        (8, Some(VersionWarning { assumed_version: 8, error: VersionError::MissingVersion }))
    );
}

#[test]
fn type_name_is_suppressed_from_version_7_on() {
    assert!(!suppress_type_name(false, 6));
    assert!(suppress_type_name(false, 7));
    assert!(suppress_type_name(false, 8));
    assert!(suppress_type_name(true, 6));
    assert!(suppress_type_name(true, 8));
    assert!(!suppress_type_name(false, 0));
}

#[test]
fn warning_names_the_assumed_version_and_the_error() {
    let warning = VersionWarning {
        assumed_version: 8,
        error: VersionError::RequestFailed { error: "timed out".to_string() },
    };
    assert_eq!(
        warning.message(),
        "Failed to determine Elasticsearch version from `/_cluster/state/version`. Please fix the reported error or set an API version explicitly via `api_version`. Assumed version: 8. Error: Failed to get Elasticsearch API version: timed out"
    );
}

#[test]
fn version_errors_have_a_text() {
    assert_eq!(
        VersionError::RequestFailed { error: "boom".to_string() }.message(),
        "Failed to get Elasticsearch API version: boom"
    );
    assert_eq!(
        VersionError::UnexpectedStatus { status: 503 }.message(),
        "Unexpected status 503 from Elasticsearch endpoint `/_cluster/state/version`."
    );
    assert_eq!(
        VersionError::InvalidBody { error: "eof".to_string() }.message(),
        "Unexpected response from Elasticsearch endpoint `/_cluster/state/version`: eof"
    );
    assert_eq!(
        VersionError::MissingVersion.message(),
        "Unexpected response from Elasticsearch endpoint `/_cluster/state/version`. Missing `version`. Consider setting `api_version` option."
    );
}
