use elasticsearch_sink::error::{HealthcheckError, ParseError};
use elasticsearch_sink::mock::{DataType, PanicSourceConfig};

#[test]
fn parse_errors_name_the_endpoint_and_the_options() {
    assert_eq!(
        ParseError::InvalidHost { host: "http://exa mple".to_string() }.message(),
        "Invalid host: http://exa mple"
    );
    assert_eq!(
        ParseError::HostMustIncludeHostname { host: "/path".to_string() }.message(),
        "Host must include hostname: /path"
    );
    assert_eq!(
        ParseError::EndpointsExclusive.message(),
        "`endpoint` and `endpoints` options are mutually exclusive. Please use `endpoints` option."
    );
    assert_eq!(ParseError::EndpointRequired.message(), "`endpoints` option must be specified.");
    assert_eq!(
        ParseError::RegionRequired.message(),
        "Cloud-signed `auth` requires a region. Please set a region in `auth` or in `aws`."
    );
    assert_eq!(
        ParseError::AuthConflict { host: "http://u:p@h".to_string() }.message(),
        "Two authorization credentials were provided: option `auth` conflicts with the credentials in endpoint http://u:p@h"
    );
}

#[test]
fn healthcheck_errors_have_a_text() {
    assert_eq!(
        HealthcheckError::UnexpectedStatus { status: 503 }.message(),
        "Unexpected status: 503"
    );
    assert_eq!(
        HealthcheckError::RequestFailed { error: "reset".to_string() }.message(),
        "Health check request failed: reset"
    );
}

#[test]
fn panic_source_has_one_log_output_and_no_acknowledgements() {
    let config = PanicSourceConfig::default();
    assert_eq!(config.outputs(), vec![DataType::Log]);
    assert!(!config.can_acknowledge());
    let other = PanicSourceConfig::new(Some("x".to_string()));
    assert_ne!(config, other);
    assert_eq!(other.outputs(), vec![DataType::Log]);
    assert!(!other.can_acknowledge());
    assert_eq!(PanicSourceConfig::new(None), config);
}
