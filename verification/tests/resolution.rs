use elasticsearch_sink::auth::{
    Auth, AwsAuthentication, CredentialSource, Credentials, ElasticsearchAuth,
};
use elasticsearch_sink::common::{
    ElasticsearchCommon, HealthResponse, Parsed, PendingEndpoint, Resolution,
};
use elasticsearch_sink::config::{
    Deprecation, ElasticsearchApiVersion, ElasticsearchConfig, TlsConfig,
};
use elasticsearch_sink::error::{HealthcheckError, ParseError, VersionError};
use elasticsearch_sink::params::QueryParams;
use elasticsearch_sink::request::{get, sign_request, GetRequest, Signing};
use elasticsearch_sink::version::{VersionResponse, VersionWarning};

fn config_with(endpoints: &[&str]) -> ElasticsearchConfig {
    let mut config = ElasticsearchConfig::new();
    config.endpoints = endpoints.iter().map(|e| e.to_string()).collect();
    config
}

fn pair(key: &str, value: &str) -> (String, String) {
    (key.to_string(), value.to_string())
}

fn failed() -> VersionResponse {
    VersionResponse::Failed { error: "connection refused".to_string() }
}

fn done(resolution: Resolution<'_>) -> Vec<ElasticsearchCommon> {
    match resolution {
        Resolution::Done(commons) => commons,
        Resolution::Probe(_) => panic!("no probe expected"),
    }
}

#[test]
fn new_configuration_is_empty() {
    let config = ElasticsearchConfig::new();
    assert_eq!(config.endpoint, None);
    assert!(config.endpoints.is_empty());
    assert_eq!(config.auth, None);
    assert_eq!(config.api_version, ElasticsearchApiVersion::Auto);
    assert!(!config.suppress_type_name);
    assert_eq!(config.doc_type, "_doc");
    assert_eq!(config.request.timeout(), 60);
    assert_eq!(ElasticsearchApiVersion::Auto.number(), None);
    assert_eq!(ElasticsearchApiVersion::V6.number(), Some(6));
    assert_eq!(ElasticsearchApiVersion::V7.number(), Some(7));
    assert_eq!(ElasticsearchApiVersion::V8.number(), Some(8));
}

#[test]
fn both_endpoint_options_are_exclusive() {
    let mut config = config_with(&["http://a:9200"]);
    config.endpoint = Some("http://b:9200".to_string());
    assert_eq!(ElasticsearchCommon::parse_many(&config).err(), Some(ParseError::EndpointsExclusive));
    config.api_version = ElasticsearchApiVersion::V7;
    assert_eq!(ElasticsearchCommon::parse_many(&config).err(), Some(ParseError::EndpointsExclusive));
}

#[test]
fn an_endpoint_is_required() {
    let mut config = ElasticsearchConfig::new();
    assert_eq!(ElasticsearchCommon::parse_many(&config).err(), Some(ParseError::EndpointRequired));
    config.api_version = ElasticsearchApiVersion::V8;
    assert_eq!(ElasticsearchCommon::parse_many(&config).err(), Some(ParseError::EndpointRequired));
}

#[test]
fn explicit_version_needs_no_probe() {
    let mut config = config_with(&["http://a:9200", "http://b:9200/"]);
    config.api_version = ElasticsearchApiVersion::V6;
    let commons = done(ElasticsearchCommon::parse_many(&config).unwrap());
    assert_eq!(commons.len(), 2);
    assert_eq!(commons[0].base_url, "http://a:9200");
    assert_eq!(commons[0].bulk_uri, "http://a:9200/_bulk?timeout=60s");
    assert_eq!(commons[1].base_url, "http://b:9200");
    assert_eq!(commons[1].bulk_uri, "http://b:9200/_bulk?timeout=60s");
    for common in &commons {
        assert_eq!(common.version, 6);
        assert!(!common.request_builder.suppress_type_name);
        assert_eq!(common.request_builder.doc_type, "_doc");
        assert_eq!(common.auth, Auth::Anonymous);
    }
}

#[test]
fn deprecated_endpoint_is_resolved_alone() {
    let mut config = ElasticsearchConfig::new();
    config.endpoint = Some("http://a:9200".to_string());
    config.api_version = ElasticsearchApiVersion::V7;
    let commons = done(ElasticsearchCommon::parse_many(&config).unwrap());
    assert_eq!(commons.len(), 1);
    assert_eq!(commons[0].base_url, "http://a:9200");
    assert_eq!(commons[0].version, 7);
    assert!(commons[0].request_builder.suppress_type_name);
}

#[test]
fn auto_version_asks_for_one_probe_of_the_first_endpoint() {
    let config = config_with(&["http://a:9200", "http://b:9200", "http://c:9200"]);
    let pending = match ElasticsearchCommon::parse_many(&config).unwrap() {
        Resolution::Probe(pending) => pending,
        Resolution::Done(_) => panic!("probe expected"),
    };
    let request = pending.version_request();
    assert_eq!(request.uri, "http://a:9200/_cluster/state/version");
    assert_eq!(request.auth, None);
    assert_eq!(request.signing, None);
    let (commons, warning) =
        pending.resume(&VersionResponse::Decoded { status: 200, version: Some(7) });
    let commons = commons.unwrap();
    assert_eq!(warning, None);
    assert_eq!(commons.len(), 3);
    assert_eq!(commons[0].base_url, "http://a:9200");
    assert_eq!(commons[1].base_url, "http://b:9200");
    assert_eq!(commons[2].base_url, "http://c:9200");
    for common in &commons {
        assert_eq!(common.version, 7);
        assert!(common.request_builder.suppress_type_name);
    }
}

#[test]
fn failed_probe_with_suppressed_type_name_assumes_version_6() {
    let mut config = config_with(&["http://a:9200", "http://b:9200"]);
    config.suppress_type_name = true;
    let pending = match ElasticsearchCommon::parse_many(&config).unwrap() {
        Resolution::Probe(pending) => pending,
        Resolution::Done(_) => panic!("probe expected"),
    };
    let (commons, warning) = pending.resume(&failed());
    let commons = commons.unwrap();
    assert_eq!(commons.len(), 2);
    for common in &commons {
        assert_eq!(common.version, 6);
        assert!(common.request_builder.suppress_type_name);
    }
    assert_eq!(
        warning,
        Some(VersionWarning {
            assumed_version: 6,
            error: VersionError::RequestFailed { error: "connection refused".to_string() }
        })
    );
}

#[test]
fn failed_probe_without_suppressed_type_name_assumes_version_8() {
    let config = config_with(&["http://a:9200", "http://b:9200"]);
    let pending = match ElasticsearchCommon::parse_many(&config).unwrap() {
        Resolution::Probe(pending) => pending,
        Resolution::Done(_) => panic!("probe expected"),
    };
    let (commons, warning) = pending.resume(&failed());
    let commons = commons.unwrap();
    assert_eq!(commons.len(), 2);
    for common in &commons {
        assert_eq!(common.version, 8);
        assert!(common.request_builder.suppress_type_name);
    }
    assert_eq!(warning.map(|w| w.assumed_version), Some(8));
}

#[test]
fn probed_version_6_keeps_the_type_name() {
    let config = config_with(&["http://a:9200"]);
    let common = ElasticsearchCommon::parse_single(
        &config,
        &VersionResponse::Decoded { status: 200, version: Some(6) },
    )
    .unwrap();
    assert_eq!(common.version, 6);
    assert!(!common.request_builder.suppress_type_name);
}

#[test]
fn first_invalid_endpoint_fails_before_the_probe() {
    let config = config_with(&["/path", "http://b:9200"]);
    assert_eq!(
        ElasticsearchCommon::parse_many(&config).err(),
        Some(ParseError::HostMustIncludeHostname { host: "/path".to_string() })
    );
}

#[test]
fn later_invalid_endpoint_fails_the_pass() {
    let config = config_with(&["http://a:9200", "http://b b"]);
    let pending = match ElasticsearchCommon::parse_many(&config).unwrap() {
        Resolution::Probe(pending) => pending,
        Resolution::Done(_) => panic!("probe expected"),
    };
    let (commons, warning) = pending.resume(&failed());
    assert_eq!(commons, Err(ParseError::InvalidHost { host: "http://b b".to_string() }));
    assert_eq!(warning.map(|w| w.assumed_version), Some(8));

    let mut config = config_with(&["http://a:9200", "http://b:9200", "/c", "http://d d"]);
    config.api_version = ElasticsearchApiVersion::V8;
    assert_eq!(
        ElasticsearchCommon::parse_many(&config).err(),
        Some(ParseError::HostMustIncludeHostname { host: "/c".to_string() })
    );
}

#[test]
fn query_parameters_are_merged_into_the_bulk_uri() {
    let mut config = config_with(&["http://a:9200"]);
    config.api_version = ElasticsearchApiVersion::V8;
    let mut query = QueryParams::new();
    query.insert("a".to_string(), "1".to_string());
    config.query = Some(query);
    config.request.timeout_secs = Some(30);
    config.pipeline = Some("p1".to_string());
    let common = ElasticsearchCommon::parse_single(&config, &failed()).unwrap();
    assert_eq!(
        common.query_params.entries().clone(),
        vec![pair("a", "1"), pair("timeout", "30s"), pair("pipeline", "p1")]
    );
    assert_eq!(common.bulk_uri, "http://a:9200/_bulk?a=1&timeout=30s&pipeline=p1");
}

#[test]
fn static_timeout_is_overwritten_in_the_bulk_uri() {
    let mut config = config_with(&["http://a:9200/"]);
    config.api_version = ElasticsearchApiVersion::V8;
    let mut query = QueryParams::new();
    query.insert("timeout".to_string(), "1h".to_string());
    query.insert("refresh".to_string(), "wait for".to_string());
    config.query = Some(query);
    config.request.timeout_secs = Some(30);
    let common = ElasticsearchCommon::parse_single(&config, &failed()).unwrap();
    assert_eq!(common.query_params.get("timeout"), Some(&"30s".to_string()));
    assert_eq!(common.bulk_uri, "http://a:9200/_bulk?timeout=30s&refresh=wait+for");
}

#[test]
fn configuration_is_carried_into_the_descriptor() {
    let mut config = config_with(&["https://a:9243"]);
    config.api_version = ElasticsearchApiVersion::V7;
    config.compression = true;
    config.doc_type = "log".to_string();
    config.tls = Some(TlsConfig {
        verify_certificate: Some(false),
        verify_hostname: None,
        ca_file: Some("/etc/ca.pem".to_string()),
        crt_file: None,
        key_file: None,
        key_pass: None,
    });
    config.request.retry_attempts = Some(3);
    config.request.headers = vec![pair("X-Scope", "one")];
    let common = ElasticsearchCommon::parse_single(&config, &failed()).unwrap();
    assert!(common.request_builder.compression);
    assert_eq!(common.request_builder.doc_type, "log");
    assert_eq!(common.tls_settings, config.tls);
    assert_eq!(common.request, config.request);
}

#[test]
fn embedded_credentials_become_basic_auth() {
    let mut config = config_with(&["https://user:secret@a:9243/"]);
    config.api_version = ElasticsearchApiVersion::V8;
    let common = ElasticsearchCommon::parse_single(&config, &failed()).unwrap();
    assert_eq!(common.base_url, "https://a:9243");
    assert_eq!(
        common.auth,
        Auth::Basic { user: "user".to_string(), password: "secret".to_string() }
    );
}

#[test]
fn cloud_auth_and_embedded_credentials_conflict() {
    let mut config = config_with(&["https://user:secret@a:9243/"]);
    config.api_version = ElasticsearchApiVersion::V8;
    config.auth = Some(ElasticsearchAuth::Aws(AwsAuthentication {
        source: CredentialSource::Default,
        region: Some("us-east-1".to_string()),
    }));
    assert_eq!(
        ElasticsearchCommon::parse_many(&config).err(),
        Some(ParseError::AuthConflict { host: "https://user:secret@a:9243/".to_string() })
    );
    config.api_version = ElasticsearchApiVersion::Auto;
    assert_eq!(
        ElasticsearchCommon::parse_many(&config).err(),
        Some(ParseError::AuthConflict { host: "https://user:secret@a:9243/".to_string() })
    );
}

#[test]
fn cloud_auth_without_region_is_refused() {
    let mut config = config_with(&["https://a:9243"]);
    config.auth = Some(ElasticsearchAuth::Aws(AwsAuthentication {
        source: CredentialSource::Default,
        region: None,
    }));
    assert_eq!(ElasticsearchCommon::parse_many(&config).err(), Some(ParseError::RegionRequired));
}

#[test]
fn parse_config_fills_the_version_slot_once() {
    let mut config = config_with(&[]);
    config.api_version = ElasticsearchApiVersion::V7;
    let mut version = None;
    let first = ElasticsearchCommon::parse_config(&config, "http://a:9200", &mut version).unwrap();
    assert_eq!(version, Some(7));
    match first {
        Parsed::Ready(common) => assert_eq!(common.version, 7),
        Parsed::Probe(_) => panic!("no probe expected"),
    }
    config.api_version = ElasticsearchApiVersion::V8;
    let second = ElasticsearchCommon::parse_config(&config, "http://b:9200", &mut version).unwrap();
    assert_eq!(version, Some(7));
    match second {
        Parsed::Ready(common) => assert_eq!(common.version, 7),
        Parsed::Probe(_) => panic!("no probe expected"),
    }
}

#[test]
fn parse_config_asks_for_a_probe_only_with_an_empty_slot() {
    let config = config_with(&[]);
    let mut version = None;
    let pending = match ElasticsearchCommon::parse_config(&config, "http://a:9200", &mut version) {
        Ok(Parsed::Probe(pending)) => pending,
        _ => panic!("probe expected"),
    };
    assert_eq!(version, None);
    assert_eq!(pending.version_request().uri, "http://a:9200/_cluster/state/version");
    let (common, warning) =
        pending.finish(&VersionResponse::Decoded { status: 200, version: Some(6) }, &mut version);
    assert_eq!(warning, None);
    assert_eq!(common.version, 6);
    assert_eq!(version, Some(6));
    match ElasticsearchCommon::parse_config(&config, "http://b:9200", &mut version) {
        Ok(Parsed::Ready(common)) => assert_eq!(common.version, 6),
        _ => panic!("no probe expected"),
    }
    assert_eq!(version, Some(6));
}

#[test]
fn parse_config_leaves_the_slot_on_error() {
    let config = config_with(&[]);
    let mut version = Some(6);
    assert_eq!(
        ElasticsearchCommon::parse_config(&config, "/path", &mut version),
        Err(ParseError::HostMustIncludeHostname { host: "/path".to_string() })
    );
    assert_eq!(version, Some(6));
}

#[test]
fn finish_keeps_a_version_that_the_slot_holds() {
    let config = config_with(&[]);
    let pending = PendingEndpoint::prepare(&config, "http://a:9200").unwrap();
    let mut version = Some(7);
    let (common, warning) = pending.finish(&failed(), &mut version);
    assert_eq!(common.version, 7);
    assert_eq!(warning, None);
    assert_eq!(version, Some(7));
}

#[test]
fn complete_sets_version_and_type_name() {
    let config = config_with(&[]);
    let pending = PendingEndpoint::prepare(&config, "http://a:9200").unwrap();
    let common = pending.clone().complete(6);
    assert_eq!(common.version, 6);
    assert!(!common.request_builder.suppress_type_name);
    let common = pending.complete(7);
    assert_eq!(common.version, 7);
    assert!(common.request_builder.suppress_type_name);
}

#[test]
fn parse_single_reports_the_error_of_the_endpoint() {
    let config = config_with(&["http://a a"]);
    assert_eq!(
        ElasticsearchCommon::parse_single(&config, &failed()),
        Err(ParseError::InvalidHost { host: "http://a a".to_string() })
    );
    assert_eq!(
        ElasticsearchCommon::parse_single(&ElasticsearchConfig::new(), &failed()),
        Err(ParseError::EndpointRequired)
    );
}

#[test]
fn healthcheck_succeeds_on_status_200_only() {
    let mut config = config_with(&["http://a:9200"]);
    config.api_version = ElasticsearchApiVersion::V8;
    let common = ElasticsearchCommon::parse_single(&config, &failed()).unwrap();
    assert_eq!(common.healthcheck_request().uri, "http://a:9200/_cluster/health");
    assert_eq!(common.clone().healthcheck(&HealthResponse::Status { status: 200 }), Ok(()));
    assert_eq!(
        common.clone().healthcheck(&HealthResponse::Status { status: 503 }),
        Err(HealthcheckError::UnexpectedStatus { status: 503 })
    );
    assert_eq!(
        common.clone().healthcheck(&HealthResponse::Status { status: 201 }),
        Err(HealthcheckError::UnexpectedStatus { status: 201 })
    );
    assert_eq!(
        common.healthcheck(&HealthResponse::Failed { error: "reset".to_string() }),
        Err(HealthcheckError::RequestFailed { error: "reset".to_string() })
    );
}

#[test]
fn get_request_carries_basic_credentials_and_headers() {
    let mut config = config_with(&["http://a:9200"]);
    config.request.headers = vec![pair("X-One", "1"), pair("X-Two", "2")];
    let auth = Auth::Basic { user: "u".to_string(), password: "p".to_string() };
    let request = get("http://a:9200", &auth, &config.request, "/_cluster/health");
    assert_eq!(
        request,
        GetRequest {
            uri: "http://a:9200/_cluster/health".to_string(),
            auth: Some(Credentials { user: "u".to_string(), password: "p".to_string() }),
            headers: vec![pair("X-One", "1"), pair("X-Two", "2")],
            signing: None,
        }
    );
}

#[test]
fn get_request_is_signed_for_a_cloud_identity_only() {
    let config = config_with(&[]);
    let auth = Auth::Aws {
        credentials: CredentialSource::Role { assume_role: "writer".to_string() },
        region: "us-east-1".to_string(),
    };
    let request = get("https://a", &auth, &config.request, "/_cluster/state/version");
    assert_eq!(request.uri, "https://a/_cluster/state/version");
    assert_eq!(request.auth, None);
    assert_eq!(
        request.signing,
        Some(Signing {
            service: "es".to_string(),
            credentials: CredentialSource::Role { assume_role: "writer".to_string() },
            region: Some("us-east-1".to_string()),
        })
    );
    let request = get("https://a", &Auth::Anonymous, &config.request, "/x");
    assert_eq!(request.signing, None);
    assert_eq!(request.auth, None);
}

#[test]
fn sign_request_changes_the_identity_only() {
    let mut request = GetRequest {
        uri: "https://a/x".to_string(),
        auth: None,
        headers: vec![pair("X-One", "1")],
        signing: None,
    };
    sign_request(&mut request, &CredentialSource::Default, &None);
    assert_eq!(
        request,
        GetRequest {
            uri: "https://a/x".to_string(),
            auth: None,
            headers: vec![pair("X-One", "1")],
            signing: Some(Signing {
                service: "es".to_string(),
                credentials: CredentialSource::Default,
                region: None,
            }),
        }
    );
}

#[test]
fn deprecated_options_are_reported() {
    let mut config = config_with(&["http://a:9200"]);
    assert_eq!(config.deprecations(), vec![]);
    config.suppress_type_name = true;
    assert_eq!(config.deprecations(), vec![Deprecation::SuppressTypeName]);
    config.endpoint = Some("http://b:9200".to_string());
    assert_eq!(
        config.deprecations(),
        vec![Deprecation::Endpoint, Deprecation::SuppressTypeName]
    );
    assert_eq!(
        Deprecation::Endpoint.message(),
        "DEPRECATION, use of deprecated option `endpoint`. Please use `endpoints` option instead."
    );
    assert_eq!(
        Deprecation::SuppressTypeName.message(),
        "DEPRECATION, use of deprecated option `suppress_type_name`. Please use `api_version` option instead."
    );
}
