//! The configuration of the sink, as far as the resolution of its endpoints
//! reads it.

use crate::auth::{clone_optional, ElasticsearchAuth, RegionOrEndpoint};
use crate::params::{entries_view, QueryParams};
use vstd::prelude::*;

verus! {

/// The request timeout that applies where none is configured, in seconds.
pub const DEFAULT_TIMEOUT_SECS: u64 = 60;

/// The API version of the server: given, or to be detected.
#[derive(Debug, Clone, Copy, PartialEq, Eq)]
pub enum ElasticsearchApiVersion {
    /// Ask the server.
    Auto,
    V6,
    V7,
    V8,
}

impl ElasticsearchApiVersion {
    /// The major version that the setting names. `Auto` names none.
    pub open spec fn explicit(self) -> Option<usize> {
        match self {
            ElasticsearchApiVersion::Auto => None,
            ElasticsearchApiVersion::V6 => Some(6),
            ElasticsearchApiVersion::V7 => Some(7),
            ElasticsearchApiVersion::V8 => Some(8),
        }
    }

    /// The major version that the setting names.
    pub fn number(&self) -> (r: Option<usize>)
        ensures
            r == self.explicit(),
    {
        match self {
            ElasticsearchApiVersion::Auto => None,
            ElasticsearchApiVersion::V6 => Some(6),
            ElasticsearchApiVersion::V7 => Some(7),
            ElasticsearchApiVersion::V8 => Some(8),
        }
    }
}

/// TLS options. They are carried into the descriptor unread: the caller
/// builds the TLS settings from them.
#[derive(Debug, PartialEq, Eq)]
pub struct TlsConfig {
    pub verify_certificate: Option<bool>,
    pub verify_hostname: Option<bool>,
    pub ca_file: Option<String>,
    pub crt_file: Option<String>,
    pub key_file: Option<String>,
    pub key_pass: Option<String>,
}

impl Clone for TlsConfig {
    fn clone(&self) -> (r: Self)
        ensures
            r == *self,
    {
        TlsConfig {
            verify_certificate: self.verify_certificate,
            verify_hostname: self.verify_hostname,
            ca_file: clone_optional(&self.ca_file),
            crt_file: clone_optional(&self.crt_file),
            key_file: clone_optional(&self.key_file),
            key_pass: clone_optional(&self.key_pass),
        }
    }
}

/// Copy of TLS options that may be absent.
pub fn clone_tls(tls: &Option<TlsConfig>) -> (r: Option<TlsConfig>)
    ensures
        r == *tls,
{
    match tls {
        Some(t) => Some(t.clone()),
        None => None,
    }
}

/// Timeout, retry settings and extra headers of the requests of the sink.
#[derive(Debug, PartialEq, Eq)]
pub struct RequestConfig {
    /// Time after which a request is given up, in seconds.
    pub timeout_secs: Option<u64>,
    pub retry_attempts: Option<usize>,
    pub retry_initial_backoff_secs: Option<u64>,
    pub retry_max_duration_secs: Option<u64>,
    /// Headers that every request carries, in their order.
    pub headers: Vec<(String, String)>,
}

/// Mathematical view of a [`RequestConfig`].
pub struct RequestConfigView {
    pub timeout_secs: Option<u64>,
    pub retry_attempts: Option<usize>,
    pub retry_initial_backoff_secs: Option<u64>,
    pub retry_max_duration_secs: Option<u64>,
    pub headers: Seq<(Seq<char>, Seq<char>)>,
}

impl View for RequestConfig {
    type V = RequestConfigView;

    open spec fn view(&self) -> RequestConfigView {
        RequestConfigView {
            timeout_secs: self.timeout_secs,
            retry_attempts: self.retry_attempts,
            retry_initial_backoff_secs: self.retry_initial_backoff_secs,
            retry_max_duration_secs: self.retry_max_duration_secs,
            headers: entries_view(self.headers@),
        }
    }
}

/// Copy of a list of pairs.
pub fn clone_pairs(pairs: &Vec<(String, String)>) -> (r: Vec<(String, String)>)
    ensures
        entries_view(r@) == entries_view(pairs@),
{
    let n = pairs.len();
    let mut copy: Vec<(String, String)> = Vec::new();
    let mut i: usize = 0;
    while i < n
        invariant
            n == pairs.len(),
            i <= n,
            copy@.len() == i,
            forall|j: int| 0 <= j < i ==> copy@[j] == pairs@[j],
        decreases n - i,
    {
        copy.push((pairs[i].0.clone(), pairs[i].1.clone()));
        i += 1;
    }
    assert(entries_view(copy@) =~= entries_view(pairs@));
    copy
}

impl Clone for RequestConfig {
    fn clone(&self) -> (r: Self)
        ensures
            r@ == self@,
    {
        RequestConfig {
            timeout_secs: self.timeout_secs,
            retry_attempts: self.retry_attempts,
            retry_initial_backoff_secs: self.retry_initial_backoff_secs,
            retry_max_duration_secs: self.retry_max_duration_secs,
            headers: clone_pairs(&self.headers),
        }
    }
}

impl RequestConfigView {
    /// The request timeout in whole seconds: the configured one, or the
    /// default.
    pub open spec fn timeout(self) -> u64 {
        match self.timeout_secs {
            Some(secs) => secs,
            None => DEFAULT_TIMEOUT_SECS,
        }
    }
}

impl RequestConfig {
    /// The settings that apply where nothing is configured.
    pub fn new() -> (r: RequestConfig)
        ensures
            r.timeout_secs is None,
            r.retry_attempts is None,
            r.retry_initial_backoff_secs is None,
            r.retry_max_duration_secs is None,
            r.headers@.len() == 0,
    {
        RequestConfig {
            timeout_secs: None,
            retry_attempts: None,
            retry_initial_backoff_secs: None,
            retry_max_duration_secs: None,
            headers: Vec::new(),
        }
    }

    /// The request timeout in whole seconds.
    pub fn timeout(&self) -> (r: u64)
        ensures
            r == self@.timeout(),
    {
        match self.timeout_secs {
            Some(secs) => secs,
            None => DEFAULT_TIMEOUT_SECS,
        }
    }
}

/// The configuration of the sink. It is supplied once and never changed by
/// the resolution.
#[derive(Debug, Clone, PartialEq, Eq)]
pub struct ElasticsearchConfig {
    /// The single endpoint of older configurations. Deprecated: use
    /// `endpoints`.
    pub endpoint: Option<String>,
    /// The endpoints to send to.
    pub endpoints: Vec<String>,
    pub auth: Option<ElasticsearchAuth>,
    pub aws: Option<RegionOrEndpoint>,
    pub tls: Option<TlsConfig>,
    /// Name of the ingest pipeline.
    pub pipeline: Option<String>,
    /// Query parameters that every bulk request carries.
    pub query: Option<QueryParams>,
    pub request: RequestConfig,
    pub api_version: ElasticsearchApiVersion,
    /// Whether the `_type` field is left out of the documents. Deprecated:
    /// set `api_version`.
    pub suppress_type_name: bool,
    pub doc_type: String,
    pub compression: bool,
}

impl ElasticsearchConfig {
    /// A configuration without endpoints, in which nothing else is set
    /// either: the API version is detected and documents have the type
    /// `_doc`.
    pub fn new() -> (r: ElasticsearchConfig)
        ensures
            r.endpoint is None,
            r.endpoints@.len() == 0,
            r.auth is None,
            r.aws is None,
            r.tls is None,
            r.pipeline is None,
            r.query is None,
            r.request.timeout_secs is None,
            r.request.headers@.len() == 0,
            r.api_version is Auto,
            !r.suppress_type_name,
            r.doc_type@ == "_doc"@,
            !r.compression,
    {
        ElasticsearchConfig {
            endpoint: None,
            endpoints: Vec::new(),
            auth: None,
            aws: None,
            tls: None,
            pipeline: None,
            query: None,
            request: RequestConfig::new(),
            api_version: ElasticsearchApiVersion::Auto,
            suppress_type_name: false,
            doc_type: String::from_str("_doc"),
            compression: false,
        }
    }
}

/// An option that still works and should no longer be used.
#[derive(Debug, Clone, Copy, PartialEq, Eq)]
pub enum Deprecation {
    /// The `endpoint` option: `endpoints` takes its place.
    Endpoint,
    /// The `suppress_type_name` option: `api_version` takes its place.
    SuppressTypeName,
}

impl Deprecation {
    /// The text of the notice.
    pub open spec fn message_text(self) -> Seq<char> {
        match self {
            Deprecation::Endpoint =>
                "DEPRECATION, use of deprecated option `endpoint`. Please use `endpoints` option instead."@,
            Deprecation::SuppressTypeName =>
                "DEPRECATION, use of deprecated option `suppress_type_name`. Please use `api_version` option instead."@,
        }
    }

    /// The text of the notice.
    pub fn message(&self) -> (r: String)
        ensures
            r@ == self.message_text(),
    {
        match self {
            Deprecation::Endpoint => String::from_str(
                "DEPRECATION, use of deprecated option `endpoint`. Please use `endpoints` option instead.",
            ),
            Deprecation::SuppressTypeName => String::from_str(
                "DEPRECATION, use of deprecated option `suppress_type_name`. Please use `api_version` option instead.",
            ),
        }
    }
}

/// The deprecated options that a configuration uses: `endpoint` where it is
/// set, then `suppress_type_name` where it is set.
pub open spec fn deprecated_options(config: ElasticsearchConfig) -> Seq<Deprecation> {
    let endpoint = if config.endpoint is Some {
        seq![Deprecation::Endpoint]
    } else {
        Seq::empty()
    };
    if config.suppress_type_name {
        endpoint.push(Deprecation::SuppressTypeName)
    } else {
        endpoint
    }
}

impl ElasticsearchConfig {
    /// The deprecated options that the configuration uses. The caller
    /// warns about each.
    pub fn deprecations(&self) -> (r: Vec<Deprecation>)
        ensures
            r@ == deprecated_options(*self),
    {
        let mut used = Vec::new();
        if self.endpoint.is_some() {
            used.push(Deprecation::Endpoint);
        }
        if self.suppress_type_name {
            used.push(Deprecation::SuppressTypeName);
        }
        assert(used@ =~= deprecated_options(*self));
        used
    }
}

} // verus!
