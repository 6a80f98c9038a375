//! Resolution of a configuration into one client descriptor per endpoint.
//!
//! An endpoint is resolved in two parts. Everything that the configuration
//! alone decides comes first: the endpoint is validated, its authentication
//! is chosen, the query parameters are merged and the bulk URL is written.
//! The API version comes second. It is taken from the version slot of the
//! pass or from the configuration; where neither holds one, the caller is
//! asked to send the version probe and resolution goes on with the answer.
//! The slot is filled once, so a pass asks for one probe at most and all its
//! descriptors carry one version.

use crate::auth::{resolve_auth, resolved_auth, Auth, AuthView};
use crate::config::{clone_tls, ElasticsearchConfig, RequestConfig, RequestConfigView, TlsConfig};
use crate::error::{HealthcheckError, HealthcheckErrorView, ParseError, ParseErrorView};
use crate::params::{distinct_keys, merge_query, merged_query, query_string, QueryParams};
use crate::request::{get, get_request, GetRequest};
use crate::uri::{endpoint_uri, optional_text, EndpointUri};
use crate::version::{
    decide_version, probe_warning, suppress_type_name, suppresses_type_name, version_after_probe,
    warning_view, VersionResponse, VersionResponseView, VersionWarning,
};
use vstd::prelude::*;

verus! {

/// How documents are encoded for an endpoint.
#[derive(Debug, Clone, PartialEq, Eq)]
pub struct ElasticsearchRequestBuilder {
    pub compression: bool,
    pub doc_type: String,
    /// Whether documents are written without the `_type` field.
    pub suppress_type_name: bool,
}

/// The resolved client descriptor of one endpoint. It is made once and
/// never changed; it refers neither to the configuration nor to the
/// descriptors of other endpoints.
#[derive(Debug, Clone, PartialEq, Eq)]
pub struct ElasticsearchCommon {
    /// The endpoint without credentials and without slashes at its end.
    pub base_url: String,
    /// Where bulk requests go: the base URL, `/_bulk` and the query
    /// parameters.
    pub bulk_uri: String,
    pub auth: Auth,
    pub request_builder: ElasticsearchRequestBuilder,
    pub tls_settings: Option<TlsConfig>,
    pub request: RequestConfig,
    pub query_params: QueryParams,
    /// The major version of the API that the descriptor was resolved for.
    pub version: usize,
}

/// Mathematical view of an [`ElasticsearchCommon`].
pub struct ElasticsearchCommonView {
    pub base_url: Seq<char>,
    pub bulk_uri: Seq<char>,
    pub auth: AuthView,
    pub compression: bool,
    pub doc_type: Seq<char>,
    pub suppress_type_name: bool,
    pub tls_settings: Option<TlsConfig>,
    pub request: RequestConfigView,
    pub query_params: Seq<(Seq<char>, Seq<char>)>,
    pub version: usize,
}

impl View for ElasticsearchCommon {
    type V = ElasticsearchCommonView;

    open spec fn view(&self) -> ElasticsearchCommonView {
        ElasticsearchCommonView {
            base_url: self.base_url@,
            bulk_uri: self.bulk_uri@,
            auth: self.auth@,
            compression: self.request_builder.compression,
            doc_type: self.request_builder.doc_type@,
            suppress_type_name: self.request_builder.suppress_type_name,
            tls_settings: self.tls_settings,
            request: self.request@,
            query_params: self.query_params@,
            version: self.version,
        }
    }
}

/// An endpoint that is resolved but for its API version.
#[derive(Debug, Clone, PartialEq, Eq)]
pub struct PendingEndpoint {
    pub base_url: String,
    pub bulk_uri: String,
    pub auth: Auth,
    pub tls_settings: Option<TlsConfig>,
    pub request: RequestConfig,
    pub query_params: QueryParams,
    pub compression: bool,
    pub doc_type: String,
    /// The `suppress_type_name` option of the configuration.
    pub suppress_type_name: bool,
}

/// Mathematical view of a [`PendingEndpoint`].
pub struct PendingEndpointView {
    pub base_url: Seq<char>,
    pub bulk_uri: Seq<char>,
    pub auth: AuthView,
    pub tls_settings: Option<TlsConfig>,
    pub request: RequestConfigView,
    pub query_params: Seq<(Seq<char>, Seq<char>)>,
    pub compression: bool,
    pub doc_type: Seq<char>,
    pub suppress_type_name: bool,
}

impl View for PendingEndpoint {
    type V = PendingEndpointView;

    open spec fn view(&self) -> PendingEndpointView {
        PendingEndpointView {
            base_url: self.base_url@,
            bulk_uri: self.bulk_uri@,
            auth: self.auth@,
            tls_settings: self.tls_settings,
            request: self.request@,
            query_params: self.query_params@,
            compression: self.compression,
            doc_type: self.doc_type@,
            suppress_type_name: self.suppress_type_name,
        }
    }
}

impl PendingEndpointView {
    /// The descriptor of the endpoint for a version.
    pub open spec fn completed(self, version: usize) -> ElasticsearchCommonView {
        ElasticsearchCommonView {
            base_url: self.base_url,
            bulk_uri: self.bulk_uri,
            auth: self.auth,
            compression: self.compression,
            doc_type: self.doc_type,
            suppress_type_name: suppresses_type_name(self.suppress_type_name, version),
            tls_settings: self.tls_settings,
            request: self.request,
            query_params: self.query_params,
            version,
        }
    }
}

/// The path of the version probe.
pub open spec fn version_path() -> Seq<char> {
    "/_cluster/state/version"@
}

/// The path of the health check.
pub open spec fn health_path() -> Seq<char> {
    "/_cluster/health"@
}

/// The query parameters of the bulk URL of a configuration.
pub open spec fn config_query(config: ElasticsearchConfig) -> Seq<(Seq<char>, Seq<char>)> {
    merged_query(
        match config.query {
            Some(q) => q@,
            None => Seq::empty(),
        },
        config.request@.timeout(),
        optional_text(config.pipeline),
    )
}

/// The bulk URL: the base URL, the bulk path and the query string.
pub open spec fn bulk_url(base_url: Seq<char>, query: Seq<(Seq<char>, Seq<char>)>) -> Seq<char> {
    base_url + "/_bulk?"@ + query_string(query)
}

/// What the configuration alone decides about an endpoint, or the error
/// that it is refused with. The endpoint is validated first, then its
/// authentication is chosen.
pub open spec fn prepared(config: ElasticsearchConfig, endpoint: Seq<char>) -> Result<
    PendingEndpointView,
    ParseErrorView,
> {
    match endpoint_uri(endpoint) {
        Err(e) => Err(e),
        Ok(uri) => match resolved_auth(config.auth, config.aws, uri.auth, endpoint) {
            Err(e) => Err(e),
            Ok(auth) => Ok(
                PendingEndpointView {
                    base_url: uri.base_url,
                    bulk_uri: bulk_url(uri.base_url, config_query(config)),
                    auth,
                    tls_settings: config.tls,
                    request: config.request@,
                    query_params: config_query(config),
                    compression: config.compression,
                    doc_type: config.doc_type@,
                    suppress_type_name: config.suppress_type_name,
                },
            ),
        },
    }
}

/// The descriptor of an endpoint for a version, or the error that the
/// endpoint is refused with.
pub open spec fn resolved(config: ElasticsearchConfig, endpoint: Seq<char>, version: usize) -> Result<
    ElasticsearchCommonView,
    ParseErrorView,
> {
    match prepared(config, endpoint) {
        Err(e) => Err(e),
        Ok(pending) => Ok(pending.completed(version)),
    }
}

/// The version that is known without a probe: that of the slot, else that
/// of the configuration.
pub open spec fn known_version(config: ElasticsearchConfig, slot: Option<usize>) -> Option<usize> {
    match slot {
        Some(version) => Some(version),
        None => config.api_version.explicit(),
    }
}

/// What the resolution of one endpoint came to.
#[derive(Debug, Clone, PartialEq, Eq)]
pub enum Parsed {
    /// The endpoint is resolved.
    Ready(ElasticsearchCommon),
    /// The version is not known. The caller sends the request that
    /// [`PendingEndpoint::version_request`] describes and hands the
    /// response to [`PendingEndpoint::finish`].
    Probe(PendingEndpoint),
}

impl PendingEndpoint {
    /// Resolves what the configuration alone decides about `endpoint`.
    pub fn prepare(config: &ElasticsearchConfig, endpoint: &str) -> (r: Result<
        PendingEndpoint,
        ParseError,
    >)
        ensures
            match r {
                Ok(pending) => prepared(*config, endpoint@) == Ok::<
                    PendingEndpointView,
                    ParseErrorView,
                >(pending@),
                Err(e) => prepared(*config, endpoint@) == Err::<
                    PendingEndpointView,
                    ParseErrorView,
                >(e@),
            },
    {
        let EndpointUri { base_url, auth: embedded } = match EndpointUri::parse(endpoint) {
            Ok(uri) => uri,
            Err(e) => {
                return Err(e);
            },
        };
        let auth = match resolve_auth(&config.auth, &config.aws, embedded, endpoint) {
            Ok(auth) => auth,
            Err(e) => {
                return Err(e);
            },
        };
        let query_params = merge_query(
            match &config.query {
                Some(q) => Some(q),
                None => None,
            },
            config.request.timeout(),
            &config.pipeline,
        );
        let query = query_params.to_query_string();
        let bulk_uri = base_url.clone().concat("/_bulk?").concat(query.as_str());
        Ok(
            PendingEndpoint {
                base_url,
                bulk_uri,
                auth,
                tls_settings: clone_tls(&config.tls),
                request: config.request.clone(),
                query_params,
                compression: config.compression,
                doc_type: config.doc_type.clone(),
                suppress_type_name: config.suppress_type_name,
            },
        )
    }

    /// The descriptor of the endpoint for `version`.
    pub fn complete(self, version: usize) -> (r: ElasticsearchCommon)
        ensures
            r@ == self@.completed(version),
    {
        let suppress = suppress_type_name(self.suppress_type_name, version);
        ElasticsearchCommon {
            base_url: self.base_url,
            bulk_uri: self.bulk_uri,
            auth: self.auth,
            request_builder: ElasticsearchRequestBuilder {
                compression: self.compression,
                doc_type: self.doc_type,
                suppress_type_name: suppress,
            },
            tls_settings: self.tls_settings,
            request: self.request,
            query_params: self.query_params,
            version,
        }
    }

    /// The version probe: a GET of `/_cluster/state/version` below the base
    /// URL, with the authentication of the endpoint.
    pub fn version_request(&self) -> (r: GetRequest)
        ensures
            r@ == get_request(self@.base_url, self@.auth, self@.request, version_path()),
    {
        get(self.base_url.as_str(), &self.auth, &self.request, "/_cluster/state/version")
    }

    /// Finishes the endpoint with the response to the version probe. A
    /// probe that failed does not fail the endpoint: the version is then
    /// assumed, and the failure is returned as a warning. Where the slot
    /// holds a version already, that version stands and the response is not
    /// read. The slot holds the version of the descriptor afterwards.
    pub fn finish(self, response: &VersionResponse, version: &mut Option<usize>) -> (r: (
        ElasticsearchCommon,
        Option<VersionWarning>,
    ))
        ensures
            r.0@ == self@.completed(r.0.version),
            *final(version) == Some(r.0.version),
            match *old(version) {
                Some(v) => r.0.version == v && r.1 is None,
                None => r.0.version == version_after_probe(response@, self.suppress_type_name)
                    && warning_view(r.1) == probe_warning(response@, self.suppress_type_name),
            },
    {
        let (decided, warning) = match *version {
            Some(v) => (v, None),
            None => decide_version(response, self.suppress_type_name),
        };
        *version = Some(decided);
        (self.complete(decided), warning)
    }
}

/// The endpoints of a list, as text.
pub open spec fn endpoint_texts(endpoints: Seq<String>) -> Seq<Seq<char>> {
    Seq::new(endpoints.len(), |i: int| endpoints[i]@)
}

/// The endpoints that a configuration names. The deprecated `endpoint`
/// option and the `endpoints` list exclude each other, and one of them must
/// be set.
pub open spec fn configured_endpoints(config: ElasticsearchConfig) -> Result<
    Seq<Seq<char>>,
    ParseErrorView,
> {
    match config.endpoint {
        Some(endpoint) => if config.endpoints@.len() == 0 {
            Ok(seq![endpoint@])
        } else {
            Err(ParseErrorView::EndpointsExclusive)
        },
        None => if config.endpoints@.len() == 0 {
            Err(ParseErrorView::EndpointRequired)
        } else {
            Ok(endpoint_texts(config.endpoints@))
        },
    }
}

/// The descriptors of `endpoints` for one version, in their order, or the
/// error of the first endpoint that is refused.
pub open spec fn resolved_all(
    config: ElasticsearchConfig,
    endpoints: Seq<Seq<char>>,
    version: usize,
) -> Result<Seq<ElasticsearchCommonView>, ParseErrorView>
    decreases endpoints.len(),
{
    if endpoints.len() == 0 {
        Ok(Seq::empty())
    } else {
        match resolved_all(config, endpoints.drop_last(), version) {
            Err(e) => Err(e),
            Ok(commons) => match resolved(config, endpoints.last(), version) {
                Err(e) => Err(e),
                Ok(common) => Ok(commons.push(common)),
            },
        }
    }
}

/// The views of a list of descriptors.
pub open spec fn commons_view(commons: Seq<ElasticsearchCommon>) -> Seq<ElasticsearchCommonView> {
    Seq::new(commons.len(), |i: int| commons[i]@)
}

/// A resolution pass that waits for the response to its version probe.
#[derive(Debug)]
pub struct PendingResolution<'a> {
    config: &'a ElasticsearchConfig,
    first: PendingEndpoint,
}

/// What a resolution pass came to before any request was sent.
#[derive(Debug)]
pub enum Resolution<'a> {
    /// All endpoints are resolved.
    Done(Vec<ElasticsearchCommon>),
    /// The version is not known. The caller sends the request that
    /// [`PendingResolution::version_request`] describes and hands the
    /// response to [`PendingResolution::resume`].
    Probe(PendingResolution<'a>),
}

/// What came back from the health check, a GET of `/_cluster/health`.
#[derive(Debug, Clone, PartialEq, Eq)]
pub enum HealthResponse {
    /// The request could not be sent, or no response arrived.
    Failed { error: String },
    /// A response arrived with this status.
    Status { status: u16 },
}

/// Mathematical view of a [`HealthResponse`].
pub enum HealthResponseView {
    Failed { error: Seq<char> },
    Status { status: u16 },
}

impl View for HealthResponse {
    type V = HealthResponseView;

    open spec fn view(&self) -> HealthResponseView {
        match *self {
            HealthResponse::Failed { error } => HealthResponseView::Failed { error: error@ },
            HealthResponse::Status { status } => HealthResponseView::Status { status },
        }
    }
}

/// The outcome of a health check: success where the status is 200 and
/// nothing else.
pub open spec fn health_of(response: HealthResponseView) -> Result<(), HealthcheckErrorView> {
    match response {
        HealthResponseView::Failed { error } => Err(HealthcheckErrorView::RequestFailed { error }),
        HealthResponseView::Status { status } => if status == 200 {
            Ok(())
        } else {
            Err(HealthcheckErrorView::UnexpectedStatus { status })
        },
    }
}

impl ElasticsearchCommon {
    /// Resolves one endpoint of a configuration.
    ///
    /// The endpoint is validated and its authentication chosen, the query
    /// parameters are merged and the bulk URL is written. The version is
    /// that of the slot; where the slot is empty, that of the
    /// configuration, which then fills the slot. Where neither holds one
    /// the result is `Probe` and the slot stays empty. An endpoint that is
    /// refused leaves the slot as it was.
    pub fn parse_config(
        config: &ElasticsearchConfig,
        endpoint: &str,
        version: &mut Option<usize>,
    ) -> (r: Result<Parsed, ParseError>)
        ensures
            match r {
                Err(e) => prepared(*config, endpoint@) == Err::<
                    PendingEndpointView,
                    ParseErrorView,
                >(e@) && *final(version) == *old(version),
                Ok(Parsed::Ready(common)) => known_version(*config, *old(version)) == Some(
                    common.version,
                ) && resolved(*config, endpoint@, common.version) == Ok::<
                    ElasticsearchCommonView,
                    ParseErrorView,
                >(common@) && *final(version) == Some(common.version),
                Ok(Parsed::Probe(pending)) => known_version(*config, *old(version)) is None
                    && prepared(*config, endpoint@) == Ok::<PendingEndpointView, ParseErrorView>(
                    pending@,
                ) && *final(version) is None,
            },
    {
        let pending = match PendingEndpoint::prepare(config, endpoint) {
            Ok(pending) => pending,
            Err(e) => {
                return Err(e);
            },
        };
        let known = match *version {
            Some(v) => Some(v),
            None => config.api_version.number(),
        };
        match known {
            Some(v) => {
                *version = Some(v);
                Ok(Parsed::Ready(pending.complete(v)))
            },
            None => Ok(Parsed::Probe(pending)),
        }
    }

    /// Resolves the endpoints of `endpoints` from position `start` on, for a
    /// version that is known, and appends their descriptors to `commons`.
    fn parse_rest(
        config: &ElasticsearchConfig,
        endpoints: &Vec<String>,
        start: usize,
        commons: Vec<ElasticsearchCommon>,
        version: usize,
    ) -> (r: Result<Vec<ElasticsearchCommon>, ParseError>)
        requires
            start <= endpoints@.len(),
        ensures
            match r {
                Ok(all) => resolved_all(*config, endpoint_texts(endpoints@).skip(start as int), version)
                    matches Ok(rest) && commons_view(all@) == commons_view(commons@) + rest,
                Err(e) => resolved_all(*config, endpoint_texts(endpoints@).skip(start as int), version)
                    == Err::<Seq<ElasticsearchCommonView>, ParseErrorView>(e@),
            },
    {
        let ghost texts = endpoint_texts(endpoints@).skip(start as int);
        let ghost before = commons_view(commons@);
        let n = endpoints.len();
        let mut commons = commons;
        let mut slot = Some(version);
        let mut i: usize = start;
        assert(commons_view(commons@) =~= before + Seq::<ElasticsearchCommonView>::empty());
        assert(texts.take(0) =~= Seq::<Seq<char>>::empty());
        while i < n
            invariant
                n == endpoints@.len(),
                start <= i <= n,
                slot == Some(version),
                texts == endpoint_texts(endpoints@).skip(start as int),
                resolved_all(*config, texts.take(i - start), version) matches Ok(rest)
                    && commons_view(commons@) == before + rest,
            decreases n - i,
        {
            proof {
                assert(texts.take(i + 1 - start).drop_last() =~= texts.take(i - start));
                assert(texts.take(i + 1 - start).last() == endpoints@[i as int]@);
            }
            let ghost so_far = commons_view(commons@);
            match Self::parse_config(config, endpoints[i].as_str(), &mut slot) {
                Err(e) => {
                    proof {
                        lemma_resolved_all_fails(*config, texts, i + 1 - start, version);
                    }
                    return Err(e);
                },
                Ok(Parsed::Ready(common)) => {
                    commons.push(common);
                    assert(commons_view(commons@) =~= so_far.push(common@));
                },
                Ok(Parsed::Probe(_)) => {
                    assert(false);
                },
            }
            i += 1;
        }
        assert(texts.take(n - start) =~= texts);
        Ok(commons)
    }

    /// Resolves all endpoints of a configuration, as far as that is
    /// possible without sending a request.
    ///
    /// A configuration with both `endpoint` and `endpoints`, or with
    /// neither, is refused. With a version in the configuration the result
    /// is `Done` with one descriptor per endpoint, in the order of the
    /// endpoints, or the error of the first endpoint that is refused. With
    /// a version that is to be detected the first endpoint is resolved up
    /// to its version, and the result is `Probe`, or the error of that
    /// endpoint. A list of descriptors is never empty.
    pub fn parse_many<'a>(config: &'a ElasticsearchConfig) -> (r: Result<
        Resolution<'a>,
        ParseError,
    >)
        ensures
            (r matches Ok(Resolution::Probe(_))) <==> probes_of(*config) == 1,
            match r {
                Err(e) => match configured_endpoints(*config) {
                    Err(refused) => e@ == refused,
                    Ok(endpoints) => match config.api_version.explicit() {
                        Some(version) => resolved_all(*config, endpoints, version) == Err::<
                            Seq<ElasticsearchCommonView>,
                            ParseErrorView,
                        >(e@),
                        None => prepared(*config, endpoints[0]) == Err::<
                            PendingEndpointView,
                            ParseErrorView,
                        >(e@),
                    },
                },
                Ok(Resolution::Done(commons)) => configured_endpoints(*config) matches Ok(endpoints)
                    && config.api_version.explicit() matches Some(version) && resolved_all(
                    *config,
                    endpoints,
                    version,
                ) == Ok::<Seq<ElasticsearchCommonView>, ParseErrorView>(commons_view(commons@))
                    && commons@.len() == endpoints.len() && commons@.len() > 0,
                Ok(Resolution::Probe(pending)) => configured_endpoints(*config) matches Ok(
                    endpoints,
                ) && config.api_version.explicit() is None && pending.config() == *config
                    && prepared(*config, endpoints[0]) == Ok::<PendingEndpointView, ParseErrorView>(
                    pending.first(),
                ),
            },
    {
        let mut version = None;
        let first = match &config.endpoint {
            Some(endpoint) => {
                if config.endpoints.len() != 0 {
                    return Err(ParseError::EndpointsExclusive);
                }
                Self::parse_config(config, endpoint.as_str(), &mut version)
            },
            None => {
                if config.endpoints.len() == 0 {
                    return Err(ParseError::EndpointRequired);
                }
                Self::parse_config(config, config.endpoints[0].as_str(), &mut version)
            },
        };
        let ghost endpoints = configured_endpoints(*config)->Ok_0;
        match first {
            Err(e) => {
                proof {
                    match config.api_version.explicit() {
                        Some(v) => {
                            assert(endpoints.take(0) =~= Seq::<Seq<char>>::empty());
                            lemma_resolved_all_fails(*config, endpoints, 1, v);
                        },
                        None => {},
                    }
                }
                Err(e)
            },
            Ok(Parsed::Probe(first)) => Ok(Resolution::Probe(PendingResolution { config, first })),
            Ok(Parsed::Ready(common)) => {
                let resolved_version = common.version;
                let mut commons = Vec::new();
                commons.push(common);
                let start: usize = if config.endpoint.is_some() {
                    0
                } else {
                    1
                };
                proof {
                    assert(endpoints.skip(1) =~= endpoint_texts(config.endpoints@).skip(
                        start as int,
                    ));
                    lemma_resolved_all_split(*config, endpoints, resolved_version);
                    assert(commons_view(commons@) =~= seq![common@]);
                }
                match Self::parse_rest(config, &config.endpoints, start, commons, resolved_version) {
                    Ok(all) => {
                        proof {
                            lemma_resolved_all_len(*config, endpoints, resolved_version);
                        }
                        Ok(Resolution::Done(all))
                    },
                    Err(e) => Err(e),
                }
            },
        }
    }
}

/// What a resolution pass gives in the end: one descriptor per endpoint, all
/// for one version, or the error that the configuration is refused with.
/// The version is that of the configuration; where it is to be detected,
/// the version that follows from `response`, the response to the probe.
pub open spec fn pass(config: ElasticsearchConfig, response: VersionResponseView) -> Result<
    Seq<ElasticsearchCommonView>,
    ParseErrorView,
> {
    match configured_endpoints(config) {
        Err(e) => Err(e),
        Ok(endpoints) => resolved_all(config, endpoints, pass_version(config, response)),
    }
}

/// The number of version probes that a resolution pass asks for: one where
/// the version is to be detected and the first endpoint is accepted, else
/// none.
pub open spec fn probes_of(config: ElasticsearchConfig) -> nat {
    match configured_endpoints(config) {
        Err(_) => 0,
        Ok(endpoints) => if config.api_version.explicit() is None && prepared(
            config,
            endpoints[0],
        ) is Ok {
            1
        } else {
            0
        },
    }
}

/// The version of a resolution pass.
pub open spec fn pass_version(config: ElasticsearchConfig, response: VersionResponseView) -> usize {
    match config.api_version.explicit() {
        Some(version) => version,
        None => version_after_probe(response, config.suppress_type_name),
    }
}

impl<'a> PendingResolution<'a> {
    #[verifier::type_invariant]
    spec fn first_is_prepared(&self) -> bool {
        &&& self.config.api_version.explicit() is None
        &&& configured_endpoints(*self.config) matches Ok(endpoints)
        &&& prepared(*self.config, endpoints[0]) == Ok::<PendingEndpointView, ParseErrorView>(
            self.first@,
        )
    }

    /// The configuration that is resolved.
    pub closed spec fn config(&self) -> ElasticsearchConfig {
        *self.config
    }

    /// The first endpoint, resolved but for its version.
    pub closed spec fn first(&self) -> PendingEndpointView {
        self.first@
    }

    /// The version probe of the pass: a GET of `/_cluster/state/version`
    /// below the base URL of the first endpoint, with its authentication.
    pub fn version_request(&self) -> (r: GetRequest)
        ensures
            r@ == get_request(
                self.first().base_url,
                self.first().auth,
                self.first().request,
                version_path(),
            ),
    {
        self.first.version_request()
    }

    /// Finishes the pass with the response to the version probe.
    ///
    /// The version is the one that the server reported, else the assumed
    /// one; a probe that failed is returned as a warning and fails nothing.
    /// All endpoints are resolved for that version, in their order. The
    /// result is one descriptor per endpoint, or the error of the first
    /// endpoint that is refused. No further probe is asked for.
    pub fn resume(self, response: &VersionResponse) -> (r: (
        Result<Vec<ElasticsearchCommon>, ParseError>,
        Option<VersionWarning>,
    ))
        ensures
            match r.0 {
                Ok(commons) => pass(self.config(), response@) == Ok::<
                    Seq<ElasticsearchCommonView>,
                    ParseErrorView,
                >(commons_view(commons@)) && commons@.len() > 0,
                Err(e) => pass(self.config(), response@) == Err::<
                    Seq<ElasticsearchCommonView>,
                    ParseErrorView,
                >(e@),
            },
            self.config().api_version.explicit() is None,
            warning_view(r.1) == probe_warning(response@, self.config().suppress_type_name),
    {
        proof {
            use_type_invariant(&self);
        }
        let config = self.config;
        let ghost endpoints = configured_endpoints(*config)->Ok_0;
        let mut slot = None;
        let (common, warning) = self.first.finish(response, &mut slot);
        let version = common.version;
        let mut commons = Vec::new();
        commons.push(common);
        let start: usize = if config.endpoint.is_some() {
            0
        } else {
            1
        };
        proof {
            assert(endpoints.skip(1) =~= endpoint_texts(config.endpoints@).skip(start as int));
            lemma_resolved_all_split(*config, endpoints, version);
            assert(commons_view(commons@) =~= seq![common@]);
        }
        match ElasticsearchCommon::parse_rest(config, &config.endpoints, start, commons, version) {
            Ok(all) => {
                proof {
                    lemma_resolved_all_len(*config, endpoints, version);
                }
                (Ok(all), warning)
            },
            Err(e) => (Err(e), warning),
        }
    }
}

impl ElasticsearchCommon {
    /// Resolves a configuration that names one endpoint, with `response`
    /// as the response to the version probe. The response is read only
    /// where the version is to be detected; a warning that the probe
    /// leaves behind is dropped.
    pub fn parse_single(config: &ElasticsearchConfig, response: &VersionResponse) -> (r: Result<
        ElasticsearchCommon,
        ParseError,
    >)
        requires
            configured_endpoints(*config) matches Ok(endpoints) ==> endpoints.len() == 1,
        ensures
            match r {
                Ok(common) => pass(*config, response@) == Ok::<
                    Seq<ElasticsearchCommonView>,
                    ParseErrorView,
                >(seq![common@]),
                Err(e) => pass(*config, response@) == Err::<
                    Seq<ElasticsearchCommonView>,
                    ParseErrorView,
                >(e@),
            },
    {
        let resolution = match Self::parse_many(config) {
            Ok(resolution) => resolution,
            Err(e) => {
                proof {
                    match configured_endpoints(*config) {
                        Ok(endpoints) => {
                            assert(endpoints.take(0) =~= Seq::<Seq<char>>::empty());
                            lemma_resolved_all_fails(
                                *config,
                                endpoints,
                                1,
                                pass_version(*config, response@),
                            );
                        },
                        Err(_) => {},
                    }
                }
                return Err(e);
            },
        };
        let mut commons = match resolution {
            Resolution::Done(commons) => commons,
            Resolution::Probe(pending) => match pending.resume(response).0 {
                Ok(commons) => commons,
                Err(e) => {
                    return Err(e);
                },
            },
        };
        proof {
            lemma_resolved_all_len(
                *config,
                configured_endpoints(*config)->Ok_0,
                pass_version(*config, response@),
            );
        }
        let common = commons.remove(0);
        assert(pass(*config, response@)->Ok_0 =~= seq![common@]);
        Ok(common)
    }

    /// The health check of the endpoint: a GET of `/_cluster/health` below
    /// its base URL, with its authentication.
    pub fn healthcheck_request(&self) -> (r: GetRequest)
        ensures
            r@ == get_request(self@.base_url, self@.auth, self@.request, health_path()),
    {
        get(self.base_url.as_str(), &self.auth, &self.request, "/_cluster/health")
    }

    /// Judges the response to the health check. The endpoint is healthy
    /// where the status is 200. Any other status is an unexpected status,
    /// and a request that failed is reported as such.
    pub fn healthcheck(self, response: &HealthResponse) -> (r: Result<(), HealthcheckError>)
        ensures
            match r {
                Ok(_) => health_of(response@) is Ok,
                Err(e) => health_of(response@) == Err::<(), HealthcheckErrorView>(e@),
            },
    {
        match response {
            HealthResponse::Failed { error } => Err(
                HealthcheckError::RequestFailed { error: error.clone() },
            ),
            HealthResponse::Status { status } => {
                if *status == 200 {
                    Ok(())
                } else {
                    Err(HealthcheckError::UnexpectedStatus { status: *status })
                }
            },
        }
    }
}

/// An endpoint that is refused fails every list that it is the first
/// refused endpoint of.
proof fn lemma_resolved_all_fails(
    config: ElasticsearchConfig,
    endpoints: Seq<Seq<char>>,
    upto: int,
    version: usize,
)
    requires
        0 < upto <= endpoints.len(),
        resolved_all(config, endpoints.take(upto - 1), version) is Ok,
        prepared(config, endpoints[upto - 1]) is Err,
    ensures
        resolved_all(config, endpoints, version) == Err::<
            Seq<ElasticsearchCommonView>,
            ParseErrorView,
        >(prepared(config, endpoints[upto - 1])->Err_0),
    decreases endpoints.len() - upto,
{
    assert(endpoints.take(upto).drop_last() =~= endpoints.take(upto - 1));
    if upto == endpoints.len() {
        assert(endpoints.take(upto) =~= endpoints);
    } else {
        lemma_resolved_all_prefix_fails(config, endpoints, upto, version);
    }
}

/// A list fails with the error of a prefix of it that fails.
proof fn lemma_resolved_all_prefix_fails(
    config: ElasticsearchConfig,
    endpoints: Seq<Seq<char>>,
    upto: int,
    version: usize,
)
    requires
        0 <= upto <= endpoints.len(),
        resolved_all(config, endpoints.take(upto), version) is Err,
    ensures
        resolved_all(config, endpoints, version) == resolved_all(
            config,
            endpoints.take(upto),
            version,
        ),
    decreases endpoints.len() - upto,
{
    if upto == endpoints.len() {
        assert(endpoints.take(upto) =~= endpoints);
    } else {
        assert(endpoints.take(upto + 1).drop_last() =~= endpoints.take(upto));
        lemma_resolved_all_prefix_fails(config, endpoints, upto + 1, version);
    }
}

/// The descriptors of a list are that of its first endpoint followed by
/// those of the others.
pub proof fn lemma_resolved_all_split(
    config: ElasticsearchConfig,
    endpoints: Seq<Seq<char>>,
    version: usize,
)
    requires
        endpoints.len() > 0,
        resolved(config, endpoints[0], version) is Ok,
    ensures
        resolved_all(config, endpoints, version) == match resolved_all(
            config,
            endpoints.skip(1),
            version,
        ) {
            Err(e) => Err::<Seq<ElasticsearchCommonView>, ParseErrorView>(e),
            Ok(rest) => Ok(seq![resolved(config, endpoints[0], version)->Ok_0] + rest),
        },
    decreases endpoints.len(),
{
    let first = resolved(config, endpoints[0], version)->Ok_0;
    if endpoints.len() == 1 {
        assert(endpoints.drop_last() =~= Seq::<Seq<char>>::empty());
        assert(endpoints.skip(1) =~= Seq::<Seq<char>>::empty());
        assert(Seq::<ElasticsearchCommonView>::empty().push(first) =~= seq![first]
            + Seq::<ElasticsearchCommonView>::empty());
    } else {
        let shorter = endpoints.drop_last();
        lemma_resolved_all_split(config, shorter, version);
        assert(shorter.skip(1) =~= endpoints.skip(1).drop_last());
        assert(endpoints.skip(1).last() == endpoints.last());
        match resolved_all(config, shorter.skip(1), version) {
            Err(_) => {},
            Ok(rest) => {
                match resolved(config, endpoints.last(), version) {
                    Err(_) => {},
                    Ok(common) => {
                        assert((seq![first] + rest).push(common) =~= seq![first] + rest.push(
                            common,
                        ));
                    },
                }
            },
        }
    }
}

/// A list that resolves gives one descriptor per endpoint, each for the
/// version that was asked for.
pub proof fn lemma_resolved_all_len(
    config: ElasticsearchConfig,
    endpoints: Seq<Seq<char>>,
    version: usize,
)
    requires
        resolved_all(config, endpoints, version) is Ok,
    ensures
        resolved_all(config, endpoints, version)->Ok_0.len() == endpoints.len(),
        forall|i: int|
            0 <= i < endpoints.len() ==> resolved(config, endpoints[i], version) == Ok::<
                ElasticsearchCommonView,
                ParseErrorView,
            >(#[trigger] resolved_all(config, endpoints, version)->Ok_0[i]),
        forall|i: int|
            0 <= i < endpoints.len() ==> (#[trigger] resolved_all(
                config,
                endpoints,
                version,
            )->Ok_0[i]).version == version,
    decreases endpoints.len(),
{
    if endpoints.len() > 0 {
        lemma_resolved_all_len(config, endpoints.drop_last(), version);
    }
}

/// Whether an endpoint is accepted does not depend on the version, and
/// neither does the error that it is refused with.
pub proof fn lemma_resolved_all_any_version(
    config: ElasticsearchConfig,
    endpoints: Seq<Seq<char>>,
    one: usize,
    other: usize,
)
    ensures
        resolved_all(config, endpoints, one) is Ok <==> resolved_all(config, endpoints, other)
            is Ok,
        resolved_all(config, endpoints, one) is Err ==> resolved_all(config, endpoints, one)->Err_0
            == resolved_all(config, endpoints, other)->Err_0,
    decreases endpoints.len(),
{
    if endpoints.len() > 0 {
        lemma_resolved_all_any_version(config, endpoints.drop_last(), one, other);
    }
}

/// An error of the resolution of endpoints is one of an endpoint: it is
/// never one of the two errors on the choice between `endpoint` and
/// `endpoints`.
pub proof fn lemma_resolved_all_errors(
    config: ElasticsearchConfig,
    endpoints: Seq<Seq<char>>,
    version: usize,
)
    ensures
        resolved_all(config, endpoints, version) matches Err(e) ==> !(e
            is EndpointsExclusive) && !(e is EndpointRequired),
    decreases endpoints.len(),
{
    if endpoints.len() > 0 {
        lemma_resolved_all_errors(config, endpoints.drop_last(), version);
    }
}

/// A configuration with both the deprecated `endpoint` and a list of
/// `endpoints` is refused because the two exclude each other, and one with
/// neither because an endpoint is required. A pass fails with these errors
/// on no other configuration.
pub proof fn lemma_endpoints_exclusive(config: ElasticsearchConfig, response: VersionResponseView)
    ensures
        pass(config, response) == Err::<Seq<ElasticsearchCommonView>, ParseErrorView>(
            ParseErrorView::EndpointsExclusive,
        ) <==> (config.endpoint is Some && config.endpoints@.len() > 0),
        pass(config, response) == Err::<Seq<ElasticsearchCommonView>, ParseErrorView>(
            ParseErrorView::EndpointRequired,
        ) <==> (config.endpoint is None && config.endpoints@.len() == 0),
{
    match configured_endpoints(config) {
        Ok(endpoints) => {
            lemma_resolved_all_errors(config, endpoints, pass_version(config, response));
        },
        Err(_) => {},
    }
}

/// A pass that succeeds gives one descriptor for each endpoint, at least
/// one, in the order of the endpoints, and all of them carry the version of
/// the pass.
pub proof fn lemma_pass_one_version(config: ElasticsearchConfig, response: VersionResponseView)
    requires
        pass(config, response) is Ok,
    ensures
        configured_endpoints(config) is Ok,
        pass(config, response)->Ok_0.len() == configured_endpoints(config)->Ok_0.len(),
        pass(config, response)->Ok_0.len() > 0,
        forall|i: int|
            0 <= i < pass(config, response)->Ok_0.len() ==> (#[trigger] pass(
                config,
                response,
            )->Ok_0[i]).version == pass_version(config, response),
        forall|i: int|
            0 <= i < pass(config, response)->Ok_0.len() ==> resolved(
                config,
                configured_endpoints(config)->Ok_0[i],
                pass_version(config, response),
            ) == Ok::<ElasticsearchCommonView, ParseErrorView>(
                #[trigger] pass(config, response)->Ok_0[i],
            ),
{
    let endpoints = configured_endpoints(config)->Ok_0;
    lemma_resolved_all_len(config, endpoints, pass_version(config, response));
}

/// A pass asks for one version probe at most. It asks for one exactly
/// where the version is to be detected and the first endpoint is accepted,
/// however many endpoints there are.
pub proof fn lemma_one_probe(config: ElasticsearchConfig)
    ensures
        probes_of(config) <= 1,
        config.api_version.explicit() is Some ==> probes_of(config) == 0,
        (config.api_version.explicit() is None && configured_endpoints(config) is Ok && prepared(
            config,
            configured_endpoints(config)->Ok_0[0],
        ) is Ok) ==> probes_of(config) == 1,
{
}

/// The response to the version probe decides the version and nothing
/// else: a pass succeeds on one response where it succeeds on another, and
/// fails with the same error. Where the version is to be detected and the
/// probe fails, the version of the pass is 6 for a configuration that
/// leaves out the `_type` field and 8 for any other.
pub proof fn lemma_probe_failure_is_not_fatal(
    config: ElasticsearchConfig,
    response: VersionResponseView,
    other: VersionResponseView,
)
    ensures
        pass(config, response) is Ok <==> pass(config, other) is Ok,
        pass(config, response) is Err ==> pass(config, response)->Err_0 == pass(
            config,
            other,
        )->Err_0,
        (config.api_version.explicit() is None && crate::version::probed_version(response) is Err)
            ==> pass_version(config, response) == if config.suppress_type_name {
            6usize
        } else {
            8usize
        },
{
    match configured_endpoints(config) {
        Ok(endpoints) => {
            lemma_resolved_all_any_version(
                config,
                endpoints,
                pass_version(config, response),
                pass_version(config, other),
            );
        },
        Err(_) => {},
    }
}

/// An endpoint with credentials written into it is refused where the
/// configuration asks for a cloud identity: a descriptor never carries
/// both.
pub proof fn lemma_cloud_and_basic_conflict(config: ElasticsearchConfig, endpoint: Seq<char>)
    requires
        config.auth matches Some(crate::auth::ElasticsearchAuth::Aws(_)),
        endpoint_uri(endpoint) is Ok,
        endpoint_uri(endpoint)->Ok_0.auth is Some,
    ensures
        prepared(config, endpoint) == Err::<PendingEndpointView, ParseErrorView>(
            ParseErrorView::AuthConflict { host: endpoint },
        ),
{
}

/// A health check succeeds on the status 200 and on no other response. Any
/// other status is reported as that unexpected status.
pub proof fn lemma_health(response: HealthResponseView)
    ensures
        health_of(response) is Ok <==> response == (HealthResponseView::Status { status: 200 }),
        (response is Status && response->status != 200) ==> health_of(response) == Err::<
            (),
            HealthcheckErrorView,
        >(HealthcheckErrorView::UnexpectedStatus { status: response->status }),
{
}

} // verus!
