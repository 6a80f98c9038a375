//! The errors of endpoint resolution, of the version probe and of the health
//! check, each with the text shown to an operator.

use crate::text::{decimal, decimal_string};
use vstd::prelude::*;

verus! {

/// A configuration that cannot be resolved. None of these can be recovered
/// from: each one aborts the construction of the sink.
#[derive(Debug, Clone, PartialEq, Eq)]
pub enum ParseError {
    /// The endpoint is not a well-formed URL.
    InvalidHost { host: String },
    /// The endpoint is a well-formed URL but names no host.
    HostMustIncludeHostname { host: String },
    /// Both the deprecated `endpoint` option and `endpoints` are set.
    EndpointsExclusive,
    /// Neither `endpoint` nor `endpoints` is set.
    EndpointRequired,
    /// Cloud-signed authentication is configured and no region is known.
    RegionRequired,
    /// The `auth` option and the credentials written into the endpoint
    /// cannot both apply.
    AuthConflict { host: String },
}

/// Mathematical view of a [`ParseError`].
pub enum ParseErrorView {
    InvalidHost { host: Seq<char> },
    HostMustIncludeHostname { host: Seq<char> },
    EndpointsExclusive,
    EndpointRequired,
    RegionRequired,
    AuthConflict { host: Seq<char> },
}

impl View for ParseError {
    type V = ParseErrorView;

    open spec fn view(&self) -> ParseErrorView {
        match *self {
            ParseError::InvalidHost { host } => ParseErrorView::InvalidHost { host: host@ },
            ParseError::HostMustIncludeHostname { host } => ParseErrorView::HostMustIncludeHostname {
                host: host@,
            },
            ParseError::EndpointsExclusive => ParseErrorView::EndpointsExclusive,
            ParseError::EndpointRequired => ParseErrorView::EndpointRequired,
            ParseError::RegionRequired => ParseErrorView::RegionRequired,
            ParseError::AuthConflict { host } => ParseErrorView::AuthConflict { host: host@ },
        }
    }
}

impl ParseErrorView {
    /// The text of the error. It names the endpoint that failed and the
    /// options that are at odds.
    pub open spec fn message(self) -> Seq<char> {
        match self {
            ParseErrorView::InvalidHost { host } => "Invalid host: "@ + host,
            ParseErrorView::HostMustIncludeHostname { host } => "Host must include hostname: "@
                + host,
            ParseErrorView::EndpointsExclusive =>
                "`endpoint` and `endpoints` options are mutually exclusive. Please use `endpoints` option."@,
            ParseErrorView::EndpointRequired => "`endpoints` option must be specified."@,
            ParseErrorView::RegionRequired =>
                "Cloud-signed `auth` requires a region. Please set a region in `auth` or in `aws`."@,
            ParseErrorView::AuthConflict { host } =>
                "Two authorization credentials were provided: option `auth` conflicts with the credentials in endpoint "@
                + host,
        }
    }
}

impl ParseError {
    /// The text of the error.
    pub fn message(&self) -> (r: String)
        ensures
            r@ == self@.message(),
    {
        match self {
            ParseError::InvalidHost { host } => String::from_str("Invalid host: ").concat(
                host.as_str(),
            ),
            ParseError::HostMustIncludeHostname { host } => String::from_str(
                "Host must include hostname: ",
            ).concat(host.as_str()),
            ParseError::EndpointsExclusive => String::from_str(
                "`endpoint` and `endpoints` options are mutually exclusive. Please use `endpoints` option.",
            ),
            ParseError::EndpointRequired => String::from_str(
                "`endpoints` option must be specified.",
            ),
            ParseError::RegionRequired => String::from_str(
                "Cloud-signed `auth` requires a region. Please set a region in `auth` or in `aws`.",
            ),
            ParseError::AuthConflict { host } => String::from_str(
                "Two authorization credentials were provided: option `auth` conflicts with the credentials in endpoint ",
            ).concat(host.as_str()),
        }
    }
}

/// Why the version probe gave no version. A probe that fails never fails the
/// resolution: the caller falls back to an assumed version and reports this
/// error as a warning.
#[derive(Debug, Clone, PartialEq, Eq)]
pub enum VersionError {
    /// The request could not be sent or no response arrived.
    RequestFailed { error: String },
    /// The server answered with a status outside 200..=299.
    UnexpectedStatus { status: u16 },
    /// The body of the response could not be decoded.
    InvalidBody { error: String },
    /// The body was decoded and holds no `version`.
    MissingVersion,
}

/// Mathematical view of a [`VersionError`].
pub enum VersionErrorView {
    RequestFailed { error: Seq<char> },
    UnexpectedStatus { status: u16 },
    InvalidBody { error: Seq<char> },
    MissingVersion,
}

impl View for VersionError {
    type V = VersionErrorView;

    open spec fn view(&self) -> VersionErrorView {
        match *self {
            VersionError::RequestFailed { error } => VersionErrorView::RequestFailed {
                error: error@,
            },
            VersionError::UnexpectedStatus { status } => VersionErrorView::UnexpectedStatus {
                status,
            },
            VersionError::InvalidBody { error } => VersionErrorView::InvalidBody { error: error@ },
            VersionError::MissingVersion => VersionErrorView::MissingVersion,
        }
    }
}

impl VersionErrorView {
    /// The text of the error.
    pub open spec fn message(self) -> Seq<char> {
        match self {
            VersionErrorView::RequestFailed { error } =>
                "Failed to get Elasticsearch API version: "@ + error,
            VersionErrorView::UnexpectedStatus { status } => "Unexpected status "@ + decimal(
                status as nat,
            ) + " from Elasticsearch endpoint `/_cluster/state/version`."@,
            VersionErrorView::InvalidBody { error } =>
                "Unexpected response from Elasticsearch endpoint `/_cluster/state/version`: "@
                + error,
            VersionErrorView::MissingVersion =>
                "Unexpected response from Elasticsearch endpoint `/_cluster/state/version`. Missing `version`. Consider setting `api_version` option."@,
        }
    }
}

impl VersionError {
    /// The text of the error.
    pub fn message(&self) -> (r: String)
        ensures
            r@ == self@.message(),
    {
        match self {
            VersionError::RequestFailed { error } => String::from_str(
                "Failed to get Elasticsearch API version: ",
            ).concat(error.as_str()),
            VersionError::UnexpectedStatus { status } => {
                let number = decimal_string(*status as u64);
                String::from_str("Unexpected status ").concat(number.as_str()).concat(
                    " from Elasticsearch endpoint `/_cluster/state/version`.",
                )
            },
            VersionError::InvalidBody { error } => String::from_str(
                "Unexpected response from Elasticsearch endpoint `/_cluster/state/version`: ",
            ).concat(error.as_str()),
            VersionError::MissingVersion => String::from_str(
                "Unexpected response from Elasticsearch endpoint `/_cluster/state/version`. Missing `version`. Consider setting `api_version` option.",
            ),
        }
    }
}

/// Why a health check did not succeed. The health check is not retried here:
/// the caller decides what a failure means.
#[derive(Debug, Clone, PartialEq, Eq)]
pub enum HealthcheckError {
    /// The server answered with a status other than 200.
    UnexpectedStatus { status: u16 },
    /// The request could not be sent or no response arrived.
    RequestFailed { error: String },
}

/// Mathematical view of a [`HealthcheckError`].
pub enum HealthcheckErrorView {
    UnexpectedStatus { status: u16 },
    RequestFailed { error: Seq<char> },
}

impl View for HealthcheckError {
    type V = HealthcheckErrorView;

    open spec fn view(&self) -> HealthcheckErrorView {
        match *self {
            HealthcheckError::UnexpectedStatus { status } => HealthcheckErrorView::UnexpectedStatus {
                status,
            },
            HealthcheckError::RequestFailed { error } => HealthcheckErrorView::RequestFailed {
                error: error@,
            },
        }
    }
}

impl HealthcheckErrorView {
    /// The text of the error.
    pub open spec fn message(self) -> Seq<char> {
        match self {
            HealthcheckErrorView::UnexpectedStatus { status } => "Unexpected status: "@ + decimal(
                status as nat,
            ),
            HealthcheckErrorView::RequestFailed { error } => "Health check request failed: "@
                + error,
        }
    }
}

impl HealthcheckError {
    /// The text of the error.
    pub fn message(&self) -> (r: String)
        ensures
            r@ == self@.message(),
    {
        match self {
            HealthcheckError::UnexpectedStatus { status } => {
                let number = decimal_string(*status as u64);
                String::from_str("Unexpected status: ").concat(number.as_str())
            },
            HealthcheckError::RequestFailed { error } => String::from_str(
                "Health check request failed: ",
            ).concat(error.as_str()),
        }
    }
}

} // verus!
