//! The API version of the server: what the version probe returned, and the
//! version that is assumed where the probe gave none.
//!
//! The probe is a best effort. A request that fails, an unexpected status, a
//! body that cannot be decoded or that holds no version: none of these stops
//! the sink from starting. The version is then guessed from the
//! configuration, and the failure is handed back as a warning.

use crate::error::{VersionError, VersionErrorView};
use crate::text::{decimal, decimal_string};
use vstd::prelude::*;

verus! {

/// The latest major version of the API that is known.
pub const LATEST_VERSION: usize = 8;

/// The last major version in which documents carry a `_type` field.
pub const LAST_TYPED_VERSION: usize = 6;

/// What came back from the version probe, a GET of
/// `/_cluster/state/version`. The caller sends the request and decodes the
/// body.
#[derive(Debug, Clone, PartialEq, Eq)]
pub enum VersionResponse {
    /// The request could not be sent, or no response arrived.
    Failed { error: String },
    /// A response arrived whose body could not be decoded.
    Undecodable { status: u16, error: String },
    /// A response arrived and its body was decoded. The body need not hold
    /// a version.
    Decoded { status: u16, version: Option<usize> },
}

/// Mathematical view of a [`VersionResponse`].
pub enum VersionResponseView {
    Failed { error: Seq<char> },
    Undecodable { status: u16, error: Seq<char> },
    Decoded { status: u16, version: Option<usize> },
}

impl View for VersionResponse {
    type V = VersionResponseView;

    open spec fn view(&self) -> VersionResponseView {
        match *self {
            VersionResponse::Failed { error } => VersionResponseView::Failed { error: error@ },
            VersionResponse::Undecodable { status, error } => VersionResponseView::Undecodable {
                status,
                error: error@,
            },
            VersionResponse::Decoded { status, version } => VersionResponseView::Decoded {
                status,
                version,
            },
        }
    }
}

/// Whether a status is one of success: 200 to 299.
pub open spec fn is_success(status: u16) -> bool {
    200 <= status < 300
}

/// The version that a probe gave, or why it gave none.
pub open spec fn probed_version(response: VersionResponseView) -> Result<usize, VersionErrorView> {
    match response {
        VersionResponseView::Failed { error } => Err(VersionErrorView::RequestFailed { error }),
        VersionResponseView::Undecodable { status, error } => if is_success(status) {
            Err(VersionErrorView::InvalidBody { error })
        } else {
            Err(VersionErrorView::UnexpectedStatus { status })
        },
        VersionResponseView::Decoded { status, version } => if is_success(status) {
            match version {
                Some(v) => Ok(v),
                None => Err(VersionErrorView::MissingVersion),
            }
        } else {
            Err(VersionErrorView::UnexpectedStatus { status })
        },
    }
}

/// The version that is assumed where the probe gave none. Leaving out the
/// `_type` field is only valid up to version 6, so a configuration that
/// asks for it is taken to need version 6; any other, the latest.
pub open spec fn assumed_version(suppress_type_name: bool) -> usize {
    if suppress_type_name {
        LAST_TYPED_VERSION
    } else {
        LATEST_VERSION
    }
}

/// The version that resolution goes on with after a probe.
pub open spec fn version_after_probe(
    response: VersionResponseView,
    suppress_type_name: bool,
) -> usize {
    match probed_version(response) {
        Ok(version) => version,
        Err(_) => assumed_version(suppress_type_name),
    }
}

/// Whether documents are written without the `_type` field: where the
/// configuration asks for it, and from version 7 on.
pub open spec fn suppresses_type_name(suppress_type_name: bool, version: usize) -> bool {
    suppress_type_name || version >= 7
}

/// Reads the version out of the response to the version probe.
pub fn get_version(response: &VersionResponse) -> (r: Result<usize, VersionError>)
    ensures
        match r {
            Ok(version) => probed_version(response@) == Ok::<usize, VersionErrorView>(version),
            Err(e) => probed_version(response@) == Err::<usize, VersionErrorView>(e@),
        },
{
    match response {
        VersionResponse::Failed { error } => Err(
            VersionError::RequestFailed { error: error.clone() },
        ),
        VersionResponse::Undecodable { status, error } => {
            if 200 <= *status && *status < 300 {
                Err(VersionError::InvalidBody { error: error.clone() })
            } else {
                Err(VersionError::UnexpectedStatus { status: *status })
            }
        },
        VersionResponse::Decoded { status, version } => {
            if 200 <= *status && *status < 300 {
                match version {
                    Some(v) => Ok(*v),
                    None => Err(VersionError::MissingVersion),
                }
            } else {
                Err(VersionError::UnexpectedStatus { status: *status })
            }
        },
    }
}

/// The notice that the version was assumed: the version that resolution
/// went on with, and the failure of the probe.
#[derive(Debug, Clone, PartialEq, Eq)]
pub struct VersionWarning {
    pub assumed_version: usize,
    pub error: VersionError,
}

/// Mathematical view of a [`VersionWarning`].
pub struct VersionWarningView {
    pub assumed_version: usize,
    pub error: VersionErrorView,
}

impl View for VersionWarning {
    type V = VersionWarningView;

    open spec fn view(&self) -> VersionWarningView {
        VersionWarningView { assumed_version: self.assumed_version, error: self.error@ }
    }
}

impl VersionWarningView {
    /// The text of the warning. It holds the assumed version and the text
    /// of the failure.
    pub open spec fn message(self) -> Seq<char> {
        "Failed to determine Elasticsearch version from `/_cluster/state/version`. Please fix the reported error or set an API version explicitly via `api_version`. Assumed version: "@
            + decimal(self.assumed_version as nat) + ". Error: "@ + self.error.message()
    }
}

impl VersionWarning {
    /// The text of the warning.
    pub fn message(&self) -> (r: String)
        ensures
            r@ == self@.message(),
    {
        let number = decimal_string(self.assumed_version as u64);
        let error = self.error.message();
        String::from_str(
            "Failed to determine Elasticsearch version from `/_cluster/state/version`. Please fix the reported error or set an API version explicitly via `api_version`. Assumed version: ",
        ).concat(number.as_str()).concat(". Error: ").concat(error.as_str())
    }
}

/// The warning that a probe leaves behind: none where it gave a version.
pub open spec fn probe_warning(
    response: VersionResponseView,
    suppress_type_name: bool,
) -> Option<VersionWarningView> {
    match probed_version(response) {
        Ok(_) => None,
        Err(error) => Some(
            VersionWarningView { assumed_version: assumed_version(suppress_type_name), error },
        ),
    }
}

/// View of a warning that may be absent.
pub open spec fn warning_view(warning: Option<VersionWarning>) -> Option<VersionWarningView> {
    match warning {
        Some(w) => Some(w@),
        None => None,
    }
}

/// Decides the version after a probe: the version that the server
/// reported, else the assumed one together with a warning. This never
/// fails.
pub fn decide_version(response: &VersionResponse, suppress_type_name: bool) -> (r: (
    usize,
    Option<VersionWarning>,
))
    ensures
        r.0 == version_after_probe(response@, suppress_type_name),
        warning_view(r.1) == probe_warning(response@, suppress_type_name),
{
    match get_version(response) {
        Ok(version) => (version, None),
        Err(error) => {
            let assumed_version = if suppress_type_name {
                LAST_TYPED_VERSION
            } else {
                LATEST_VERSION
            };
            (assumed_version, Some(VersionWarning { assumed_version, error }))
        },
    }
}

/// Whether documents are written without the `_type` field.
pub fn suppress_type_name(flag: bool, version: usize) -> (r: bool)
    ensures
        r == suppresses_type_name(flag, version),
{
    flag || version >= 7
}

/// A probe that fails leaves version 6 where the configuration asks to
/// leave out the `_type` field and version 8 where it does not.
pub proof fn lemma_failed_probe_assumes(response: VersionResponseView, suppress_type_name: bool)
    requires
        probed_version(response) is Err,
    ensures
        version_after_probe(response, suppress_type_name) == if suppress_type_name {
            6usize
        } else {
            8usize
        },
        probe_warning(response, suppress_type_name) is Some,
{
}

} // verus!
