//! The GET requests that resolution and the health check ask for.
//!
//! A request is described here and sent by the caller: the description says
//! where it goes, which credentials and headers it carries and with which
//! identity it has to be signed.

use crate::auth::{
    clone_optional, credentials_view, Auth, AuthView, CredentialSource, Credentials,
    CredentialsView,
};
use crate::config::{clone_pairs, RequestConfig, RequestConfigView};
use crate::params::entries_view;
use crate::uri::optional_text;
use vstd::prelude::*;

verus! {

/// The identity that a request is signed with.
#[derive(Debug, PartialEq, Eq)]
pub struct Signing {
    /// The service namespace that the signature is scoped to.
    pub service: String,
    pub credentials: CredentialSource,
    pub region: Option<String>,
}

/// Mathematical view of a [`Signing`].
pub struct SigningView {
    pub service: Seq<char>,
    pub credentials: CredentialSource,
    pub region: Option<Seq<char>>,
}

impl View for Signing {
    type V = SigningView;

    open spec fn view(&self) -> SigningView {
        SigningView {
            service: self.service@,
            credentials: self.credentials,
            region: optional_text(self.region),
        }
    }
}

/// View of a signing identity that may be absent.
pub open spec fn signing_view(signing: Option<Signing>) -> Option<SigningView> {
    match signing {
        Some(s) => Some(s@),
        None => None,
    }
}

/// A GET request without a body.
#[derive(Debug, PartialEq, Eq)]
pub struct GetRequest {
    /// Where the request goes.
    pub uri: String,
    /// Basic credentials that the request carries.
    pub auth: Option<Credentials>,
    /// Further headers, in their order.
    pub headers: Vec<(String, String)>,
    /// The identity that the request has to be signed with before it is
    /// sent.
    pub signing: Option<Signing>,
}

/// Mathematical view of a [`GetRequest`].
pub struct GetRequestView {
    pub uri: Seq<char>,
    pub auth: Option<CredentialsView>,
    pub headers: Seq<(Seq<char>, Seq<char>)>,
    pub signing: Option<SigningView>,
}

impl View for GetRequest {
    type V = GetRequestView;

    open spec fn view(&self) -> GetRequestView {
        GetRequestView {
            uri: self.uri@,
            auth: credentials_view(self.auth),
            headers: entries_view(self.headers@),
            signing: signing_view(self.signing),
        }
    }
}

/// The service namespace that requests are signed for.
pub open spec fn signing_service() -> Seq<char> {
    "es"@
}

/// The identity that requests to an endpoint are signed with: that of a
/// cloud identity, none for any other authentication.
pub open spec fn signing_of(auth: AuthView) -> Option<SigningView> {
    match auth {
        AuthView::Aws { credentials, region } => Some(
            SigningView { service: signing_service(), credentials, region: Some(region) },
        ),
        _ => None,
    }
}

/// The basic credentials that requests to an endpoint carry.
pub open spec fn basic_of(auth: AuthView) -> Option<CredentialsView> {
    match auth {
        AuthView::Basic { user, password } => Some(CredentialsView { user, password }),
        _ => None,
    }
}

/// The GET request for `path` below `base_url`.
pub open spec fn get_request(
    base_url: Seq<char>,
    auth: AuthView,
    request: RequestConfigView,
    path: Seq<char>,
) -> GetRequestView {
    GetRequestView {
        uri: base_url + path,
        auth: basic_of(auth),
        headers: request.headers,
        signing: signing_of(auth),
    }
}

/// Marks `request` as one that has to be signed with the given identity,
/// for the service namespace `es`. Target, credentials and headers of the
/// request stay as they are.
pub fn sign_request(
    request: &mut GetRequest,
    credentials: &CredentialSource,
    region: &Option<String>,
)
    ensures
        final(request)@.signing == Some(
            SigningView {
                service: signing_service(),
                credentials: *credentials,
                region: optional_text(*region),
            },
        ),
        final(request)@.uri == old(request)@.uri,
        final(request)@.auth == old(request)@.auth,
        final(request)@.headers == old(request)@.headers,
{
    request.signing = Some(
        Signing {
            service: String::from_str("es"),
            credentials: credentials.clone(),
            region: clone_optional(region),
        },
    );
}

/// Describes the GET request for `path` below `base_url`, with the
/// authentication of the endpoint and the headers of the configuration. The
/// request is signed exactly where the authentication is a cloud identity.
pub fn get(base_url: &str, auth: &Auth, request: &RequestConfig, path: &str) -> (r: GetRequest)
    ensures
        r@ == get_request(base_url@, auth@, request@, path@),
{
    let mut described = GetRequest {
        uri: String::from_str(base_url).concat(path),
        auth: match auth {
            Auth::Basic { user, password } => Some(
                Credentials { user: user.clone(), password: password.clone() },
            ),
            _ => None,
        },
        headers: clone_pairs(&request.headers),
        signing: None,
    };
    match auth {
        Auth::Aws { credentials, region } => {
            sign_request(&mut described, credentials, &Some(region.clone()));
        },
        _ => {},
    }
    described
}

} // verus!
