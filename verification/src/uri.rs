//! Endpoint URLs: validation, the credentials written into them, and the
//! base URL that requests are sent to.

use crate::auth::{Credentials, CredentialsView};
use crate::error::{ParseError, ParseErrorView};
use crate::text::{
    find_first, find_last, first_index_of, last_index_of, lemma_first_index_of,
    lemma_last_index_of, lemma_trim_end, trim_end, trim_end_matches,
};
use vstd::prelude::*;

verus! {

#[verifier::external_type_specification]
#[verifier::external_body]
pub struct ExInvalidUri(http::uri::InvalidUri);

/// The components of a parsed URI, as text.
#[derive(Debug, Clone, PartialEq, Eq)]
pub struct UriParts {
    /// The scheme, without `://`.
    pub scheme: Option<String>,
    /// User information, host and port, as written.
    pub authority: Option<String>,
    /// The host within the authority.
    pub host: Option<String>,
    /// The path. It is `/` where an absolute URI has none.
    pub path: String,
    /// What follows the `?`.
    pub query: Option<String>,
}

/// Mathematical view of [`UriParts`].
pub struct UriPartsView {
    pub scheme: Option<Seq<char>>,
    pub authority: Option<Seq<char>>,
    pub host: Option<Seq<char>>,
    pub path: Seq<char>,
    pub query: Option<Seq<char>>,
}

/// View of a string that may be absent.
pub open spec fn optional_text(text: Option<String>) -> Option<Seq<char>> {
    match text {
        Some(t) => Some(t@),
        None => None,
    }
}

impl View for UriParts {
    type V = UriPartsView;

    open spec fn view(&self) -> UriPartsView {
        UriPartsView {
            scheme: optional_text(self.scheme),
            authority: optional_text(self.authority),
            host: optional_text(self.host),
            path: self.path@,
            query: optional_text(self.query),
        }
    }
}

/// The components that the `http` crate reads out of `text`, or `None`
/// where it does not accept `text` as a URI.
pub uninterp spec fn parsed_uri(text: Seq<char>) -> Option<UriPartsView>;

/// Parses `text` with `http::Uri` (its `FromStr`) and reads the components
/// with `scheme_str`, `authority`, `host`, `path` and `query`.
///
/// Trusted: the result is a function of `text` alone, which `parsed_uri`
/// names. Nothing is claimed about which texts are accepted.
#[verifier::external_body]
fn parse_uri(text: &str) -> (r: Result<UriParts, http::uri::InvalidUri>)
    ensures
        match r {
            Ok(parts) => parsed_uri(text@) == Some(parts@),
            Err(_) => parsed_uri(text@) is None,
        },
{
    let uri = text.parse::<http::Uri>()?;
    Ok(
        UriParts {
            scheme: uri.scheme_str().map(String::from),
            authority: uri.authority().map(|a| String::from(a.as_str())),
            host: uri.host().map(String::from),
            path: String::from(uri.path()),
            query: uri.query().map(String::from),
        },
    )
}

/// The text that is parsed to test an endpoint: the endpoint followed by a
/// harmless path.
pub open spec fn test_uri(endpoint: Seq<char>) -> Seq<char> {
    endpoint + "/_test"@
}

/// Whether an endpoint is acceptable: with the test path appended it must be
/// a URI, and that URI must name a host.
pub open spec fn validated(endpoint: Seq<char>) -> Result<(), ParseErrorView> {
    match parsed_uri(test_uri(endpoint)) {
        None => Err(ParseErrorView::InvalidHost { host: endpoint }),
        Some(parts) => if parts.host is None {
            Err(ParseErrorView::HostMustIncludeHostname { host: endpoint })
        } else {
            Ok(())
        },
    }
}

/// Checks that `endpoint` is a URL with a host, before anything is sent to
/// it.
pub fn validate_endpoint(endpoint: &str) -> (r: Result<(), ParseError>)
    ensures
        match r {
            Ok(_) => validated(endpoint@) is Ok,
            Err(e) => validated(endpoint@) == Err::<(), ParseErrorView>(e@),
        },
{
    let tested = String::from_str(endpoint).concat("/_test");
    match parse_uri(tested.as_str()) {
        Err(_) => Err(ParseError::InvalidHost { host: String::from_str(endpoint) }),
        Ok(parts) => {
            if parts.host.is_none() {
                Err(ParseError::HostMustIncludeHostname { host: String::from_str(endpoint) })
            } else {
                Ok(())
            }
        },
    }
}

/// The user information of an authority: what stands before its last `@`.
/// It is empty where the authority has no `@`.
pub open spec fn userinfo(authority: Seq<char>) -> Seq<char> {
    let at = last_index_of(authority, '@');
    if at < 0 {
        Seq::empty()
    } else {
        authority.take(at)
    }
}

/// The credentials written into an authority, as `user:password@` or
/// `user@` before the host. Both are taken as written. An authority without
/// a user name carries none.
pub open spec fn embedded_credentials(authority: Seq<char>) -> Option<CredentialsView> {
    let info = userinfo(authority);
    let colon = first_index_of(info, ':');
    let user = if colon < 0 {
        info
    } else {
        info.take(colon)
    };
    if user.len() == 0 {
        None
    } else if colon < 0 {
        Some(CredentialsView { user, password: Seq::empty() })
    } else {
        Some(CredentialsView { user, password: info.skip(colon + 1) })
    }
}

/// An authority without the credentials that were read out of it.
pub open spec fn without_credentials(authority: Seq<char>) -> Seq<char> {
    if embedded_credentials(authority) is Some {
        authority.skip(last_index_of(authority, '@') + 1)
    } else {
        authority
    }
}

/// Splits an authority into the credentials written into it and the rest.
pub fn split_credentials(authority: &str) -> (r: (Option<Credentials>, String))
    ensures
        crate::auth::credentials_view(r.0) == embedded_credentials(authority@),
        r.1@ == without_credentials(authority@),
{
    proof {
        lemma_last_index_of(authority@, '@');
    }
    let at = match find_last(authority, '@') {
        Some(at) => at,
        None => {
            return (None, String::from_str(authority));
        },
    };
    let info = authority.substring_char(0, at);
    assert(info@ == userinfo(authority@)) by {
        assert(authority@.subrange(0, at as int) =~= authority@.take(at as int));
    }
    proof {
        lemma_first_index_of(info@, ':');
    }
    let (user, password) = match find_first(info, ':') {
        Some(colon) => {
            let n = info.unicode_len();
            let user = info.substring_char(0, colon);
            let password = info.substring_char(colon + 1, n);
            assert(user@ =~= info@.take(colon as int));
            assert(password@ =~= info@.skip(colon + 1));
            (user, password)
        },
        None => (info, ""),
    };
    assert(""@ =~= Seq::<char>::empty()) by {
        reveal_strlit("");
    }
    if user.unicode_len() == 0 {
        return (None, String::from_str(authority));
    }
    let n = authority.unicode_len();
    let rest = authority.substring_char(at + 1, n);
    assert(rest@ =~= authority@.skip(at + 1));
    (
        Some(Credentials { user: String::from_str(user), password: String::from_str(password) }),
        String::from_str(rest),
    )
}

/// A URI written out: the scheme with `://`, the authority, the path, and
/// the query behind `?`, each where it is present.
pub open spec fn rendered(
    scheme: Option<Seq<char>>,
    authority: Option<Seq<char>>,
    path: Seq<char>,
    query: Option<Seq<char>>,
) -> Seq<char> {
    let head = match scheme {
        Some(s) => s + "://"@,
        None => Seq::empty(),
    };
    let host = match authority {
        Some(a) => a,
        None => Seq::empty(),
    };
    let tail = match query {
        Some(q) => "?"@ + q,
        None => Seq::empty(),
    };
    head + host + path + tail
}

/// The credentials written into a URI.
pub open spec fn uri_credentials(parts: UriPartsView) -> Option<CredentialsView> {
    match parts.authority {
        Some(authority) => embedded_credentials(authority),
        None => None,
    }
}

/// The base URL of a URI: the URI written out without its credentials and
/// without slashes at its end.
pub open spec fn uri_base_url(parts: UriPartsView) -> Seq<char> {
    let authority = match parts.authority {
        Some(authority) => Some(without_credentials(authority)),
        None => None,
    };
    trim_end(rendered(parts.scheme, authority, parts.path, parts.query), '/')
}

/// An endpoint taken apart: where requests go, and the credentials that
/// were written into it.
#[derive(Debug, PartialEq, Eq)]
pub struct EndpointUri {
    /// The endpoint without credentials and without slashes at its end.
    pub base_url: String,
    /// The credentials written into the endpoint.
    pub auth: Option<Credentials>,
}

/// Mathematical view of an [`EndpointUri`].
pub struct EndpointUriView {
    pub base_url: Seq<char>,
    pub auth: Option<CredentialsView>,
}

impl View for EndpointUri {
    type V = EndpointUriView;

    open spec fn view(&self) -> EndpointUriView {
        EndpointUriView {
            base_url: self.base_url@,
            auth: crate::auth::credentials_view(self.auth),
        }
    }
}

/// What an endpoint is taken apart into. An endpoint is first validated;
/// one that passes and still is no URI by itself is an invalid host.
pub open spec fn endpoint_uri(endpoint: Seq<char>) -> Result<EndpointUriView, ParseErrorView> {
    match validated(endpoint) {
        Err(e) => Err(e),
        Ok(_) => match parsed_uri(endpoint) {
            None => Err(ParseErrorView::InvalidHost { host: endpoint }),
            Some(parts) => Ok(
                EndpointUriView { base_url: uri_base_url(parts), auth: uri_credentials(parts) },
            ),
        },
    }
}

impl EndpointUri {
    /// Takes a parsed URI apart.
    pub fn from_parts(parts: &UriParts) -> (r: EndpointUri)
        ensures
            r@.base_url == uri_base_url(parts@),
            r@.auth == uri_credentials(parts@),
    {
        let mut url = String::new();
        match &parts.scheme {
            Some(scheme) => {
                url.append(scheme.as_str());
                url.append("://");
            },
            None => {},
        }
        let auth = match &parts.authority {
            Some(authority) => {
                let (auth, rest) = split_credentials(authority.as_str());
                url.append(rest.as_str());
                auth
            },
            None => None,
        };
        url.append(parts.path.as_str());
        match &parts.query {
            Some(query) => {
                url.append("?");
                url.append(query.as_str());
            },
            None => {},
        }
        proof {
            let authority = match parts@.authority {
                Some(authority) => Some(without_credentials(authority)),
                None => None,
            };
            assert(url@ =~= rendered(parts@.scheme, authority, parts@.path, parts@.query));
        }
        EndpointUri { base_url: trim_end_matches(url.as_str(), '/'), auth }
    }

    /// Validates `endpoint` and takes it apart.
    pub fn parse(endpoint: &str) -> (r: Result<EndpointUri, ParseError>)
        ensures
            match r {
                Ok(uri) => endpoint_uri(endpoint@) == Ok::<EndpointUriView, ParseErrorView>(uri@),
                Err(e) => endpoint_uri(endpoint@) == Err::<EndpointUriView, ParseErrorView>(e@),
            },
    {
        match validate_endpoint(endpoint) {
            Err(e) => {
                return Err(e);
            },
            Ok(_) => {},
        }
        match parse_uri(endpoint) {
            Err(_) => Err(ParseError::InvalidHost { host: String::from_str(endpoint) }),
            Ok(parts) => Ok(EndpointUri::from_parts(&parts)),
        }
    }
}

/// An endpoint passes validation exactly where, with the test path
/// appended, it is a URI that names a host. One that is a URI without a
/// host is refused for the missing host name, any other as an invalid host.
/// Each error names the endpoint.
pub proof fn lemma_validation(endpoint: Seq<char>)
    ensures
        validated(endpoint) is Ok <==> (parsed_uri(test_uri(endpoint)) matches Some(parts)
            && parts.host is Some),
        validated(endpoint) == Err::<(), ParseErrorView>(
            ParseErrorView::HostMustIncludeHostname { host: endpoint },
        ) <==> (parsed_uri(test_uri(endpoint)) matches Some(parts) && parts.host is None),
        validated(endpoint) == Err::<(), ParseErrorView>(
            ParseErrorView::InvalidHost { host: endpoint },
        ) <==> parsed_uri(test_uri(endpoint)) is None,
{
}

/// A base URL does not end in a slash, and it differs from the URI written
/// out only by the slashes that were taken from its end.
pub proof fn lemma_base_url_is_trimmed(parts: UriPartsView)
    ensures
        uri_base_url(parts).len() > 0 ==> uri_base_url(parts).last() != '/',
        ({
            let authority = match parts.authority {
                Some(authority) => Some(without_credentials(authority)),
                None => None,
            };
            let written = rendered(parts.scheme, authority, parts.path, parts.query);
            &&& uri_base_url(parts) == written.take(uri_base_url(parts).len() as int)
            &&& forall|j: int| uri_base_url(parts).len() <= j < written.len() ==> written[j] == '/'
        }),
{
    let authority = match parts.authority {
        Some(authority) => Some(without_credentials(authority)),
        None => None,
    };
    lemma_trim_end(rendered(parts.scheme, authority, parts.path, parts.query), '/');
}

} // verus!
