//! Address formatting: from a registry-advertised address to the WebSocket
//! address of an RPC endpoint, or to the URI of a gRPC endpoint.
//!
//! URI and URL syntax is decided by the `http` and `tendermint-rpc` crates.
//! What they return is named here by uninterpreted functions of the input
//! text; the rules built on top of them are verified.

use vstd::prelude::*;
use vstd::string::*;
use crate::error::RegistryError;
use crate::error::RegistryErrorView;

verus! {

/// `http::uri::InvalidUri`, the error of parsing a URI: an opaque value.
#[verifier::external_type_specification]
#[verifier::external_body]
pub struct ExInvalidUri(http::uri::InvalidUri);

/// `http::Error`, the error of building a URI: an opaque value.
#[verifier::external_type_specification]
#[verifier::external_body]
pub struct ExHttpError(http::Error);

/// `tendermint_rpc::Error`, the error of parsing a URL: an opaque value.
#[verifier::external_type_specification]
#[verifier::external_body]
pub struct ExUrlError(tendermint_rpc::Error);

/// The components of a parsed URI that the formatting rules read.
pub struct UriParts {
    /// The scheme, where the text names one.
    pub scheme: Option<String>,
    /// Host and port, where the text names a host.
    pub authority: Option<String>,
    /// The URI written out again.
    pub text: String,
}

/// Scheme, authority and text of a parsed URI, as character sequences.
pub type UriPartsView = (Option<Seq<char>>, Option<Seq<char>>, Seq<char>);

/// The character sequence of an optional string.
pub open spec fn option_view(text: Option<String>) -> Option<Seq<char>> {
    match text {
        Some(t) => Some(t@),
        None => None,
    }
}

impl View for UriParts {
    type V = UriPartsView;

    open spec fn view(&self) -> UriPartsView {
        (option_view(self.scheme), option_view(self.authority), self.text@)
    }
}

/// What `http::Uri` makes of a text: its components, or `None` where the
/// text is no URI.
pub uninterp spec fn http_uri(address: Seq<char>) -> Option<UriPartsView>;

/// The text of the URI that `http::uri::Builder` builds from a scheme, an
/// authority and a path with query, or `None` where it refuses them.
pub uninterp spec fn http_built_uri(
    scheme: Seq<char>,
    authority: Seq<char>,
    path_and_query: Seq<char>,
) -> Option<Seq<char>>;

/// The normalised text of the URL that `tendermint_rpc::Url` parses from a
/// text, or `None` where it rejects the text.
pub uninterp spec fn tendermint_url(address: Seq<char>) -> Option<Seq<char>>;

/// The normalised text of the URL that `tendermint_rpc::WebSocketClientUrl`
/// parses from a text, or `None` where it rejects the text.
pub uninterp spec fn tendermint_websocket_url(address: Seq<char>) -> Option<Seq<char>>;

/// Calls `str::parse::<http::Uri>` and reads the scheme, the authority and
/// the displayed text of the result. Trusted: the outcome is a function of
/// the text alone, named [`http_uri`].
#[verifier::external_body]
fn parse_uri(address: &str) -> (r: Result<UriParts, http::uri::InvalidUri>)
    ensures
        match r {
            Ok(parts) => http_uri(address@) == Some(parts@),
            Err(_) => http_uri(address@).is_none(),
        },
{
    let uri = address.parse::<http::Uri>()?;
    Ok(
        UriParts {
            scheme: uri.scheme_str().map(|s| s.to_string()),
            authority: uri.authority().map(|a| a.as_str().to_string()),
            text: uri.to_string(),
        },
    )
}

/// Calls `http::uri::Builder::build` on the three components and displays
/// the result. Trusted: the outcome is a function of the three texts alone,
/// named [`http_built_uri`].
#[verifier::external_body]
pub(crate) fn build_uri(scheme: &str, authority: &str, path_and_query: &str) -> (r: Result<
    String,
    http::Error,
>)
    ensures
        match r {
            Ok(text) => http_built_uri(scheme@, authority@, path_and_query@) == Some(text@),
            Err(_) => http_built_uri(scheme@, authority@, path_and_query@).is_none(),
        },
{
    let uri = http::Uri::builder().scheme(scheme).authority(authority).path_and_query(
        path_and_query,
    ).build()?;
    Ok(uri.to_string())
}

/// Calls `str::parse::<tendermint_rpc::Url>` and displays the result.
/// Trusted: the outcome is a function of the text alone, named
/// [`tendermint_url`].
#[verifier::external_body]
pub(crate) fn parse_url(address: &str) -> (r: Result<String, tendermint_rpc::Error>)
    ensures
        match r {
            Ok(text) => tendermint_url(address@) == Some(text@),
            Err(_) => tendermint_url(address@).is_none(),
        },
{
    let url = address.parse::<tendermint_rpc::Url>()?;
    Ok(url.to_string())
}

/// Calls `str::parse::<tendermint_rpc::WebSocketClientUrl>` and displays the
/// result. Trusted: the outcome is a function of the text alone, named
/// [`tendermint_websocket_url`].
#[verifier::external_body]
pub(crate) fn parse_websocket_url(address: &str) -> (r: Result<String, tendermint_rpc::Error>)
    ensures
        match r {
            Ok(text) => tendermint_websocket_url(address@) == Some(text@),
            Err(_) => tendermint_websocket_url(address@).is_none(),
        },
{
    let url = address.parse::<tendermint_rpc::WebSocketClientUrl>()?;
    Ok(url.to_string())
}

/// A text without its trailing slashes.
pub open spec fn without_trailing_slashes(text: Seq<char>) -> Seq<char>
    decreases text.len(),
{
    if text.len() > 0 && text.last() == '/' {
        without_trailing_slashes(text.drop_last())
    } else {
        text
    }
}

/// Calls `str::trim_end_matches` with the pattern `'/'`. Trusted: the result
/// is the text without its trailing slashes.
#[verifier::external_body]
fn trim_trailing_slashes(text: &str) -> (r: &str)
    ensures
        r@ == without_trailing_slashes(text@),
{
    text.trim_end_matches('/')
}

/// Whether a URI scheme is one of the two WebSocket schemes.
pub open spec fn is_websocket_scheme(scheme: Option<Seq<char>>) -> bool {
    scheme == Some("ws"@) || scheme == Some("wss"@)
}

/// The WebSocket scheme that matches the security of an RPC scheme: `wss`
/// for `https`, `ws` for anything else, a missing scheme included.
pub open spec fn websocket_scheme_for(scheme: Option<Seq<char>>) -> Seq<char> {
    if scheme == Some("https"@) {
        "wss"@
    } else {
        "ws"@
    }
}

/// The outcome of formatting an RPC address as a WebSocket address.
///
/// An address that already carries a WebSocket scheme is kept as it is
/// written. Any other address is rewritten: same authority, the matching
/// WebSocket scheme, and the path `/websocket`. Either way the candidate
/// must be a URL that an RPC client accepts, and the result is its
/// normalised text.
pub open spec fn websocket_address(raw: Seq<char>) -> Result<Seq<char>, RegistryErrorView> {
    match http_uri(raw) {
        None => Err(RegistryErrorView::UriParse { address: raw }),
        Some((_, None, _)) => Err(RegistryErrorView::RpcUrlWithoutAuthority { address: raw }),
        Some((scheme, Some(authority), _)) => {
            let candidate = if is_websocket_scheme(scheme) {
                Some(raw)
            } else {
                http_built_uri(websocket_scheme_for(scheme), authority, "/websocket"@)
            };
            match candidate {
                None => Err(RegistryErrorView::UnableToBuildWebsocketEndpoint { address: raw }),
                Some(text) => match tendermint_url(text) {
                    None => Err(RegistryErrorView::TendermintUrlParse { address: raw }),
                    Some(url) => Ok(url),
                },
            }
        },
    }
}

/// Whether a text is a WebSocket address in final form: a URI with a
/// WebSocket scheme and a host, which URL normalisation leaves unchanged.
pub open spec fn is_websocket_address(text: Seq<char>) -> bool {
    match http_uri(text) {
        Some((scheme, Some(_), _)) => is_websocket_scheme(scheme) && tendermint_url(text) == Some(
            text,
        ),
        _ => false,
    }
}

/// The outcome of formatting a registry-advertised gRPC address.
///
/// Trailing slashes are dropped. An address with a scheme is kept as the
/// URI parser writes it; one without is taken as an authority and completed
/// with the scheme `https` and the path `/`.
pub open spec fn grpc_address(raw: Seq<char>) -> Result<Seq<char>, RegistryErrorView> {
    let input = without_trailing_slashes(raw);
    match http_uri(input) {
        None => Err(RegistryErrorView::UriParse { address: input }),
        Some((Some(_), _, text)) => Ok(text),
        Some((None, _, _)) => match http_built_uri("https"@, input, "/"@) {
            None => Err(RegistryErrorView::GrpcEndpointParse { address: input }),
            Some(text) => Ok(text),
        },
    }
}

/// Formatting is idempotent on its results: a WebSocket address in final
/// form is formatted to itself.
pub proof fn lemma_websocket_address_kept(text: Seq<char>)
    requires
        is_websocket_address(text),
    ensures
        websocket_address(text) == Ok::<Seq<char>, RegistryErrorView>(text),
{
}

/// The view of a formatting outcome.
pub open spec fn address_result_view(r: Result<String, RegistryError>) -> Result<
    Seq<char>,
    RegistryErrorView,
> {
    match r {
        Ok(address) => Ok(address@),
        Err(e) => Err(e@),
    }
}

/// Formats RPC addresses as WebSocket addresses.
pub struct SimpleWebSocketFormatter;

/// Formats registry-advertised gRPC addresses as URIs.
pub struct SimpleGrpcFormatter;

impl SimpleWebSocketFormatter {
    /// The WebSocket address that belongs to an RPC address.
    pub fn parse_or_build_address(rpc_address: &str) -> (r: Result<String, RegistryError>)
        ensures
            address_result_view(r) == websocket_address(rpc_address@),
            is_websocket_address(rpc_address@) ==> address_result_view(r) == Ok::<
                Seq<char>,
                RegistryErrorView,
            >(rpc_address@),
    {
        let parts = match parse_uri(rpc_address) {
            Ok(parts) => parts,
            Err(_) => {
                return Err(RegistryError::UriParse { address: rpc_address.to_owned() });
            },
        };
        let authority = match parts.authority {
            Some(authority) => authority,
            None => {
                return Err(
                    RegistryError::RpcUrlWithoutAuthority { address: rpc_address.to_owned() },
                );
            },
        };
        let keep = match &parts.scheme {
            Some(scheme) => *scheme == String::from_str("ws") || *scheme == String::from_str("wss"),
            None => false,
        };
        let candidate = if keep {
            rpc_address.to_owned()
        } else {
            let secure = match &parts.scheme {
                Some(scheme) => *scheme == String::from_str("https"),
                None => false,
            };
            let scheme = if secure {
                "wss"
            } else {
                "ws"
            };
            match build_uri(scheme, authority.as_str(), "/websocket") {
                Ok(text) => text,
                Err(_) => {
                    return Err(
                        RegistryError::UnableToBuildWebsocketEndpoint {
                            address: rpc_address.to_owned(),
                        },
                    );
                },
            }
        };
        match parse_url(candidate.as_str()) {
            Ok(url) => Ok(url),
            Err(_) => Err(RegistryError::TendermintUrlParse { address: rpc_address.to_owned() }),
        }
    }
}

impl SimpleGrpcFormatter {
    /// The URI of a gRPC endpoint, from the address that the registry
    /// advertises.
    pub fn parse_or_build_address(address: &str) -> (r: Result<String, RegistryError>)
        ensures
            address_result_view(r) == grpc_address(address@),
    {
        let input = trim_trailing_slashes(address);
        let parts = match parse_uri(input) {
            Ok(parts) => parts,
            Err(_) => {
                return Err(RegistryError::UriParse { address: input.to_owned() });
            },
        };
        if parts.scheme.is_some() {
            return Ok(parts.text);
        }
        match build_uri("https", input, "/") {
            Ok(text) => Ok(text),
            Err(_) => Err(RegistryError::GrpcEndpointParse { address: input.to_owned() }),
        }
    }
}

} // verus!
