//! The addresses of the channel directory: where to ask for the chains it
//! knows, for the chains connected to one chain, and for the channels
//! between two chains.

use vstd::prelude::*;
use vstd::string::*;
use crate::error::RegistryError;
use crate::error::RegistryErrorView;
use crate::formatter::build_uri;
use crate::formatter::http_built_uri;

verus! {

/// The address that lists the chains of the directory.
pub fn chains_url() -> (r: String)
    ensures
        r@ == "https://ibc.tfm.com/chain?network=mainnet"@,
{
    String::from_str("https://ibc.tfm.com/chain?network=mainnet")
}

/// Path and query that ask for the chains connected to a chain.
pub open spec fn connections_query(chain_id: Seq<char>) -> Seq<char> {
    "/chain/connections?chainId="@ + chain_id
}

/// Path and query that ask for the channels between two chains.
pub open spec fn channel_pairs_query(source: Seq<char>, destination: Seq<char>) -> Seq<char> {
    "/channels/pairs?sourceChainId="@ + source + "&destinationChainId="@ + destination
        + "&page=1&take=1000"@
}

/// The address of the directory with the given path and query, or `None`
/// where no URI can be built from them.
pub open spec fn directory_url(path_and_query: Seq<char>) -> Option<Seq<char>> {
    http_built_uri("https"@, "ibc.tfm.com"@, path_and_query)
}

/// The outcome of building a directory address for a request about
/// `subject`.
pub open spec fn directory_address(subject: Seq<char>, path_and_query: Seq<char>) -> Result<
    Seq<char>,
    RegistryErrorView,
> {
    match directory_url(path_and_query) {
        Some(url) => Ok(url),
        None => Err(RegistryErrorView::UrlParse { address: subject }),
    }
}

/// The view of an address or the error in its place.
pub open spec fn url_result_view(r: Result<String, RegistryError>) -> Result<
    Seq<char>,
    RegistryErrorView,
> {
    match r {
        Ok(url) => Ok(url@),
        Err(e) => Err(e@),
    }
}

/// The address that lists the chains connected to the chain with the given
/// identifier.
pub fn connections_url(chain_id: &str) -> (r: Result<String, RegistryError>)
    ensures
        url_result_view(r) == directory_address(chain_id@, connections_query(chain_id@)),
{
    let mut query = String::from_str("/chain/connections?chainId=");
    query.append(chain_id);
    match build_uri("https", "ibc.tfm.com", query.as_str()) {
        Ok(url) => Ok(url),
        Err(_) => Err(RegistryError::UrlParse { address: chain_id.to_owned() }),
    }
}

/// The address that lists the channels between the chains with the given
/// identifiers.
pub fn channel_pairs_url(source: &str, destination: &str) -> (r: Result<String, RegistryError>)
    ensures
        url_result_view(r) == directory_address(
            source@,
            channel_pairs_query(source@, destination@),
        ),
{
    let mut query = String::from_str("/channels/pairs?sourceChainId=");
    query.append(source);
    query.append("&destinationChainId=");
    query.append(destination);
    query.append("&page=1&take=1000");
    match build_uri("https", "ibc.tfm.com", query.as_str()) {
        Ok(url) => Ok(url),
        Err(_) => Err(RegistryError::UrlParse { address: source.to_owned() }),
    }
}

} // verus!
