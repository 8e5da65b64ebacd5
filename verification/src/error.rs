//! The error type shared by every stage of the resolution pipeline.

use vstd::prelude::*;

verus! {

/// What went wrong while probing one endpoint over the network.
#[derive(Clone, Copy, Debug, PartialEq, Eq, Structural)]
pub enum ProbeFailure {
    /// The WebSocket handshake did not finish within its ceiling.
    WebsocketTimeOut,
    /// The WebSocket connection was refused or failed.
    WebsocketConnect,
    /// The node did not answer the consensus-parameters request.
    RpcConsensusParams,
    /// The WebSocket connection could not be closed cleanly.
    WebsocketConnClose,
    /// The WebSocket driver ended with an error.
    WebsocketDriver,
    /// The gRPC channel was not established within its ceiling.
    GrpcTimeOut,
    /// The gRPC channel was refused or failed.
    UnableToConnectWithGrpc,
}

/// Errors of the resolution pipeline.
#[derive(Clone, Debug, PartialEq, Eq)]
pub enum RegistryError {
    /// One racing or collection round found no healthy RPC endpoint.
    NoHealthyRpc { chain: String },
    /// One racing or collection round found no healthy gRPC endpoint.
    NoHealthyGrpc { chain: String },
    /// Every round of a bounded retry failed.
    UnhealthyEndpoints { endpoints: Vec<String>, retries: u8, chain: String },
    /// The address is not a URI.
    UriParse { address: String },
    /// No URL could be built for the given subject.
    UrlParse { address: String },
    /// The RPC address names no host.
    RpcUrlWithoutAuthority { address: String },
    /// No WebSocket address could be built from the RPC address.
    UnableToBuildWebsocketEndpoint { address: String },
    /// No gRPC address could be built from a scheme-less address.
    GrpcEndpointParse { address: String },
    /// The address is not a URL that an RPC client accepts.
    TendermintUrlParse { address: String },
    /// The address is not a URL that a WebSocket client accepts.
    WebsocketUrlParse { address: String },
    /// The chain's asset list is empty.
    NoAssetFound { chain: String },
    /// The source chain is not among the requested chains.
    NoChainFound { chain: String },
    /// No channel source answered.
    NoChannelsFound,
    /// A concurrent task did not complete normally.
    JoinError { task: String },
    /// A network probe of one endpoint failed.
    Probe { failure: ProbeFailure, address: String },
    /// A registry resource could not be fetched.
    Fetch { resource: String },
}

/// The mathematical value of a [`RegistryError`]: strings as sequences of
/// characters.
pub enum RegistryErrorView {
    NoHealthyRpc { chain: Seq<char> },
    NoHealthyGrpc { chain: Seq<char> },
    UnhealthyEndpoints { endpoints: Seq<Seq<char>>, retries: u8, chain: Seq<char> },
    UriParse { address: Seq<char> },
    UrlParse { address: Seq<char> },
    RpcUrlWithoutAuthority { address: Seq<char> },
    UnableToBuildWebsocketEndpoint { address: Seq<char> },
    GrpcEndpointParse { address: Seq<char> },
    TendermintUrlParse { address: Seq<char> },
    WebsocketUrlParse { address: Seq<char> },
    NoAssetFound { chain: Seq<char> },
    NoChainFound { chain: Seq<char> },
    NoChannelsFound,
    JoinError { task: Seq<char> },
    Probe { failure: ProbeFailure, address: Seq<char> },
    Fetch { resource: Seq<char> },
}

/// The character sequences of a sequence of strings, in order.
pub open spec fn strings_view(strings: Seq<String>) -> Seq<Seq<char>> {
    Seq::new(strings.len(), |i: int| strings[i]@)
}

impl View for RegistryError {
    type V = RegistryErrorView;

    open spec fn view(&self) -> RegistryErrorView {
        match *self {
            RegistryError::NoHealthyRpc { chain } => RegistryErrorView::NoHealthyRpc { chain: chain@ },
            RegistryError::NoHealthyGrpc { chain } => RegistryErrorView::NoHealthyGrpc {
                chain: chain@,
            },
            RegistryError::UnhealthyEndpoints {
                endpoints,
                retries,
                chain,
            } => RegistryErrorView::UnhealthyEndpoints {
                endpoints: strings_view(endpoints@),
                retries,
                chain: chain@,
            },
            RegistryError::UriParse { address } => RegistryErrorView::UriParse { address: address@ },
            RegistryError::UrlParse { address } => RegistryErrorView::UrlParse { address: address@ },
            RegistryError::RpcUrlWithoutAuthority {
                address,
            } => RegistryErrorView::RpcUrlWithoutAuthority { address: address@ },
            RegistryError::UnableToBuildWebsocketEndpoint {
                address,
            } => RegistryErrorView::UnableToBuildWebsocketEndpoint { address: address@ },
            RegistryError::GrpcEndpointParse { address } => RegistryErrorView::GrpcEndpointParse {
                address: address@,
            },
            RegistryError::TendermintUrlParse { address } => RegistryErrorView::TendermintUrlParse {
                address: address@,
            },
            RegistryError::WebsocketUrlParse { address } => RegistryErrorView::WebsocketUrlParse {
                address: address@,
            },
            RegistryError::NoAssetFound { chain } => RegistryErrorView::NoAssetFound { chain: chain@ },
            RegistryError::NoChainFound { chain } => RegistryErrorView::NoChainFound { chain: chain@ },
            RegistryError::NoChannelsFound => RegistryErrorView::NoChannelsFound,
            RegistryError::JoinError { task } => RegistryErrorView::JoinError { task: task@ },
            RegistryError::Probe { failure, address } => RegistryErrorView::Probe {
                failure,
                address: address@,
            },
            RegistryError::Fetch { resource } => RegistryErrorView::Fetch { resource: resource@ },
        }
    }
}

} // verus!
