//! The transport of one chain: which RPC, WebSocket and gRPC addresses to
//! use, from the endpoints that the registry advertises.
//!
//! Exhaustive resolution keeps every endpoint that a collecting round found
//! healthy, and degrades to an empty list for a protocol that found none.
//! Single-pick resolution needs one endpoint per protocol and fails where a
//! protocol has none.

use vstd::prelude::*;
use vstd::string::*;
use crate::chain::ChainData;
use crate::error::strings_view;
use crate::error::RegistryError;
use crate::error::RegistryErrorView;
use crate::formatter::grpc_address;
use crate::formatter::parse_websocket_url;
use crate::formatter::tendermint_websocket_url;
use crate::formatter::SimpleGrpcFormatter;
use crate::querier::is_success_of;
use crate::querier::may_all_fail;
use crate::querier::query_healthy_all;
use crate::querier::HermesConfigData;
use crate::querier::QueryContext;
use crate::querier::TransportConfigData;
use crate::retry::query_healthy_retry;
use crate::retry::MAX_HEALTHY_QUERY_RETRIES_EX;

verus! {

/// One endpoint per protocol for a chain.
#[derive(Clone, Debug, PartialEq, Eq)]
pub struct ChainTransport {
    /// The RPC address.
    pub rpc_addr: String,
    /// The WebSocket address that belongs to the RPC address.
    pub websocket_addr: String,
    /// The gRPC address.
    pub grpc_addr: String,
}

/// The formatted gRPC addresses of a list of advertised ones, in order, or
/// the error of the first address that cannot be formatted.
pub open spec fn formatted_grpc(addresses: Seq<String>) -> Result<
    Seq<Seq<char>>,
    RegistryErrorView,
>
    decreases addresses.len(),
{
    if addresses.len() == 0 {
        Ok(Seq::empty())
    } else {
        match formatted_grpc(addresses.drop_last()) {
            Err(e) => Err(e),
            Ok(done) => match grpc_address(addresses.last()@) {
                Err(e) => Err(e),
                Ok(address) => Ok(done.push(address)),
            },
        }
    }
}

/// The gRPC endpoints of a chain, formatted for probing.
pub fn grpc_endpoints(chain_data: &ChainData) -> (r: Result<Vec<String>, RegistryError>)
    ensures
        match r {
            Ok(endpoints) => formatted_grpc(chain_data.grpc@) == Ok::<
                Seq<Seq<char>>,
                RegistryErrorView,
            >(strings_view(endpoints@)),
            Err(e) => formatted_grpc(chain_data.grpc@) == Err::<Seq<Seq<char>>, RegistryErrorView>(
                e@,
            ),
        },
{
    let mut endpoints: Vec<String> = Vec::new();
    let mut i: usize = 0;
    assert(strings_view(endpoints@) =~= Seq::<Seq<char>>::empty());
    while i < chain_data.grpc.len()
        invariant
            i <= chain_data.grpc.len(),
            formatted_grpc(chain_data.grpc@.take(i as int)) == Ok::<
                Seq<Seq<char>>,
                RegistryErrorView,
            >(strings_view(endpoints@)),
        decreases chain_data.grpc.len() - i,
    {
        let ghost done = strings_view(endpoints@);
        proof {
            assert(chain_data.grpc@.take(i + 1).drop_last() =~= chain_data.grpc@.take(i as int));
            assert(chain_data.grpc@.take(i + 1).last() == chain_data.grpc@[i as int]);
        }
        match SimpleGrpcFormatter::parse_or_build_address(chain_data.grpc[i].as_str()) {
            Ok(address) => {
                endpoints.push(address);
                assert(strings_view(endpoints@) =~= done.push(address@));
            },
            Err(e) => {
                proof {
                    lemma_formatted_grpc_error(chain_data.grpc@, i + 1);
                }
                return Err(e);
            },
        }
        i += 1;
    }
    assert(chain_data.grpc@.take(i as int) =~= chain_data.grpc@);
    Ok(endpoints)
}

/// An error among the first `n` addresses is the error of the whole list.
proof fn lemma_formatted_grpc_error(addresses: Seq<String>, n: int)
    requires
        0 <= n <= addresses.len(),
        formatted_grpc(addresses.take(n)) is Err,
    ensures
        formatted_grpc(addresses) == formatted_grpc(addresses.take(n)),
    decreases addresses.len() - n,
{
    if n < addresses.len() {
        assert(addresses.take(n + 1).drop_last() =~= addresses.take(n));
        lemma_formatted_grpc_error(addresses, n + 1);
    } else {
        assert(addresses.take(n) =~= addresses);
    }
}

/// The RPC endpoints of a chain, as advertised.
pub fn rpc_endpoints(chain_data: &ChainData) -> (r: Vec<String>)
    ensures
        r@ == chain_data.rpc@,
{
    let mut endpoints: Vec<String> = Vec::new();
    let mut i: usize = 0;
    while i < chain_data.rpc.len()
        invariant
            i <= chain_data.rpc.len(),
            endpoints@ == chain_data.rpc@.take(i as int),
        decreases chain_data.rpc.len() - i,
    {
        endpoints.push(chain_data.rpc[i].clone());
        i += 1;
        assert(endpoints@ =~= chain_data.rpc@.take(i as int));
    }
    assert(chain_data.rpc@.take(i as int) =~= chain_data.rpc@);
    endpoints
}

/// The endpoints that two collecting rounds found healthy. A round that
/// found none contributes an empty list.
pub fn healthy_transport(
    rpc: Result<Vec<HermesConfigData>, RegistryError>,
    grpc: Result<Vec<String>, RegistryError>,
) -> (r: TransportConfigData)
    ensures
        r.rpc@ == match rpc {
            Ok(found) => found@,
            Err(_) => Seq::empty(),
        },
        r.grpc@ == match grpc {
            Ok(found) => found@,
            Err(_) => Seq::empty(),
        },
{
    let rpc_data = match rpc {
        Ok(found) => found,
        Err(_) => Vec::new(),
    };
    let grpc_data = match grpc {
        Ok(found) => found,
        Err(_) => Vec::new(),
    };
    TransportConfigData { rpc: rpc_data, grpc: grpc_data }
}

/// The transport made of one healthy RPC endpoint and one healthy gRPC
/// address. The endpoint's WebSocket address must be a URL that a WebSocket
/// client accepts.
pub fn single_transport(rpc_data: HermesConfigData, grpc_address: String) -> (r: Result<
    ChainTransport,
    RegistryError,
>)
    ensures
        match tendermint_websocket_url(rpc_data.websocket@) {
            Some(websocket) => r matches Ok(transport) && transport.rpc_addr
                == rpc_data.rpc_address && transport.websocket_addr@ == websocket
                && transport.grpc_addr == grpc_address,
            None => r matches Err(e) && e@ == (RegistryErrorView::WebsocketUrlParse {
                address: rpc_data.websocket@,
            }),
        },
{
    match parse_websocket_url(rpc_data.websocket.as_str()) {
        Ok(websocket_addr) => Ok(
            ChainTransport {
                rpc_addr: rpc_data.rpc_address,
                websocket_addr,
                grpc_addr: grpc_address,
            },
        ),
        Err(_) => Err(RegistryError::WebsocketUrlParse { address: rpc_data.websocket }),
    }
}

/// Whether `endpoints` are the gRPC endpoints of the chain, formatted for
/// probing.
pub open spec fn are_grpc_endpoints(chain_data: ChainData, endpoints: Seq<String>) -> bool {
    formatted_grpc(chain_data.grpc@) == Ok::<Seq<Seq<char>>, RegistryErrorView>(
        strings_view(endpoints),
    )
}

/// Whether `transport` is what the exhaustive resolution of a chain gives
/// when `endpoints` are its formatted gRPC endpoints: every listed endpoint
/// is the success of a probe of an advertised one, and an empty list shows
/// that every probe of that protocol failed.
pub open spec fn is_healthy_transport<GrpcQuerier, RpcQuerier>(
    chain_data: ChainData,
    endpoints: Seq<String>,
    transport: TransportConfigData,
) -> bool where
    GrpcQuerier: QueryContext<QueryInput = String, QueryOutput = String, QueryError = RegistryError>,
    RpcQuerier: QueryContext<
        QueryInput = String,
        QueryOutput = HermesConfigData,
        QueryError = RegistryError,
    >,
 {
    &&& are_grpc_endpoints(chain_data, endpoints)
    &&& transport.rpc.len() <= chain_data.rpc.len()
    &&& transport.grpc.len() <= chain_data.grpc.len()
    &&& forall|k: int|
        0 <= k < transport.rpc.len() ==> is_success_of::<RpcQuerier>(
            chain_data.rpc@,
            #[trigger] transport.rpc@[k],
        )
    &&& forall|k: int|
        0 <= k < transport.grpc.len() ==> is_success_of::<GrpcQuerier>(
            endpoints,
            #[trigger] transport.grpc@[k],
        )
    &&& transport.rpc.len() == 0 ==> may_all_fail::<RpcQuerier>(chain_data.rpc@)
    &&& transport.grpc.len() == 0 ==> may_all_fail::<GrpcQuerier>(endpoints)
}

/// Whether `r` is what the exhaustive resolution of a chain may give: the
/// error of the first advertised gRPC address that cannot be formatted, or
/// else a transport as [`is_healthy_transport`] describes it.
pub open spec fn is_exhaustive_resolution<GrpcQuerier, RpcQuerier>(
    chain_data: ChainData,
    r: Result<TransportConfigData, RegistryError>,
) -> bool where
    GrpcQuerier: QueryContext<QueryInput = String, QueryOutput = String, QueryError = RegistryError>,
    RpcQuerier: QueryContext<
        QueryInput = String,
        QueryOutput = HermesConfigData,
        QueryError = RegistryError,
    >,
 {
    match r {
        Ok(transport) => exists|endpoints: Seq<String>|
            is_healthy_transport::<GrpcQuerier, RpcQuerier>(chain_data, endpoints, transport),
        Err(e) => formatted_grpc(chain_data.grpc@) == Err::<Seq<Seq<char>>, RegistryErrorView>(e@),
    }
}

/// Every healthy endpoint of a chain: one collecting round over its RPC
/// endpoints and one over its gRPC endpoints. Fails only where an
/// advertised gRPC address cannot be formatted.
pub fn chain_healthy_transport<GrpcQuerier, RpcQuerier>(chain_data: ChainData) -> (r: Result<
    TransportConfigData,
    RegistryError,
>) where
    GrpcQuerier: QueryContext<QueryInput = String, QueryOutput = String, QueryError = RegistryError>,
    RpcQuerier: QueryContext<
        QueryInput = String,
        QueryOutput = HermesConfigData,
        QueryError = RegistryError,
    >,

    ensures
        is_exhaustive_resolution::<GrpcQuerier, RpcQuerier>(chain_data, r),
        r is Err <==> formatted_grpc(chain_data.grpc@) is Err,
{
    let grpc = match grpc_endpoints(&chain_data) {
        Ok(grpc) => grpc,
        Err(e) => {
            return Err(e);
        },
    };
    proof {
        lemma_formatted_grpc_len(chain_data.grpc@);
    }
    let rpc = rpc_endpoints(&chain_data);
    let rpc_found = query_healthy_all::<RpcQuerier>(chain_data.chain_name.as_str(), &rpc);
    let grpc_found = query_healthy_all::<GrpcQuerier>(chain_data.chain_name.as_str(), &grpc);
    let transport = healthy_transport(rpc_found, grpc_found);
    let r: Result<TransportConfigData, RegistryError> = Ok(transport);
    assert(is_healthy_transport::<GrpcQuerier, RpcQuerier>(chain_data, grpc@, r->Ok_0));
    r
}

/// Formatting keeps the number of addresses.
pub proof fn lemma_formatted_grpc_len(addresses: Seq<String>)
    ensures
        formatted_grpc(addresses) matches Ok(done) ==> done.len() == addresses.len(),
    decreases addresses.len(),
{
    if addresses.len() > 0 {
        lemma_formatted_grpc_len(addresses.drop_last());
    }
}

/// The error of a bounded retry over `endpoints` for the chain that spent
/// the budget of the transport resolution.
pub open spec fn unhealthy(endpoints: Seq<String>, chain_name: Seq<char>) -> RegistryErrorView {
    RegistryErrorView::UnhealthyEndpoints {
        endpoints: strings_view(endpoints),
        retries: MAX_HEALTHY_QUERY_RETRIES_EX,
        chain: chain_name,
    }
}

/// Whether `r` is what the single-pick resolution of a chain gives when
/// `endpoints` are its formatted gRPC endpoints, the search for an RPC
/// endpoint ended in `rpc` and the search for a gRPC address in `grpc`
/// (`None` for a search that spent its budget).
///
/// A search that succeeded gives the success of a probe of one of its
/// endpoints; one that failed shows that every probe may fail, and fails
/// the resolution with the list of its endpoints. The RPC search comes
/// first. With both found, the result is that of [`single_transport`].
pub open spec fn is_single_pick<GrpcQuerier, RpcQuerier>(
    chain_data: ChainData,
    endpoints: Seq<String>,
    rpc: Option<HermesConfigData>,
    grpc: Option<String>,
    r: Result<ChainTransport, RegistryError>,
) -> bool where
    GrpcQuerier: QueryContext<QueryInput = String, QueryOutput = String, QueryError = RegistryError>,
    RpcQuerier: QueryContext<
        QueryInput = String,
        QueryOutput = HermesConfigData,
        QueryError = RegistryError,
    >,
 {
    &&& are_grpc_endpoints(chain_data, endpoints)
    &&& match rpc {
        None => may_all_fail::<RpcQuerier>(chain_data.rpc@) && (r matches Err(e) && e@ == unhealthy(
            chain_data.rpc@,
            chain_data.chain_name@,
        )),
        Some(rpc_data) => is_success_of::<RpcQuerier>(chain_data.rpc@, rpc_data) && match grpc {
            None => may_all_fail::<GrpcQuerier>(endpoints) && (r matches Err(e) && e@ == unhealthy(
                endpoints,
                chain_data.chain_name@,
            )),
            Some(address) => is_success_of::<GrpcQuerier>(endpoints, address)
                && match tendermint_websocket_url(rpc_data.websocket@) {
                Some(websocket) => r matches Ok(transport) && transport.rpc_addr
                    == rpc_data.rpc_address && transport.websocket_addr@ == websocket
                    && transport.grpc_addr == address,
                None => r matches Err(e) && e@ == (RegistryErrorView::WebsocketUrlParse {
                    address: rpc_data.websocket@,
                }),
            },
        },
    }
}

/// Whether `r` is what the single-pick resolution of a chain may give: the
/// error of the first advertised gRPC address that cannot be formatted, or
/// else a result as [`is_single_pick`] describes it.
pub open spec fn is_single_pick_resolution<GrpcQuerier, RpcQuerier>(
    chain_data: ChainData,
    r: Result<ChainTransport, RegistryError>,
) -> bool where
    GrpcQuerier: QueryContext<QueryInput = String, QueryOutput = String, QueryError = RegistryError>,
    RpcQuerier: QueryContext<
        QueryInput = String,
        QueryOutput = HermesConfigData,
        QueryError = RegistryError,
    >,
 {
    match formatted_grpc(chain_data.grpc@) {
        Err(e) => r matches Err(x) && x@ == e,
        Ok(_) => exists|endpoints: Seq<String>, rpc: Option<HermesConfigData>, grpc: Option<String>|
            is_single_pick::<GrpcQuerier, RpcQuerier>(chain_data, endpoints, rpc, grpc, r),
    }
}

/// One healthy endpoint per protocol for a chain: a bounded retry over its
/// RPC endpoints, then one over its gRPC endpoints.
///
/// Fails where an advertised gRPC address cannot be formatted, where either
/// retry spends its budget, or where the WebSocket address is not one that
/// a WebSocket client accepts.
pub fn chain_transport<GrpcQuerier, RpcQuerier>(chain_data: ChainData) -> (r: Result<
    ChainTransport,
    RegistryError,
>) where
    GrpcQuerier: QueryContext<QueryInput = String, QueryOutput = String, QueryError = RegistryError>,
    RpcQuerier: QueryContext<
        QueryInput = String,
        QueryOutput = HermesConfigData,
        QueryError = RegistryError,
    >,

    ensures
        is_single_pick_resolution::<GrpcQuerier, RpcQuerier>(chain_data, r),
        chain_data.rpc.len() == 0 || chain_data.grpc.len() == 0 ==> r is Err,
{
    let grpc = match grpc_endpoints(&chain_data) {
        Ok(grpc) => grpc,
        Err(e) => {
            return Err(e);
        },
    };
    proof {
        lemma_formatted_grpc_len(chain_data.grpc@);
    }
    let rpc = rpc_endpoints(&chain_data);
    let chain_name = chain_data.chain_name.as_str();
    let rpc_data = match query_healthy_retry::<RpcQuerier>(
        chain_name,
        &rpc,
        MAX_HEALTHY_QUERY_RETRIES_EX,
    ) {
        Ok(rpc_data) => rpc_data,
        Err(e) => {
            assert(is_single_pick::<GrpcQuerier, RpcQuerier>(
                chain_data,
                grpc@,
                None,
                None,
                Err(e),
            ));
            return Err(e);
        },
    };
    let grpc_address = match query_healthy_retry::<GrpcQuerier>(
        chain_name,
        &grpc,
        MAX_HEALTHY_QUERY_RETRIES_EX,
    ) {
        Ok(grpc_address) => grpc_address,
        Err(e) => {
            assert(is_single_pick::<GrpcQuerier, RpcQuerier>(
                chain_data,
                grpc@,
                Some(rpc_data),
                None,
                Err(e),
            ));
            return Err(e);
        },
    };
    let r = single_transport(rpc_data, grpc_address);
    assert(is_single_pick::<GrpcQuerier, RpcQuerier>(
        chain_data,
        grpc@,
        Some(rpc_data),
        Some(grpc_address),
        r,
    ));
    r
}

} // verus!
