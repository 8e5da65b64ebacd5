//! Choosing the endpoints of a chain among those found healthy.
//!
//! Every healthy RPC endpoint with a usable WebSocket address is paired
//! with every healthy gRPC address; the caller checks the pairs in order
//! and takes the first that works. Where none works, the first usable RPC
//! endpoint and the first gRPC address stand in.

use vstd::prelude::*;
use vstd::string::*;
use crate::formatter::parse_websocket_url;
use crate::formatter::tendermint_websocket_url;
use crate::querier::HermesConfigData;
use crate::querier::TransportConfigData;
use crate::transport::ChainTransport;

verus! {

/// RPC, WebSocket and gRPC address of a transport, as character sequences.
pub type ChainTransportView = (Seq<char>, Seq<char>, Seq<char>);

/// The addresses of a transport, as character sequences.
pub open spec fn transport_view(transport: ChainTransport) -> ChainTransportView {
    (transport.rpc_addr@, transport.websocket_addr@, transport.grpc_addr@)
}

/// The addresses of a sequence of transports, as character sequences.
pub open spec fn transports_view(transports: Seq<ChainTransport>) -> Seq<ChainTransportView> {
    Seq::new(transports.len(), |i: int| transport_view(transports[i]))
}

/// The pairs of one RPC endpoint, whose WebSocket address for clients is
/// `websocket`, with the first `m` gRPC addresses.
pub open spec fn pairs_with_grpc(
    rpc: HermesConfigData,
    websocket: Seq<char>,
    grpc: Seq<String>,
    m: int,
) -> Seq<ChainTransportView>
    decreases m,
{
    if m <= 0 {
        Seq::empty()
    } else {
        pairs_with_grpc(rpc, websocket, grpc, m - 1).push(
            (rpc.rpc_address@, websocket, grpc[m - 1]@),
        )
    }
}

/// The candidate transports of the first `k` RPC endpoints: each endpoint
/// whose WebSocket address a WebSocket client accepts, with every gRPC
/// address; the endpoints in order, and for each the gRPC addresses in
/// order.
pub open spec fn candidates_upto(rpc: Seq<HermesConfigData>, grpc: Seq<String>, k: int) -> Seq<
    ChainTransportView,
>
    decreases k,
{
    if k <= 0 {
        Seq::empty()
    } else {
        let before = candidates_upto(rpc, grpc, k - 1);
        match tendermint_websocket_url(rpc[k - 1].websocket@) {
            Some(websocket) => before + pairs_with_grpc(
                rpc[k - 1],
                websocket,
                grpc,
                grpc.len() as int,
            ),
            None => before,
        }
    }
}

/// The transports to check for a chain, in the order in which to check
/// them: see [`candidates_upto`].
pub fn endpoint_candidates(transport: &TransportConfigData) -> (r: Vec<ChainTransport>)
    ensures
        transports_view(r@) == candidates_upto(
            transport.rpc@,
            transport.grpc@,
            transport.rpc.len() as int,
        ),
{
    let mut candidates: Vec<ChainTransport> = Vec::new();
    let mut i: usize = 0;
    assert(transports_view(candidates@) =~= Seq::<ChainTransportView>::empty());
    while i < transport.rpc.len()
        invariant
            i <= transport.rpc.len(),
            transports_view(candidates@) == candidates_upto(
                transport.rpc@,
                transport.grpc@,
                i as int,
            ),
        decreases transport.rpc.len() - i,
    {
        let rpc_data = &transport.rpc[i];
        match parse_websocket_url(rpc_data.websocket.as_str()) {
            Ok(websocket) => {
                let ghost base = transports_view(candidates@);
                let mut j: usize = 0;
                assert(transports_view(candidates@) =~= base + pairs_with_grpc(
                    *rpc_data,
                    websocket@,
                    transport.grpc@,
                    0,
                ));
                while j < transport.grpc.len()
                    invariant
                        j <= transport.grpc.len(),
                        transports_view(candidates@) == base + pairs_with_grpc(
                            *rpc_data,
                            websocket@,
                            transport.grpc@,
                            j as int,
                        ),
                    decreases transport.grpc.len() - j,
                {
                    let ghost before = transports_view(candidates@);
                    candidates.push(
                        ChainTransport {
                            rpc_addr: rpc_data.rpc_address.clone(),
                            websocket_addr: websocket.clone(),
                            grpc_addr: transport.grpc[j].clone(),
                        },
                    );
                    j += 1;
                    assert(transports_view(candidates@) =~= before.push(
                        (rpc_data.rpc_address@, websocket@, transport.grpc@[j - 1]@),
                    ));
                    assert(transports_view(candidates@) =~= base + pairs_with_grpc(
                        *rpc_data,
                        websocket@,
                        transport.grpc@,
                        j as int,
                    ));
                }
            },
            Err(_) => {},
        }
        i += 1;
    }
    candidates
}

/// The first RPC endpoint among the first `k` whose WebSocket address a
/// WebSocket client accepts: its RPC address and that WebSocket address.
pub open spec fn first_usable_rpc(rpc: Seq<HermesConfigData>, k: int) -> Option<
    (Seq<char>, Seq<char>),
>
    decreases k,
{
    if k <= 0 {
        None
    } else {
        match first_usable_rpc(rpc, k - 1) {
            Some(found) => Some(found),
            None => match tendermint_websocket_url(rpc[k - 1].websocket@) {
                Some(websocket) => Some((rpc[k - 1].rpc_address@, websocket)),
                None => None,
            },
        }
    }
}

/// The RPC endpoint to use where no candidate transport works: the first
/// whose WebSocket address a WebSocket client accepts, as its RPC address
/// and that WebSocket address. `None` leaves the chain's RPC endpoint as it
/// was.
pub fn fallback_rpc(transport: &TransportConfigData) -> (r: Option<(String, String)>)
    ensures
        match r {
            Some(found) => first_usable_rpc(transport.rpc@, transport.rpc.len() as int) == Some(
                (found.0@, found.1@),
            ),
            None => first_usable_rpc(transport.rpc@, transport.rpc.len() as int).is_none(),
        },
{
    let mut i: usize = 0;
    while i < transport.rpc.len()
        invariant
            i <= transport.rpc.len(),
            first_usable_rpc(transport.rpc@, i as int).is_none(),
        decreases transport.rpc.len() - i,
    {
        match parse_websocket_url(transport.rpc[i].websocket.as_str()) {
            Ok(websocket) => {
                proof {
                    lemma_first_usable_stays(transport.rpc@, i + 1, transport.rpc.len() as int);
                }
                return Some((transport.rpc[i].rpc_address.clone(), websocket));
            },
            Err(_) => {},
        }
        i += 1;
    }
    None
}

/// Once an endpoint is found among the first `k`, it is the one found
/// among any more.
proof fn lemma_first_usable_stays(rpc: Seq<HermesConfigData>, k: int, n: int)
    requires
        0 <= k <= n,
        first_usable_rpc(rpc, k) is Some,
    ensures
        first_usable_rpc(rpc, n) == first_usable_rpc(rpc, k),
    decreases n - k,
{
    if k < n {
        lemma_first_usable_stays(rpc, k, n - 1);
    }
}

/// The gRPC address to use where no candidate transport works: the first
/// healthy one. `None` leaves the chain's gRPC address as it was.
pub fn fallback_grpc(transport: &TransportConfigData) -> (r: Option<String>)
    ensures
        match r {
            Some(address) => transport.grpc.len() > 0 && address == transport.grpc@[0],
            None => transport.grpc.len() == 0,
        },
{
    if transport.grpc.len() > 0 {
        Some(transport.grpc[0].clone())
    } else {
        None
    }
}

} // verus!
