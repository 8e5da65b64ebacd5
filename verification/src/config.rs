//! The configuration of one chain, assembled from its registry records, its
//! resolved transport and its packet filter.

use vstd::prelude::*;
use vstd::string::*;
use crate::chain::AssetList;
use crate::chain::ChainData;
use crate::error::strings_view;
use crate::error::RegistryError;
use crate::error::RegistryErrorView;
use crate::filter::PacketFilter;
use crate::formatter::parse_url;
use crate::formatter::parse_websocket_url;
use crate::formatter::tendermint_url;
use crate::formatter::tendermint_websocket_url;
use crate::querier::is_success_of;
use crate::querier::may_all_fail;
use crate::querier::HermesConfigData;
use crate::querier::QueryContext;
use crate::retry::query_healthy_retry;
use crate::retry::MAX_HEALTHY_QUERY_RETRIES_EX;
use crate::transport::formatted_grpc;
use crate::transport::grpc_endpoints;
use crate::transport::lemma_formatted_grpc_len;
use crate::transport::unhealthy;
use crate::transport::rpc_endpoints;

verus! {

/// The gas price of every assembled configuration, in thousandths of the
/// denomination's unit.
pub const GAS_PRICE_MILLI: u64 = 100;

/// The gas multiplier of every assembled configuration, in thousandths.
pub const GAS_MULTIPLIER_MILLI: u64 = 1100;

/// The default gas of every assembled configuration.
pub const DEFAULT_GAS: u64 = 100000;

/// The gas ceiling of every assembled configuration.
pub const MAX_GAS: u64 = 400000;

/// Where the gRPC address of a configuration comes from.
#[derive(Clone, Copy, Debug, PartialEq, Eq, Structural)]
pub enum GrpcOrigin {
    /// A probe found the address healthy.
    Verified,
    /// No gRPC endpoint was healthy: the address is the first that the
    /// registry advertises, unverified.
    Declared,
    /// The registry advertises no gRPC endpoint: the address is the chain's
    /// RPC address.
    RpcFallback,
}

/// A gas price: an amount in thousandths, and its denomination.
#[derive(Clone, Debug, PartialEq, Eq)]
pub struct GasPrice {
    pub price_milli: u64,
    pub denom: String,
}

/// The configuration of one chain.
#[derive(Clone, Debug, PartialEq, Eq)]
pub struct ChainConfig {
    /// The chain's protocol identifier.
    pub id: String,
    pub rpc_addr: String,
    pub websocket_addr: String,
    pub grpc_addr: String,
    /// Whether `grpc_addr` was verified, and if not, where it comes from.
    pub grpc_origin: GrpcOrigin,
    pub trusted_node: bool,
    pub account_prefix: String,
    pub key_name: String,
    pub store_prefix: String,
    pub default_gas: Option<u64>,
    pub max_gas: Option<u64>,
    pub gas_multiplier_milli: Option<u64>,
    pub gas_price: GasPrice,
    pub packet_filter: PacketFilter,
    pub ccv_consumer_chain: bool,
    pub sequential_batch_tx: bool,
}

/// The gas-price denomination of a chain: the base denomination of its
/// primary asset.
pub fn primary_denom(assets: &AssetList, chain_name: &str) -> (r: Result<String, RegistryError>)
    ensures
        match r {
            Ok(denom) => assets.assets.len() > 0 && denom == assets.assets[0].base,
            Err(e) => assets.assets.len() == 0 && e@ == (RegistryErrorView::NoAssetFound {
                chain: chain_name@,
            }),
        },
{
    if assets.assets.len() == 0 {
        Err(RegistryError::NoAssetFound { chain: chain_name.to_owned() })
    } else {
        Ok(assets.assets[0].base.clone())
    }
}

/// The gRPC address of a configuration and its origin.
///
/// A healthy address is used as it is. Without one, the first advertised
/// endpoint is used unverified, as a URL; where the registry advertises
/// none, the RPC address takes its place.
pub open spec fn grpc_choice(
    grpc_address: Result<String, RegistryError>,
    advertised: Seq<String>,
    rpc_address: Seq<char>,
) -> Result<(Seq<char>, GrpcOrigin), RegistryErrorView> {
    match grpc_address {
        Ok(address) => Ok((address@, GrpcOrigin::Verified)),
        Err(_) => if advertised.len() == 0 {
            Ok((rpc_address, GrpcOrigin::RpcFallback))
        } else {
            match tendermint_url(advertised[0]@) {
                Some(url) => Ok((url, GrpcOrigin::Declared)),
                None => Err(RegistryErrorView::TendermintUrlParse { address: advertised[0]@ }),
            }
        },
    }
}

/// Chooses the gRPC address of a configuration: see [`grpc_choice`].
pub fn choose_grpc(
    grpc_address: Result<String, RegistryError>,
    advertised: &Vec<String>,
    rpc_address: &String,
) -> (r: Result<(String, GrpcOrigin), RegistryError>)
    ensures
        match r {
            Ok((address, origin)) => grpc_choice(grpc_address, advertised@, rpc_address@) == Ok::<
                (Seq<char>, GrpcOrigin),
                RegistryErrorView,
            >((address@, origin)),
            Err(e) => grpc_choice(grpc_address, advertised@, rpc_address@) == Err::<
                (Seq<char>, GrpcOrigin),
                RegistryErrorView,
            >(e@),
        },
{
    match grpc_address {
        Ok(address) => Ok((address, GrpcOrigin::Verified)),
        Err(_) => {
            if advertised.len() == 0 {
                Ok((rpc_address.clone(), GrpcOrigin::RpcFallback))
            } else {
                match parse_url(advertised[0].as_str()) {
                    Ok(url) => Ok((url, GrpcOrigin::Declared)),
                    Err(_) => Err(
                        RegistryError::TendermintUrlParse { address: advertised[0].clone() },
                    ),
                }
            }
        },
    }
}

/// Whether `config` is the configuration of the chain `chain_data` with the
/// given gas denomination, packet filter, RPC endpoint, gRPC address and
/// WebSocket address.
pub open spec fn is_config_of(
    config: ChainConfig,
    chain_data: ChainData,
    denom: String,
    packet_filter: Option<PacketFilter>,
    rpc_data: HermesConfigData,
    grpc: (Seq<char>, GrpcOrigin),
    websocket: Seq<char>,
) -> bool {
    &&& config.id == chain_data.chain_id
    &&& config.rpc_addr == rpc_data.rpc_address
    &&& config.websocket_addr@ == websocket
    &&& config.grpc_addr@ == grpc.0
    &&& config.grpc_origin == grpc.1
    &&& config.trusted_node
    &&& config.account_prefix == chain_data.bech32_prefix
    &&& config.key_name@.len() == 0
    &&& config.store_prefix@ == "ibc"@
    &&& config.default_gas == Some(DEFAULT_GAS)
    &&& config.max_gas == Some(MAX_GAS)
    &&& config.gas_multiplier_milli == Some(GAS_MULTIPLIER_MILLI)
    &&& config.gas_price.price_milli == GAS_PRICE_MILLI
    &&& config.gas_price.denom == denom
    &&& config.packet_filter == match packet_filter {
        Some(filter) => filter,
        None => PacketFilter::AllowAll,
    }
    &&& !config.ccv_consumer_chain
    &&& !config.sequential_batch_tx
}

/// The configuration of a chain, or the reason why none can be assembled:
/// the gRPC address is chosen first, then the WebSocket address is
/// checked.
pub open spec fn is_assembled(
    r: Result<ChainConfig, RegistryError>,
    chain_data: ChainData,
    denom: String,
    packet_filter: Option<PacketFilter>,
    advertised_grpc: Seq<String>,
    rpc_data: HermesConfigData,
    grpc_address: Result<String, RegistryError>,
) -> bool {
    match grpc_choice(grpc_address, advertised_grpc, rpc_data.rpc_address@) {
        Err(e) => r matches Err(x) && x@ == e,
        Ok(grpc) => match tendermint_websocket_url(rpc_data.websocket@) {
            None => r matches Err(x) && x@ == (RegistryErrorView::WebsocketUrlParse {
                address: rpc_data.websocket@,
            }),
            Some(websocket) => r matches Ok(config) && is_config_of(
                config,
                chain_data,
                denom,
                packet_filter,
                rpc_data,
                grpc,
                websocket,
            ),
        },
    }
}

/// Assembles the configuration of a chain from its identity, its gas
/// denomination, its packet filter if it has one, its formatted gRPC
/// endpoints, the RPC endpoint that was found healthy, and the outcome of
/// the search for a healthy gRPC address.
///
/// A gRPC address that no probe verified is marked as such in
/// `grpc_origin`. Without a packet filter the configuration allows every
/// channel.
pub fn assemble_config(
    chain_data: ChainData,
    denom: String,
    packet_filter: Option<PacketFilter>,
    advertised_grpc: &Vec<String>,
    rpc_data: HermesConfigData,
    grpc_address: Result<String, RegistryError>,
) -> (r: Result<ChainConfig, RegistryError>)
    ensures
        is_assembled(
            r,
            chain_data,
            denom,
            packet_filter,
            advertised_grpc@,
            rpc_data,
            grpc_address,
        ),
        r matches Ok(config) ==> (config.grpc_origin == GrpcOrigin::Verified <==> grpc_address
            is Ok),
        r matches Ok(config) ==> (grpc_address is Err && advertised_grpc.len() == 0 ==> (
        config.grpc_origin == GrpcOrigin::RpcFallback && config.grpc_addr@
            == rpc_data.rpc_address@)),
{
    let (grpc_addr, grpc_origin) = match choose_grpc(
        grpc_address,
        advertised_grpc,
        &rpc_data.rpc_address,
    ) {
        Ok(chosen) => chosen,
        Err(e) => {
            return Err(e);
        },
    };
    let websocket_addr = match parse_websocket_url(rpc_data.websocket.as_str()) {
        Ok(websocket_addr) => websocket_addr,
        Err(_) => {
            return Err(RegistryError::WebsocketUrlParse { address: rpc_data.websocket });
        },
    };
    Ok(
        ChainConfig {
            id: chain_data.chain_id,
            rpc_addr: rpc_data.rpc_address,
            websocket_addr,
            grpc_addr,
            grpc_origin,
            trusted_node: true,
            account_prefix: chain_data.bech32_prefix,
            key_name: String::new(),
            store_prefix: String::from_str("ibc"),
            default_gas: Some(DEFAULT_GAS),
            max_gas: Some(MAX_GAS),
            gas_multiplier_milli: Some(GAS_MULTIPLIER_MILLI),
            gas_price: GasPrice { price_milli: GAS_PRICE_MILLI, denom },
            packet_filter: PacketFilter::unwrap_or_default(packet_filter),
            ccv_consumer_chain: false,
            sequential_batch_tx: false,
        },
    )
}

/// Whether `r` is what the resolution of a chain gives when `endpoints`
/// are its formatted gRPC endpoints, the search for an RPC endpoint ended
/// in `rpc` (`None` for a search that spent its budget) and the search for
/// a gRPC address in `grpc`.
///
/// A chain without assets fails first, then one with a gRPC address that
/// cannot be formatted, then one without a healthy RPC endpoint. A search
/// that succeeded gives the success of a probe of one of its endpoints;
/// one that failed shows that every probe may fail. A failed search for a
/// gRPC address does not fail the resolution: the result is that of
/// [`assemble_config`].
pub open spec fn is_hermes_config<GrpcQuerier, RpcQuerier>(
    chain_data: ChainData,
    assets: AssetList,
    packet_filter: Option<PacketFilter>,
    endpoints: Seq<String>,
    rpc: Option<HermesConfigData>,
    grpc: Result<String, RegistryError>,
    r: Result<ChainConfig, RegistryError>,
) -> bool where
    GrpcQuerier: QueryContext<QueryInput = String, QueryOutput = String, QueryError = RegistryError>,
    RpcQuerier: QueryContext<
        QueryInput = String,
        QueryOutput = HermesConfigData,
        QueryError = RegistryError,
    >,
 {
    if assets.assets.len() == 0 {
        r matches Err(x) && x@ == (RegistryErrorView::NoAssetFound { chain: chain_data.chain_name@ })
    } else {
        match formatted_grpc(chain_data.grpc@) {
            Err(e) => r matches Err(x) && x@ == e,
            Ok(formatted) => {
                &&& formatted == strings_view(endpoints)
                &&& match rpc {
                    None => may_all_fail::<RpcQuerier>(chain_data.rpc@) && (r matches Err(x) && x@
                        == unhealthy(chain_data.rpc@, chain_data.chain_name@)),
                    Some(rpc_data) => {
                        &&& is_success_of::<RpcQuerier>(chain_data.rpc@, rpc_data)
                        &&& match grpc {
                            Ok(address) => is_success_of::<GrpcQuerier>(endpoints, address),
                            Err(_) => may_all_fail::<GrpcQuerier>(endpoints),
                        }
                        &&& is_assembled(
                            r,
                            chain_data,
                            assets.assets[0].base,
                            packet_filter,
                            endpoints,
                            rpc_data,
                            grpc,
                        )
                    },
                }
            },
        }
    }
}

/// Whether `r` is what the resolution of a chain may give: see
/// [`is_hermes_config`].
pub open spec fn is_resolution<GrpcQuerier, RpcQuerier>(
    chain_data: ChainData,
    assets: AssetList,
    packet_filter: Option<PacketFilter>,
    r: Result<ChainConfig, RegistryError>,
) -> bool where
    GrpcQuerier: QueryContext<QueryInput = String, QueryOutput = String, QueryError = RegistryError>,
    RpcQuerier: QueryContext<
        QueryInput = String,
        QueryOutput = HermesConfigData,
        QueryError = RegistryError,
    >,
 {
    exists|endpoints: Seq<String>, rpc: Option<HermesConfigData>, grpc: Result<String, RegistryError>|
        is_hermes_config::<GrpcQuerier, RpcQuerier>(
            chain_data,
            assets,
            packet_filter,
            endpoints,
            rpc,
            grpc,
            r,
        )
}

/// The configuration of a chain from its registry records: a bounded retry
/// over its RPC endpoints, one over its gRPC endpoints, then the assembly.
///
/// Fails where the chain has no asset, where an advertised gRPC address
/// cannot be formatted, where no RPC endpoint is healthy, or where the
/// assembly fails. A failed search for a gRPC address is absorbed by the
/// fallback of [`grpc_choice`].
pub fn hermes_config<GrpcQuerier, RpcQuerier>(
    chain_data: ChainData,
    assets: AssetList,
    packet_filter: Option<PacketFilter>,
) -> (r: Result<ChainConfig, RegistryError>) where
    GrpcQuerier: QueryContext<QueryInput = String, QueryOutput = String, QueryError = RegistryError>,
    RpcQuerier: QueryContext<
        QueryInput = String,
        QueryOutput = HermesConfigData,
        QueryError = RegistryError,
    >,

    ensures
        is_resolution::<GrpcQuerier, RpcQuerier>(chain_data, assets, packet_filter, r),
        r matches Ok(config) ==> {
            &&& config.id == chain_data.chain_id
            &&& config.account_prefix == chain_data.bech32_prefix
            &&& assets.assets.len() > 0
            &&& config.gas_price.denom == assets.assets[0].base
            &&& config.gas_price.price_milli == GAS_PRICE_MILLI
            &&& config.packet_filter == match packet_filter {
                Some(filter) => filter,
                None => PacketFilter::AllowAll,
            }
            &&& (chain_data.grpc.len() == 0 ==> config.grpc_origin == GrpcOrigin::RpcFallback
                && config.grpc_addr@ == config.rpc_addr@)
        },
{
    let denom = match primary_denom(&assets, chain_data.chain_name.as_str()) {
        Ok(denom) => denom,
        Err(e) => {
            assert(is_hermes_config::<GrpcQuerier, RpcQuerier>(
                chain_data,
                assets,
                packet_filter,
                Seq::empty(),
                None,
                Err(e),
                Err(e),
            ));
            return Err(e);
        },
    };
    let grpc = match grpc_endpoints(&chain_data) {
        Ok(grpc) => grpc,
        Err(e) => {
            assert(is_hermes_config::<GrpcQuerier, RpcQuerier>(
                chain_data,
                assets,
                packet_filter,
                Seq::empty(),
                None,
                Err(e),
                Err(e),
            ));
            return Err(e);
        },
    };
    proof {
        lemma_formatted_grpc_len(chain_data.grpc@);
    }
    let rpc = rpc_endpoints(&chain_data);
    let rpc_data = match query_healthy_retry::<RpcQuerier>(
        chain_data.chain_name.as_str(),
        &rpc,
        MAX_HEALTHY_QUERY_RETRIES_EX,
    ) {
        Ok(rpc_data) => rpc_data,
        Err(e) => {
            assert(is_hermes_config::<GrpcQuerier, RpcQuerier>(
                chain_data,
                assets,
                packet_filter,
                grpc@,
                None,
                Err(e),
                Err(e),
            ));
            return Err(e);
        },
    };
    let grpc_address = query_healthy_retry::<GrpcQuerier>(
        chain_data.chain_name.as_str(),
        &grpc,
        MAX_HEALTHY_QUERY_RETRIES_EX,
    );
    let r = assemble_config(chain_data, denom, packet_filter, &grpc, rpc_data, grpc_address);
    assert(is_hermes_config::<GrpcQuerier, RpcQuerier>(
        chain_data,
        assets,
        packet_filter,
        grpc@,
        Some(rpc_data),
        grpc_address,
        r,
    ));
    r
}

} // verus!
