use registry_resolver::batch::{
    chain_id_of, chain_pairs, collect_all, fetch_chunks, get_configs, normalize_chains,
    path_resource,
};
use registry_resolver::chain::{Asset, AssetList, ChainData};
use registry_resolver::config::{
    assemble_config, choose_grpc, hermes_config, primary_denom, ChainConfig, GasPrice, GrpcOrigin,
};
use registry_resolver::error::RegistryError;
use registry_resolver::filter::PacketFilter;
use registry_resolver::paths::{ChainDesc, Channel, ChannelPort, IBCPath};
use registry_resolver::querier::{
    HermesConfigData, TransportConfigData, VoidGrpcHealthCheckQuerier, VoidHermesRpcQuerier,
};
use registry_resolver::transport::{
    chain_healthy_transport, chain_transport, grpc_endpoints, healthy_transport, rpc_endpoints,
    single_transport, ChainTransport,
};

fn s(text: &str) -> String {
    text.to_string()
}

fn names(list: &[&str]) -> Vec<String> {
    list.iter().map(|n| n.to_string()).collect()
}

fn chain(name: &str, rpc: &[&str], grpc: &[&str]) -> ChainData {
    ChainData {
        chain_name: s(name),
        chain_id: format!("{}-1", name),
        bech32_prefix: s(name),
        rpc: names(rpc),
        grpc: names(grpc),
    }
}

fn assets(name: &str, bases: &[&str]) -> AssetList {
    AssetList {
        chain_name: s(name),
        assets: bases
            .iter()
            .map(|base| Asset { base: s(base), name: s("Token"), symbol: s("TKN") })
            .collect(),
    }
}

fn local_descriptor() -> HermesConfigData {
    HermesConfigData {
        rpc_address: s("http://localhost:26657/"),
        max_block_size: 0,
        websocket: s("ws://localhost:26657/websocket"),
    }
}

fn expected_config(name: &str, grpc_addr: &str, grpc_origin: GrpcOrigin, denom: &str) -> ChainConfig {
    ChainConfig {
        id: format!("{}-1", name),
        rpc_addr: s("http://localhost:26657/"),
        websocket_addr: s("ws://localhost:26657/websocket"),
        grpc_addr: s(grpc_addr),
        grpc_origin,
        trusted_node: true,
        account_prefix: s(name),
        key_name: s(""),
        store_prefix: s("ibc"),
        default_gas: Some(100000),
        max_gas: Some(400000),
        gas_multiplier_milli: Some(1100),
        gas_price: GasPrice { price_milli: 100, denom: s(denom) },
        packet_filter: PacketFilter::AllowAll,
        ccv_consumer_chain: false,
        sequential_batch_tx: false,
    }
}

#[test]
fn endpoints_are_formatted_for_probing() {
    let data = chain("juno", &["http://localhost:26657"], &["grpc.juno.example:9090/", "https://g2.example/"]);
    assert_eq!(rpc_endpoints(&data), names(&["http://localhost:26657"]));
    assert_eq!(
        grpc_endpoints(&data),
        Ok(names(&["https://grpc.juno.example:9090/", "https://g2.example/"]))
    );
}

#[test]
fn first_malformed_grpc_endpoint_fails_the_formatting() {
    let data = chain("juno", &[], &["grpc.example:9090", "bad one", "/second/bad"]);
    assert_eq!(grpc_endpoints(&data), Err(RegistryError::UriParse { address: s("bad one") }));
}

#[test]
fn healthy_transport_degrades_to_empty_lists() {
    let none = healthy_transport(
        Err(RegistryError::NoHealthyRpc { chain: s("juno") }),
        Err(RegistryError::NoHealthyGrpc { chain: s("juno") }),
    );
    assert_eq!(none, TransportConfigData { rpc: vec![], grpc: vec![] });
    let some = healthy_transport(Ok(vec![local_descriptor()]), Ok(vec![s("https://g.example/")]));
    assert_eq!(
        some,
        TransportConfigData { rpc: vec![local_descriptor()], grpc: vec![s("https://g.example/")] }
    );
}

#[test]
fn exhaustive_resolution_keeps_every_healthy_endpoint() {
    let data = chain(
        "juno",
        &["not a uri", "http://localhost:26657"],
        &["grpc.a.example:9090", "grpc.b.example:9090"],
    );
    assert_eq!(
        chain_healthy_transport::<VoidGrpcHealthCheckQuerier, VoidHermesRpcQuerier>(data),
        Ok(TransportConfigData {
            rpc: vec![local_descriptor()],
            grpc: vec![s("https://grpc.a.example:9090/"), s("https://grpc.b.example:9090/")],
        })
    );
}

#[test]
fn exhaustive_resolution_absorbs_unhealthy_sides() {
    let data = chain("juno", &["not a uri"], &[]);
    assert_eq!(
        chain_healthy_transport::<VoidGrpcHealthCheckQuerier, VoidHermesRpcQuerier>(data),
        Ok(TransportConfigData { rpc: vec![], grpc: vec![] })
    );
}

#[test]
fn single_pick_resolution_needs_both_sides() {
    let both = chain("juno", &["http://localhost:26657"], &["grpc.a.example:9090"]);
    assert_eq!(
        chain_transport::<VoidGrpcHealthCheckQuerier, VoidHermesRpcQuerier>(both),
        Ok(ChainTransport {
            rpc_addr: s("http://localhost:26657/"),
            websocket_addr: s("ws://localhost:26657/websocket"),
            grpc_addr: s("https://grpc.a.example:9090/"),
        })
    );
    let no_grpc = chain("juno", &["http://localhost:26657"], &[]);
    assert_eq!(
        chain_transport::<VoidGrpcHealthCheckQuerier, VoidHermesRpcQuerier>(no_grpc),
        Err(RegistryError::UnhealthyEndpoints { endpoints: vec![], retries: 5, chain: s("juno") })
    );
    let no_rpc = chain("juno", &["not a uri"], &["grpc.a.example:9090"]);
    assert_eq!(
        chain_transport::<VoidGrpcHealthCheckQuerier, VoidHermesRpcQuerier>(no_rpc),
        Err(RegistryError::UnhealthyEndpoints {
            endpoints: names(&["not a uri"]),
            retries: 5,
            chain: s("juno"),
        })
    );
}

#[test]
fn single_transport_rejects_websocket_address_with_other_scheme() {
    let data = HermesConfigData {
        rpc_address: s("http://localhost:26657/"),
        max_block_size: 0,
        websocket: s("http://localhost:26657/websocket"),
    };
    assert_eq!(
        single_transport(data, s("https://g.example/")),
        Err(RegistryError::WebsocketUrlParse { address: s("http://localhost:26657/websocket") })
    );
}

#[test]
fn primary_denom_is_base_of_first_asset() {
    assert_eq!(primary_denom(&assets("juno", &["ujuno", "other"]), "juno"), Ok(s("ujuno")));
    assert_eq!(
        primary_denom(&assets("juno", &[]), "juno"),
        Err(RegistryError::NoAssetFound { chain: s("juno") })
    );
}

#[test]
fn grpc_choice_prefers_verified_then_declared_then_rpc() {
    let failed = || Err(RegistryError::NoHealthyGrpc { chain: s("juno") });
    let rpc = s("http://localhost:26657/");
    assert_eq!(
        choose_grpc(Ok(s("https://g.example/")), &names(&["https://other.example"]), &rpc),
        Ok((s("https://g.example/"), GrpcOrigin::Verified))
    );
    assert_eq!(
        choose_grpc(failed(), &names(&["https://other.example:9090", "https://x.example"]), &rpc),
        Ok((s("https://other.example:9090/"), GrpcOrigin::Declared))
    );
    assert_eq!(
        choose_grpc(failed(), &vec![], &rpc),
        Ok((s("http://localhost:26657/"), GrpcOrigin::RpcFallback))
    );
    assert_eq!(
        choose_grpc(failed(), &names(&["no-scheme.example:9090"]), &rpc),
        Err(RegistryError::TendermintUrlParse { address: s("no-scheme.example:9090") })
    );
}

#[test]
fn config_without_grpc_falls_back_to_rpc_address() {
    let config = assemble_config(
        chain("juno", &["http://localhost:26657"], &[]),
        s("ujuno"),
        None,
        &vec![],
        local_descriptor(),
        Err(RegistryError::UnhealthyEndpoints { endpoints: vec![], retries: 5, chain: s("juno") }),
    )
    .unwrap();
    assert_eq!(config.grpc_addr, config.rpc_addr);
    assert_eq!(config.grpc_origin, GrpcOrigin::RpcFallback);
    assert_eq!(
        config,
        expected_config("juno", "http://localhost:26657/", GrpcOrigin::RpcFallback, "ujuno")
    );
}

#[test]
fn config_with_verified_grpc_and_filter() {
    let filter = PacketFilter::allow(vec![(s("transfer"), s("channel-1"))]);
    let config = assemble_config(
        chain("juno", &["http://localhost:26657"], &["g.example:9090"]),
        s("ujuno"),
        Some(filter.clone()),
        &names(&["https://g.example:9090/"]),
        local_descriptor(),
        Ok(s("https://g.example:9090/")),
    )
    .unwrap();
    let mut expected =
        expected_config("juno", "https://g.example:9090/", GrpcOrigin::Verified, "ujuno");
    expected.packet_filter = filter;
    assert_eq!(config, expected);
}

#[test]
fn config_rejects_websocket_address_with_other_scheme() {
    let data = HermesConfigData {
        rpc_address: s("http://localhost:26657/"),
        max_block_size: 0,
        websocket: s("https://localhost:26657/websocket"),
    };
    assert_eq!(
        assemble_config(chain("juno", &[], &[]), s("ujuno"), None, &vec![], data, Ok(s("https://g/"))),
        Err(RegistryError::WebsocketUrlParse { address: s("https://localhost:26657/websocket") })
    );
}

#[test]
fn hermes_config_resolves_a_chain() {
    let config = hermes_config::<VoidGrpcHealthCheckQuerier, VoidHermesRpcQuerier>(
        chain("juno", &["bad rpc", "http://localhost:26657"], &["g.example:9090"]),
        assets("juno", &["ujuno"]),
        None,
    );
    assert_eq!(
        config,
        Ok(expected_config("juno", "https://g.example:9090/", GrpcOrigin::Verified, "ujuno"))
    );
}

#[test]
fn hermes_config_without_grpc_endpoints_uses_rpc_address() {
    let config = hermes_config::<VoidGrpcHealthCheckQuerier, VoidHermesRpcQuerier>(
        chain("juno", &["http://localhost:26657"], &[]),
        assets("juno", &["ujuno"]),
        None,
    );
    assert_eq!(
        config,
        Ok(expected_config("juno", "http://localhost:26657/", GrpcOrigin::RpcFallback, "ujuno"))
    );
}

#[test]
fn hermes_config_fails_without_assets_or_rpc() {
    assert_eq!(
        hermes_config::<VoidGrpcHealthCheckQuerier, VoidHermesRpcQuerier>(
            chain("juno", &["http://localhost:26657"], &[]),
            assets("juno", &[]),
            None,
        ),
        Err(RegistryError::NoAssetFound { chain: s("juno") })
    );
    assert_eq!(
        hermes_config::<VoidGrpcHealthCheckQuerier, VoidHermesRpcQuerier>(
            chain("juno", &["bad rpc"], &[]),
            assets("juno", &["ujuno"]),
            None,
        ),
        Err(RegistryError::UnhealthyEndpoints {
            endpoints: names(&["bad rpc"]),
            retries: 5,
            chain: s("juno"),
        })
    );
}

#[test]
fn chain_names_are_compared_in_lower_case() {
    assert_eq!(normalize_chains(&names(&["CosmosHub", "juno", "OSMOSIS"])), names(&["cosmoshub", "juno", "osmosis"]));
}

#[test]
fn chunks_hold_five_names_each() {
    let twelve: Vec<String> = (0..12).map(|i| format!("chain{}", i)).collect();
    let chunks = fetch_chunks(&twelve);
    assert_eq!(chunks.len(), 3);
    assert_eq!(chunks[0], twelve[0..5].to_vec());
    assert_eq!(chunks[1], twelve[5..10].to_vec());
    assert_eq!(chunks[2], twelve[10..12].to_vec());
    let five: Vec<String> = twelve[0..5].to_vec();
    assert_eq!(fetch_chunks(&five), vec![five.clone()]);
    let six: Vec<String> = twelve[0..6].to_vec();
    assert_eq!(fetch_chunks(&six), vec![twelve[0..5].to_vec(), twelve[5..6].to_vec()]);
    assert_eq!(fetch_chunks(&vec![]).len(), 0);
}

#[test]
fn pairs_without_source_are_all_unordered_pairs() {
    assert_eq!(
        chain_pairs(&names(&["cosmoshub", "Juno", "osmosis"]), &None),
        Ok(vec![
            (s("cosmoshub"), s("juno")),
            (s("cosmoshub"), s("osmosis")),
            (s("juno"), s("osmosis")),
        ])
    );
    assert_eq!(chain_pairs(&names(&["cosmoshub"]), &None), Ok(vec![]));
}

#[test]
fn pairs_with_source_start_at_the_source() {
    assert_eq!(
        chain_pairs(&names(&["cosmoshub", "juno", "osmosis"]), &Some(s("JUNO"))),
        Ok(vec![(s("juno"), s("cosmoshub")), (s("juno"), s("osmosis"))])
    );
}

#[test]
fn source_outside_the_list_is_chain_not_found() {
    assert_eq!(
        chain_pairs(&names(&["a"]), &Some(s("b"))),
        Err(RegistryError::NoChainFound { chain: s("b") })
    );
    assert_eq!(
        get_configs::<VoidGrpcHealthCheckQuerier, VoidHermesRpcQuerier>(
            &names(&["a"]),
            Some(s("b")),
            vec![chain("a", &["http://localhost:26657"], &[])],
            vec![assets("a", &["ua"])],
            vec![],
        ),
        Err(RegistryError::NoChainFound { chain: s("b") })
    );
}

#[test]
fn fetch_no_chain() {
    let configs = get_configs::<VoidGrpcHealthCheckQuerier, VoidHermesRpcQuerier>(
        &vec![],
        None,
        vec![],
        vec![],
        vec![],
    )
    .unwrap();
    assert_eq!(configs.len(), 0);
    assert_eq!(chain_pairs(&vec![], &Some(s("b"))), Ok(vec![]));
}

#[test]
fn batch_resolves_every_chain_with_its_filter() {
    let path = IBCPath {
        chain_1: ChainDesc { chain_name: s("a") },
        chain_2: ChainDesc { chain_name: s("b") },
        channels: vec![Channel {
            chain_1: ChannelPort { channel_id: s("channel-1"), port_id: s("transfer") },
            chain_2: ChannelPort { channel_id: s("channel-2"), port_id: s("transfer") },
        }],
    };
    let configs = get_configs::<VoidGrpcHealthCheckQuerier, VoidHermesRpcQuerier>(
        &names(&["A", "b", "c"]),
        None,
        vec![
            chain("a", &["http://localhost:26657"], &[]),
            chain("b", &["http://localhost:26657"], &["g.example:9090"]),
            chain("c", &["http://localhost:26657"], &[]),
        ],
        vec![assets("a", &["ua"]), assets("b", &["ub"]), assets("c", &["uc"])],
        vec![path],
    )
    .unwrap();
    assert_eq!(configs.len(), 3);
    let mut a = expected_config("a", "http://localhost:26657/", GrpcOrigin::RpcFallback, "ua");
    a.packet_filter = PacketFilter::Allow(vec![(s("transfer"), s("channel-1"))]);
    let mut b = expected_config("b", "https://g.example:9090/", GrpcOrigin::Verified, "ub");
    b.packet_filter = PacketFilter::Allow(vec![(s("transfer"), s("channel-2"))]);
    let c = expected_config("c", "http://localhost:26657/", GrpcOrigin::RpcFallback, "uc");
    assert_eq!(configs, vec![a, b, c]);
}

#[test]
fn batch_fails_when_one_chain_fails() {
    let result = get_configs::<VoidGrpcHealthCheckQuerier, VoidHermesRpcQuerier>(
        &names(&["a", "b"]),
        None,
        vec![chain("a", &["http://localhost:26657"], &[]), chain("b", &["bad rpc"], &[])],
        vec![assets("a", &["ua"]), assets("b", &["ub"])],
        vec![],
    );
    assert_eq!(
        result,
        Err(RegistryError::UnhealthyEndpoints {
            endpoints: names(&["bad rpc"]),
            retries: 5,
            chain: s("b"),
        })
    );
}

#[test]
fn path_resource_joins_the_two_names() {
    assert_eq!(path_resource("cosmoshub", "osmosis"), "cosmoshub-osmosis.json");
}

#[test]
fn chain_id_lookup_takes_the_last_record() {
    let mut second = chain("juno", &[], &[]);
    second.chain_id = s("juno-2");
    let records = vec![chain("juno", &[], &[]), chain("osmosis", &[], &[]), second];
    assert_eq!(chain_id_of(&records, "juno"), Some(s("juno-2")));
    assert_eq!(chain_id_of(&records, "osmosis"), Some(s("osmosis-1")));
    assert_eq!(chain_id_of(&records, "evmos"), None);
}

#[test]
fn collect_all_is_all_or_nothing() {
    let good: Vec<Result<u32, &str>> = vec![Ok(1), Ok(2)];
    assert_eq!(collect_all(good), Ok(vec![1, 2]));
    let bad: Vec<Result<u32, &str>> = vec![Ok(1), Err("first"), Ok(3), Err("second")];
    assert_eq!(collect_all(bad), Err("first"));
    let empty: Vec<Result<u32, &str>> = vec![];
    assert_eq!(collect_all(empty), Ok(vec![]));
}

#[test]
fn single_transport_normalises_the_websocket_address() {
    let data = HermesConfigData {
        rpc_address: s("https://rpc.example.com/"),
        max_block_size: 0,
        websocket: s("wss://rpc.example.com:443/websocket"),
    };
    assert_eq!(
        single_transport(data, s("https://g.example/")),
        Ok(ChainTransport {
            rpc_addr: s("https://rpc.example.com/"),
            websocket_addr: s("wss://rpc.example.com/websocket"),
            grpc_addr: s("https://g.example/"),
        })
    );
}
