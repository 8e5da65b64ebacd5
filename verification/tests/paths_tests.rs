use registry_resolver::error::RegistryError;
use registry_resolver::filter::{construct_packet_filters, PacketFilter, PacketFilters};
use registry_resolver::paths::{
    build_paths, channels_from_registry, combine_results, BaseDenomInfo, ChainDesc, ChainInfo,
    ChainShortInfo, Channel, ChannelConfig, ChannelInfo, ChannelPathInfo, ChannelPort, Channels,
    IBCPath, IBCPathInfo,
};

use registry_resolver::querier::{HermesConfigData, TransportConfigData};
use registry_resolver::select::{endpoint_candidates, fallback_grpc, fallback_rpc};
use registry_resolver::transport::ChainTransport;

fn s(text: &str) -> String {
    text.to_string()
}

fn denom(symbol: &str) -> BaseDenomInfo {
    BaseDenomInfo { id: 1, chain_id: 2, base: s("u"), display: s("d"), name: s("n"), symbol: s(symbol) }
}

fn record(source: &str, destination: &str, symbol: &str) -> ChannelInfo {
    ChannelInfo {
        source_chain_id: s("phoenix-1"),
        destination_chain_id: s("osmosis-1"),
        source_channel_id: s(source),
        destination_channel_id: s(destination),
        port_id: s("transfer"),
        destination_port_id: s("transfer"),
        source_denom: s("uluna"),
        destination_denom: s("ibc/abc"),
        base_denom: denom(symbol),
    }
}

fn end(port: &str, channel: &str) -> ChannelPort {
    ChannelPort { channel_id: s(channel), port_id: s(port) }
}

fn path(a: &str, b: &str, channels: Vec<Channel>) -> IBCPath {
    IBCPath {
        chain_1: ChainDesc { chain_name: s(a) },
        chain_2: ChainDesc { chain_name: s(b) },
        channels,
    }
}

fn transfer(a: &str, b: &str) -> Channel {
    Channel { chain_1: end("transfer", a), chain_2: end("transfer", b) }
}

fn allowed(filters: &PacketFilters, chain: &str) -> Option<PacketFilter> {
    filters.clone().remove(chain)
}

#[test]
fn connection_list_deserialize() {
    let json = r#"
        [
            {
                "id": 1,
                "chainId": "phoenix-1",
                "chainName": "phoenix",
                "prettyName": "Phoenix",
                "extras": {
                    "fees": {
                        "fee_tokens": [{
                            "denom": "uatom",
                            "low_gas_price": 0.01,
                            "high_gas_price": 0.03,
                            "average_gas_price": 0.025,
                            "fixed_min_gas_price": 0
                        }]
                    },
                    "slip44": 118,
                    "staking": {
                    "staking_tokens": [
                        {
                        "denom": "uatom"
                        }
                    ]
                    },
                        "bech32_prefix": "cosmos"
                }
            },
            {
                "id": 2,
                "chainId": "phoenix-2",
                "chainName": "phoenix",
                "prettyName": "Phoenix"
            }
        ]"#;

    let parsed: serde_json::Value = serde_json::from_str(json).unwrap();
    let text = |value: &serde_json::Value, key: &str| -> String {
        value.get(key).and_then(|v| v.as_str()).unwrap_or_default().to_string()
    };
    let connections: Vec<ChainInfo> = parsed
        .as_array()
        .unwrap()
        .iter()
        .map(|value| ChainInfo {
            id: value.get("id").and_then(|v| v.as_i64()).unwrap_or_default() as i32,
            chain_id: text(value, "chainId"),
            chain_name: text(value, "chainName"),
            pretty_name: text(value, "prettyName"),
        })
        .collect();
    assert_eq!(connections.len(), 2);
    assert_eq!(connections[0].id, 1);
    assert_eq!(connections[0].chain_id, "phoenix-1");
}

#[test]
fn combine_results_merges_every_answer() {
    let first = Channels { data: vec![record("channel-1", "channel-2", "LUNA")] };
    let second = Channels { data: vec![record("channel-3", "channel-4", "OSMO")] };
    let combined = combine_results(vec![
        Ok(first),
        Err(RegistryError::Fetch { resource: s("tfm") }),
        Ok(second),
    ]);
    assert_eq!(
        combined,
        Ok(Channels {
            data: vec![
                record("channel-1", "channel-2", "LUNA"),
                record("channel-3", "channel-4", "OSMO"),
            ]
        })
    );
}

#[test]
fn combine_results_keeps_an_empty_answer() {
    let combined = combine_results(vec![
        Err(RegistryError::Fetch { resource: s("tfm") }),
        Ok(Channels { data: vec![] }),
    ]);
    assert_eq!(combined, Ok(Channels { data: vec![] }));
}

#[test]
fn combine_results_fails_without_any_answer() {
    let combined = combine_results(vec![
        Err(RegistryError::Fetch { resource: s("tfm") }),
        Err(RegistryError::Fetch { resource: s("file") }),
    ]);
    assert_eq!(combined, Err(RegistryError::NoChannelsFound));
    assert_eq!(combine_results(vec![]), Err(RegistryError::NoChannelsFound));
}

#[test]
fn channels_from_registry_selects_destination() {
    let config = |channel: &str| ChannelConfig {
        channel_id: s(channel),
        port_id: s("transfer"),
        client_id: s("07-tendermint-0"),
        connection_id: s("connection-0"),
    };
    let entry = |chain_id: &str, source: &str, target: &str| IBCPathInfo {
        chain: ChainShortInfo { chain_name: s(""), chain_id: s(chain_id) },
        source: config(source),
        target: config(target),
    };
    let info = ChannelPathInfo {
        chain: ChainShortInfo { chain_name: s("phoenix"), chain_id: s("phoenix-1") },
        channels: vec![
            entry("osmosis-1", "channel-1", "channel-251"),
            entry("juno-1", "channel-2", "channel-86"),
            entry("osmosis-1", "channel-7", "channel-300"),
        ],
    };
    let found = channels_from_registry(&info, "osmosis-1");
    assert_eq!(found.data.len(), 2);
    assert_eq!(found.data[0].source_channel_id, "channel-1");
    assert_eq!(found.data[0].destination_channel_id, "channel-251");
    assert_eq!(found.data[0].port_id, "transfer");
    assert_eq!(found.data[0].destination_port_id, "transfer");
    assert_eq!(found.data[0].source_chain_id, "");
    assert_eq!(found.data[0].base_denom.symbol, "");
    assert_eq!(found.data[1].source_channel_id, "channel-7");
    assert_eq!(channels_from_registry(&info, "evmos-1").data.len(), 0);
}

#[test]
fn build_paths_collapses_repeated_channels() {
    let mut path_data = vec![path("juno", "osmosis", vec![transfer("channel-0", "channel-42")])];
    let channels = Channels {
        data: vec![
            record("channel-1", "channel-2", "LUNA"),
            record("channel-1", "channel-2", "OSMO"),
            record("channel-5", "channel-2", "LUNA"),
            record("channel-1", "channel-2", "ATOM"),
        ],
    };
    build_paths(&mut path_data, "phoenix", "osmosis", Ok(channels));
    assert_eq!(path_data.len(), 2);
    assert_eq!(path_data[0], path("juno", "osmosis", vec![transfer("channel-0", "channel-42")]));
    assert_eq!(
        path_data[1],
        path(
            "phoenix",
            "osmosis",
            vec![transfer("channel-1", "channel-2"), transfer("channel-5", "channel-2")]
        )
    );
}

#[test]
fn build_paths_skips_a_pair_without_channels_source() {
    let mut path_data = vec![path("juno", "osmosis", vec![transfer("channel-0", "channel-42")])];
    build_paths(&mut path_data, "phoenix", "osmosis", Err(RegistryError::NoChannelsFound));
    assert_eq!(path_data, vec![path("juno", "osmosis", vec![transfer("channel-0", "channel-42")])]);
}

#[test]
fn build_paths_of_no_channels_is_an_empty_path() {
    let mut path_data = vec![];
    build_paths(&mut path_data, "a", "b", Ok(Channels { data: vec![] }));
    assert_eq!(path_data, vec![path("a", "b", vec![])]);
}

#[test]
fn repeated_channel_pairs_give_one_filter_entry() {
    let thrice = || {
        vec![
            transfer("channel-1", "channel-2"),
            transfer("channel-1", "channel-2"),
            transfer("channel-1", "channel-2"),
        ]
    };
    let mut filters =
        construct_packet_filters(vec![path("a", "b", thrice()), path("a", "b", thrice())]);
    assert_eq!(filters.entries.len(), 2);
    assert_eq!(
        filters.remove("a"),
        Some(PacketFilter::Allow(vec![(s("transfer"), s("channel-1"))]))
    );
    assert_eq!(
        filters.remove("b"),
        Some(PacketFilter::Allow(vec![(s("transfer"), s("channel-2"))]))
    );
    assert_eq!(filters.remove("a"), None);
    assert_eq!(filters.entries.len(), 0);
}

#[test]
fn filters_group_by_chain_in_order_of_first_occurrence() {
    let filters = construct_packet_filters(vec![
        path("cosmoshub", "juno", vec![transfer("channel-207", "channel-1")]),
        path("cosmoshub", "osmosis", vec![transfer("channel-141", "channel-0")]),
        path(
            "juno",
            "osmosis",
            vec![
                transfer("channel-0", "channel-42"),
                Channel {
                    chain_1: end("wasm.juno1v4887", "channel-47"),
                    chain_2: end("transfer", "channel-169"),
                },
            ],
        ),
        path("evmos", "juno", vec![]),
    ]);
    assert_eq!(
        allowed(&filters, "cosmoshub"),
        Some(PacketFilter::Allow(vec![
            (s("transfer"), s("channel-207")),
            (s("transfer"), s("channel-141")),
        ]))
    );
    assert_eq!(
        allowed(&filters, "juno"),
        Some(PacketFilter::Allow(vec![
            (s("transfer"), s("channel-1")),
            (s("transfer"), s("channel-0")),
            (s("wasm.juno1v4887"), s("channel-47")),
        ]))
    );
    assert_eq!(
        allowed(&filters, "osmosis"),
        Some(PacketFilter::Allow(vec![
            (s("transfer"), s("channel-0")),
            (s("transfer"), s("channel-42")),
            (s("transfer"), s("channel-169")),
        ]))
    );
    assert_eq!(allowed(&filters, "evmos"), None);
    assert_eq!(filters.entries.len(), 3);
}

#[test]
fn no_paths_give_no_filters() {
    assert_eq!(construct_packet_filters(vec![]).entries.len(), 0);
}

#[test]
fn packet_filter_defaults_to_allow_all() {
    assert_eq!(PacketFilter::unwrap_or_default(None), PacketFilter::AllowAll);
    let filter = PacketFilter::allow(vec![(s("transfer"), s("channel-1"))]);
    assert_eq!(PacketFilter::unwrap_or_default(Some(filter.clone())), filter);
}

#[test]
fn endpoint_candidates_pair_usable_rpc_with_every_grpc() {
    let rpc = |address: &str, websocket: &str| HermesConfigData {
        rpc_address: s(address),
        max_block_size: 0,
        websocket: s(websocket),
    };
    let transport = TransportConfigData {
        rpc: vec![
            rpc("http://a:1/", "http://a:1/websocket"),
            rpc("https://b/", "wss://b:443/websocket"),
            rpc("http://c:3/", "ws://c:3/websocket"),
        ],
        grpc: vec![s("https://g1/"), s("https://g2/")],
    };
    let pick = |address: &str, websocket: &str, grpc: &str| ChainTransport {
        rpc_addr: s(address),
        websocket_addr: s(websocket),
        grpc_addr: s(grpc),
    };
    assert_eq!(
        endpoint_candidates(&transport),
        vec![
            pick("https://b/", "wss://b/websocket", "https://g1/"),
            pick("https://b/", "wss://b/websocket", "https://g2/"),
            pick("http://c:3/", "ws://c:3/websocket", "https://g1/"),
            pick("http://c:3/", "ws://c:3/websocket", "https://g2/"),
        ]
    );
    assert_eq!(fallback_rpc(&transport), Some((s("https://b/"), s("wss://b/websocket"))));
    assert_eq!(fallback_grpc(&transport), Some(s("https://g1/")));
    let none = TransportConfigData { rpc: vec![rpc("http://a:1/", "http://a:1/websocket")], grpc: vec![] };
    assert_eq!(endpoint_candidates(&none), vec![]);
    assert_eq!(fallback_rpc(&none), None);
    assert_eq!(fallback_grpc(&none), None);
}
