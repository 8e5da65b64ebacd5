//! Channel records, path records, and the paths derived from channel
//! records.

use vstd::prelude::*;
use vstd::string::*;
use crate::dedup::channel_pairs;
use crate::dedup::keep_firsts;
use crate::dedup::unique_by_channel_pair;
use crate::error::RegistryError;
use crate::error::strings_view;
use crate::error::RegistryErrorView;
use crate::text::contains_name;
use crate::text::lowercase;
use crate::text::lowercased;

verus! {

/// The base denomination of a token that moves over a channel.
#[derive(Clone, Debug, PartialEq, Eq)]
pub struct BaseDenomInfo {
    pub id: i32,
    pub chain_id: i32,
    pub base: String,
    pub display: String,
    pub name: String,
    pub symbol: String,
}

/// One channel between two chains, as a channel source reports it. A source
/// may report the same channel once per token.
#[derive(Clone, Debug, PartialEq, Eq)]
pub struct ChannelInfo {
    pub source_chain_id: String,
    pub destination_chain_id: String,
    pub source_channel_id: String,
    pub destination_channel_id: String,
    pub port_id: String,
    pub destination_port_id: String,
    pub source_denom: String,
    pub destination_denom: String,
    pub base_denom: BaseDenomInfo,
}

/// The channels that one source reports for a pair of chains.
#[derive(Clone, Debug, PartialEq, Eq)]
pub struct Channels {
    pub data: Vec<ChannelInfo>,
}

/// One chain, as the chain directory lists it.
#[derive(Clone, Debug, PartialEq, Eq)]
pub struct ChainInfo {
    pub id: i32,
    pub chain_id: String,
    pub chain_name: String,
    pub pretty_name: String,
}

/// One end of a channel.
#[derive(Clone, Debug, PartialEq, Eq)]
pub struct ChannelPort {
    pub channel_id: String,
    pub port_id: String,
}

/// One channel of a path: its end on either chain.
#[derive(Clone, Debug, PartialEq, Eq)]
pub struct Channel {
    pub chain_1: ChannelPort,
    pub chain_2: ChannelPort,
}

/// One chain of a path.
#[derive(Clone, Debug, PartialEq, Eq)]
pub struct ChainDesc {
    pub chain_name: String,
}

/// A path between two named chains: the channels that connect them.
#[derive(Clone, Debug, PartialEq, Eq)]
pub struct IBCPath {
    pub chain_1: ChainDesc,
    pub chain_2: ChainDesc,
    pub channels: Vec<Channel>,
}

/// Name and identifier of a chain in a local channel registry.
#[derive(Clone, Debug, PartialEq, Eq)]
pub struct ChainShortInfo {
    pub chain_name: String,
    pub chain_id: String,
}

/// One end of a channel in a local channel registry.
#[derive(Clone, Debug, PartialEq, Eq)]
pub struct ChannelConfig {
    pub channel_id: String,
    pub port_id: String,
    pub client_id: String,
    pub connection_id: String,
}

/// One channel of a local channel registry, towards the chain `chain`.
#[derive(Clone, Debug, PartialEq, Eq)]
pub struct IBCPathInfo {
    pub chain: ChainShortInfo,
    pub source: ChannelConfig,
    pub target: ChannelConfig,
}

/// A local channel registry: the channels that leave the chain `chain`.
#[derive(Clone, Debug, PartialEq, Eq)]
pub struct ChannelPathInfo {
    pub chain: ChainShortInfo,
    pub channels: Vec<IBCPathInfo>,
}

/// The channel records of every source that answered, in order.
pub open spec fn combined_data(results: Seq<Result<Channels, RegistryError>>) -> Seq<ChannelInfo>
    decreases results.len(),
{
    if results.len() == 0 {
        Seq::empty()
    } else {
        match results[0] {
            Ok(channels) => channels.data@ + combined_data(results.drop_first()),
            Err(_) => combined_data(results.drop_first()),
        }
    }
}

/// Whether any of the sources answered.
pub open spec fn any_answered(results: Seq<Result<Channels, RegistryError>>) -> bool {
    exists|i: int| 0 <= i < results.len() && (#[trigger] results[i]) is Ok
}

/// Merges what several channel sources reported: the records of every
/// source that answered, in order, or `NoChannelsFound` where none did.
pub fn combine_results(results: Vec<Result<Channels, RegistryError>>) -> (r: Result<
    Channels,
    RegistryError,
>)
    ensures
        match r {
            Ok(channels) => any_answered(results@) && channels.data@ == combined_data(results@),
            Err(e) => !any_answered(results@) && e@ == RegistryErrorView::NoChannelsFound,
        },
{
    let mut pending = results;
    let mut data: Vec<ChannelInfo> = Vec::new();
    let mut answered = false;
    let ghost mut done: int = 0;
    while pending.len() > 0
        invariant
            0 <= done <= results.len(),
            pending@ == results@.subrange(done, results.len() as int),
            data@ + combined_data(pending@) == combined_data(results@),
            answered <==> exists|i: int| 0 <= i < done && (#[trigger] results[i]) is Ok,
        decreases pending.len(),
    {
        let ghost before = pending@;
        let ghost data_before = data@;
        let result = pending.remove(0);
        assert(pending@ =~= before.drop_first());
        assert(result == results[done]);
        match result {
            Ok(channels) => {
                let mut more = channels.data;
                data.append(&mut more);
                answered = true;
                assert(data@ + combined_data(pending@) =~= data_before + (channels.data@
                    + combined_data(pending@)));
            },
            Err(_) => {},
        }
        proof {
            done = done + 1;
            assert(pending@ =~= results@.subrange(done, results.len() as int));
        }
    }
    assert(data@ =~= data@ + combined_data(pending@));
    if answered {
        Ok(Channels { data })
    } else {
        Err(RegistryError::NoChannelsFound)
    }
}

/// Whether a channel record stands for an entry of a local channel
/// registry: the entry's channel and port on either side, and nothing else.
pub open spec fn is_registry_channel(channel: ChannelInfo, entry: IBCPathInfo) -> bool {
    &&& channel.source_channel_id@ == entry.source.channel_id@
    &&& channel.destination_channel_id@ == entry.target.channel_id@
    &&& channel.port_id@ == entry.source.port_id@
    &&& channel.destination_port_id@ == entry.target.port_id@
    &&& channel.source_chain_id@.len() == 0
    &&& channel.destination_chain_id@.len() == 0
    &&& channel.source_denom@.len() == 0
    &&& channel.destination_denom@.len() == 0
    &&& channel.base_denom.id == 0
    &&& channel.base_denom.chain_id == 0
    &&& channel.base_denom.base@.len() == 0
    &&& channel.base_denom.display@.len() == 0
    &&& channel.base_denom.name@.len() == 0
    &&& channel.base_denom.symbol@.len() == 0
}

/// The entries of a local channel registry that lead to the chain with the
/// given identifier, in order.
pub open spec fn entries_towards(entries: Seq<IBCPathInfo>, chain_id: Seq<char>) -> Seq<
    IBCPathInfo,
> {
    entries.filter(|entry: IBCPathInfo| entry.chain.chain_id@ == chain_id)
}

/// The channels of a local channel registry that lead to the chain with the
/// identifier `destination_chain_id`.
pub fn channels_from_registry(info: &ChannelPathInfo, destination_chain_id: &str) -> (r: Channels)
    ensures
        r.data@.len() == entries_towards(info.channels@, destination_chain_id@).len(),
        forall|i: int|
            0 <= i < r.data@.len() ==> is_registry_channel(
                #[trigger] r.data@[i],
                entries_towards(info.channels@, destination_chain_id@)[i],
            ),
{
    let destination = destination_chain_id.to_owned();
    let mut data: Vec<ChannelInfo> = Vec::new();
    let mut i: usize = 0;
    while i < info.channels.len()
        invariant
            i <= info.channels.len(),
            destination@ == destination_chain_id@,
            data@.len() == entries_towards(
                info.channels@.take(i as int),
                destination_chain_id@,
            ).len(),
            forall|k: int|
                0 <= k < data@.len() ==> is_registry_channel(
                    #[trigger] data@[k],
                    entries_towards(info.channels@.take(i as int), destination_chain_id@)[k],
                ),
        decreases info.channels.len() - i,
    {
        let entry = &info.channels[i];
        proof {
            let pred = |entry: IBCPathInfo| entry.chain.chain_id@ == destination_chain_id@;
            assert(info.channels@.take(i + 1).drop_last() =~= info.channels@.take(i as int));
            reveal(Seq::filter);
            assert(info.channels@.take(i + 1).last() == *entry);
        }
        if entry.chain.chain_id == destination {
            data.push(
                ChannelInfo {
                    source_chain_id: String::new(),
                    destination_chain_id: String::new(),
                    source_channel_id: entry.source.channel_id.clone(),
                    destination_channel_id: entry.target.channel_id.clone(),
                    port_id: entry.source.port_id.clone(),
                    destination_port_id: entry.target.port_id.clone(),
                    source_denom: String::new(),
                    destination_denom: String::new(),
                    base_denom: BaseDenomInfo {
                        id: 0,
                        chain_id: 0,
                        base: String::new(),
                        display: String::new(),
                        name: String::new(),
                        symbol: String::new(),
                    },
                },
            );
        }
        i += 1;
    }
    assert(info.channels@.take(i as int) =~= info.channels@);
    Channels { data }
}

/// Whether a path channel stands for a channel record: the record's two
/// channel identifiers, each on the port `transfer`.
pub open spec fn is_transfer_channel(channel: Channel, record: ChannelInfo) -> bool {
    &&& channel.chain_1.port_id@ == "transfer"@
    &&& channel.chain_1.channel_id@ == record.source_channel_id@
    &&& channel.chain_2.port_id@ == "transfer"@
    &&& channel.chain_2.channel_id@ == record.destination_channel_id@
}

/// Whether `path` is the path between `chain_a` and `chain_b` that the
/// channel records give: one channel on the port `transfer` for each pair
/// of channel identifiers, in the order in which the pairs first occur.
pub open spec fn is_path_of(
    path: IBCPath,
    chain_a: Seq<char>,
    chain_b: Seq<char>,
    records: Seq<ChannelInfo>,
) -> bool {
    let distinct = keep_firsts(records, channel_pairs(records));
    &&& path.chain_1.chain_name@ == chain_a
    &&& path.chain_2.chain_name@ == chain_b
    &&& path.channels@.len() == distinct.len()
    &&& forall|i: int|
        0 <= i < distinct.len() ==> is_transfer_channel(#[trigger] path.channels@[i], distinct[i])
}

/// Adds to `path_data` the path between `chain_a` and `chain_b` that the
/// reported channels give. Where no channel source answered, `path_data`
/// stays as it is: the pair contributes no channels.
pub fn build_paths(
    path_data: &mut Vec<IBCPath>,
    chain_a: &str,
    chain_b: &str,
    channels: Result<Channels, RegistryError>,
)
    ensures
        match channels {
            Ok(found) => {
                &&& final(path_data)@.len() == old(path_data)@.len() + 1
                &&& final(path_data)@.drop_last() == old(path_data)@
                &&& is_path_of(final(path_data)@.last(), chain_a@, chain_b@, found.data@)
            },
            Err(_) => final(path_data)@ == old(path_data)@,
        },
{
    match channels {
        Ok(found) => {
            let ghost records = found.data@;
            let distinct = unique_by_channel_pair(found.data);
            let mut path_channels: Vec<Channel> = Vec::new();
            let mut i: usize = 0;
            while i < distinct.len()
                invariant
                    i <= distinct.len(),
                    path_channels@.len() == i,
                    forall|k: int|
                        0 <= k < i ==> is_transfer_channel(
                            #[trigger] path_channels@[k],
                            distinct@[k],
                        ),
                decreases distinct.len() - i,
            {
                let record = &distinct[i];
                path_channels.push(
                    Channel {
                        chain_1: ChannelPort {
                            channel_id: record.source_channel_id.clone(),
                            port_id: String::from_str("transfer"),
                        },
                        chain_2: ChannelPort {
                            channel_id: record.destination_channel_id.clone(),
                            port_id: String::from_str("transfer"),
                        },
                    },
                );
                i += 1;
            }
            let path = IBCPath {
                chain_1: ChainDesc { chain_name: chain_a.to_owned() },
                chain_2: ChainDesc { chain_name: chain_b.to_owned() },
                channels: path_channels,
            };
            let ghost before = path_data@;
            path_data.push(path);
            assert(path_data@.drop_last() =~= before);
        },
        Err(_) => {},
    }
}

/// The entries of a local channel registry that lead to one of the named
/// chains, in order. The entry's chain name is compared in lower case.
pub open spec fn entries_among(entries: Seq<IBCPathInfo>, chains: Seq<Seq<char>>) -> Seq<
    IBCPathInfo,
>
    decreases entries.len(),
{
    if entries.len() == 0 {
        Seq::empty()
    } else {
        let rest = entries_among(entries.drop_last(), chains);
        if chains.contains(lowercased(entries.last().chain.chain_name@)) {
            rest.push(entries.last())
        } else {
            rest
        }
    }
}

/// Whether `path` is the path that an entry of the local channel registry
/// of the chain `source` gives: from `source` to the entry's chain, with
/// the entry's one channel on the port `transfer`.
pub open spec fn is_registry_path(path: IBCPath, source: Seq<char>, entry: IBCPathInfo) -> bool {
    &&& path.chain_1.chain_name@ == source
    &&& path.chain_2.chain_name@ == entry.chain.chain_name@
    &&& path.channels@.len() == 1
    &&& path.channels@[0].chain_1.port_id@ == "transfer"@
    &&& path.channels@[0].chain_1.channel_id@ == entry.source.channel_id@
    &&& path.channels@[0].chain_2.port_id@ == "transfer"@
    &&& path.channels@[0].chain_2.channel_id@ == entry.target.channel_id@
}

/// Adds to `path_data` the paths that the local channel registry `cfg` of
/// the chain `source_chain` holds towards the chains in `chains`, one path
/// for each entry. A registry of another chain adds nothing.
pub fn construct_paths_from_channel_config(
    path_data: &mut Vec<IBCPath>,
    chains: &Vec<String>,
    source_chain: &str,
    cfg: &ChannelPathInfo,
)
    ensures
        final(path_data)@.len() >= old(path_data)@.len(),
        final(path_data)@.take(old(path_data)@.len() as int) == old(path_data)@,
        ({
            let added = final(path_data)@.skip(old(path_data)@.len() as int);
            let selected = entries_among(cfg.channels@, strings_view(chains@));
            if source_chain@ == cfg.chain.chain_name@ {
                &&& added.len() == selected.len()
                &&& forall|k: int|
                    0 <= k < added.len() ==> is_registry_path(
                        #[trigger] added[k],
                        source_chain@,
                        selected[k],
                    )
            } else {
                added.len() == 0
            }
        }),
{
    let ghost before = path_data@;
    let source = source_chain.to_owned();
    assert(path_data@.take(before.len() as int) =~= before);
    if source != cfg.chain.chain_name {
        return ;
    }
    let mut i: usize = 0;
    while i < cfg.channels.len()
        invariant
            i <= cfg.channels.len(),
            source@ == source_chain@,
            source_chain@ == cfg.chain.chain_name@,
            path_data@.len() >= before.len(),
            path_data@.take(before.len() as int) == before,
            path_data@.len() - before.len() == entries_among(
                cfg.channels@.take(i as int),
                strings_view(chains@),
            ).len(),
            forall|k: int|
                0 <= k < path_data@.len() - before.len() ==> is_registry_path(
                    #[trigger] path_data@[before.len() + k],
                    source_chain@,
                    entries_among(cfg.channels@.take(i as int), strings_view(chains@))[k],
                ),
        decreases cfg.channels.len() - i,
    {
        let entry = &cfg.channels[i];
        proof {
            assert(cfg.channels@.take(i + 1).drop_last() =~= cfg.channels@.take(i as int));
            assert(cfg.channels@.take(i + 1).last() == *entry);
        }
        let name = lowercase(entry.chain.chain_name.as_str());
        if contains_name(chains, &name) {
            let mut channels: Vec<Channel> = Vec::new();
            channels.push(
                Channel {
                    chain_1: ChannelPort {
                        channel_id: entry.source.channel_id.clone(),
                        port_id: String::from_str("transfer"),
                    },
                    chain_2: ChannelPort {
                        channel_id: entry.target.channel_id.clone(),
                        port_id: String::from_str("transfer"),
                    },
                },
            );
            let ghost grown = path_data@;
            path_data.push(
                IBCPath {
                    chain_1: ChainDesc { chain_name: source.clone() },
                    chain_2: ChainDesc { chain_name: entry.chain.chain_name.clone() },
                    channels,
                },
            );
            assert(path_data@.take(before.len() as int) =~= grown.take(before.len() as int));
        }
        i += 1;
    }
    proof {
        assert(cfg.channels@.take(i as int) =~= cfg.channels@);
        let added = path_data@.skip(before.len() as int);
        let selected = entries_among(cfg.channels@, strings_view(chains@));
        assert forall|k: int| 0 <= k < added.len() implies is_registry_path(
            #[trigger] added[k],
            source_chain@,
            selected[k],
        ) by {
            assert(added[k] == path_data@[before.len() + k]);
        }
    }
}

} // verus!
