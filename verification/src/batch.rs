//! Resolution of a whole list of chains.
//!
//! The caller fetches the registry records; the functions here say which
//! records to fetch, in which groups, for which pairs of chains, and turn
//! the fetched records into one configuration per chain. Any failure fails
//! the whole batch.

use vstd::prelude::*;
use vstd::string::*;
use crate::chain::AssetList;
use crate::chain::ChainData;
use crate::config::hermes_config;
use crate::config::is_resolution;
use crate::config::ChainConfig;
use crate::dedup::pairs_view;
use crate::error::strings_view;
use crate::error::RegistryError;
use crate::error::RegistryErrorView;
use crate::filter::construct_packet_filters;
use crate::filter::filter_of;
use crate::filter::PacketFilter;
use crate::paths::IBCPath;
use crate::querier::HermesConfigData;
use crate::querier::QueryContext;
use crate::text::contains_name;
use crate::text::lowercase;
use crate::text::lowercased;

verus! {

/// How many chains are fetched from the registry at once.
pub const FETCH_CHUNK_SIZE: usize = 5;

/// The lower-case forms of a sequence of names, in order.
pub open spec fn lowercased_all(names: Seq<String>) -> Seq<Seq<char>> {
    Seq::new(names.len(), |i: int| lowercased(names[i]@))
}

/// The chain names in lower case, in order.
pub fn normalize_chains(chains: &Vec<String>) -> (r: Vec<String>)
    ensures
        strings_view(r@) == lowercased_all(chains@),
{
    let mut names: Vec<String> = Vec::new();
    let mut i: usize = 0;
    while i < chains.len()
        invariant
            i <= chains.len(),
            names@.len() == i,
            forall|k: int| 0 <= k < i ==> (#[trigger] names@[k])@ == lowercased(chains@[k]@),
        decreases chains.len() - i,
    {
        names.push(lowercase(chains[i].as_str()));
        i += 1;
    }
    assert(strings_view(names@) =~= lowercased_all(chains@));
    names
}

/// The end of the chunk that starts at `start`, in a list of `n` items.
pub open spec fn chunk_end(start: int, n: int) -> int {
    if n - start > FETCH_CHUNK_SIZE as int {
        start + FETCH_CHUNK_SIZE as int
    } else {
        n
    }
}

/// The chain names in groups of [`FETCH_CHUNK_SIZE`], in order: every group
/// is full but the last, which holds what is left, and no group is empty.
pub fn fetch_chunks(chains: &Vec<String>) -> (r: Vec<Vec<String>>)
    ensures
        chains.len() <= FETCH_CHUNK_SIZE * r.len() < chains.len() + FETCH_CHUNK_SIZE,
        forall|k: int|
            0 <= k < r.len() ==> (#[trigger] r@[k])@ == chains@.subrange(
                FETCH_CHUNK_SIZE * k,
                chunk_end(FETCH_CHUNK_SIZE * k, chains.len() as int),
            ),
{
    let n = chains.len();
    let mut chunks: Vec<Vec<String>> = Vec::new();
    let mut start: usize = 0;
    while start < n
        invariant
            n == chains.len(),
            start <= n,
            start == FETCH_CHUNK_SIZE * chunks.len(),
            forall|k: int|
                0 <= k < chunks.len() ==> (#[trigger] chunks@[k])@ == chains@.subrange(
                    FETCH_CHUNK_SIZE * k,
                    chunk_end(FETCH_CHUNK_SIZE * k, n as int),
                ),
        decreases n - start,
    {
        let end: usize = if n - start > FETCH_CHUNK_SIZE {
            start + FETCH_CHUNK_SIZE
        } else {
            n
        };
        let mut chunk: Vec<String> = Vec::new();
        let mut i: usize = start;
        while i < end
            invariant
                start <= i <= end <= n,
                n == chains.len(),
                chunk@ == chains@.subrange(start as int, i as int),
            decreases end - i,
        {
            chunk.push(chains[i].clone());
            i += 1;
            assert(chunk@ =~= chains@.subrange(start as int, i as int));
        }
        chunks.push(chunk);
        if end == n {
            return chunks;
        }
        start = end;
    }
    chunks
}

/// The pairs that a source chain forms with every other name, in order.
pub open spec fn source_pairs(names: Seq<Seq<char>>, source: Seq<char>) -> Seq<
    (Seq<char>, Seq<char>),
>
    decreases names.len(),
{
    if names.len() == 0 {
        Seq::empty()
    } else {
        let rest = source_pairs(names.drop_last(), source);
        if names.last() == source {
            rest
        } else {
            rest.push((source, names.last()))
        }
    }
}

/// The pairs that the name at position `i` forms with the names after it,
/// up to position `m`.
pub open spec fn pairs_of(names: Seq<Seq<char>>, i: int, m: int) -> Seq<(Seq<char>, Seq<char>)>
    decreases m - i,
{
    if m <= i + 1 {
        Seq::empty()
    } else {
        pairs_of(names, i, m - 1).push((names[i], names[m - 1]))
    }
}

/// Every pair of a name among the first `k` with a name after it: the
/// pairs of the first name, then those of the second, and so on.
pub open spec fn pairs_upto(names: Seq<Seq<char>>, k: int) -> Seq<(Seq<char>, Seq<char>)>
    decreases k,
{
    if k <= 0 {
        Seq::empty()
    } else {
        pairs_upto(names, k - 1) + pairs_of(names, k - 1, names.len() as int)
    }
}

/// The pairs of chains between which paths are looked up.
///
/// With a source chain, the pairs that the source forms with every other
/// chain; the source must be among the chains. Without one, every
/// unordered pair. Names are compared in lower case. An empty list of
/// chains gives no pairs, whatever the source.
pub open spec fn planned_pairs(chains: Seq<String>, source_chain: Option<String>) -> Result<
    Seq<(Seq<char>, Seq<char>)>,
    RegistryErrorView,
> {
    let names = lowercased_all(chains);
    if names.len() == 0 {
        Ok(Seq::empty())
    } else {
        match source_chain {
            Some(source) => if names.contains(lowercased(source@)) {
                Ok(source_pairs(names, lowercased(source@)))
            } else {
                Err(RegistryErrorView::NoChainFound { chain: lowercased(source@) })
            },
            None => Ok(pairs_upto(names, names.len() as int)),
        }
    }
}

/// The pairs of chains between which paths are looked up: see
/// [`planned_pairs`].
pub fn chain_pairs(chains: &Vec<String>, source_chain: &Option<String>) -> (r: Result<
    Vec<(String, String)>,
    RegistryError,
>)
    ensures
        match r {
            Ok(pairs) => planned_pairs(chains@, *source_chain) == Ok::<
                Seq<(Seq<char>, Seq<char>)>,
                RegistryErrorView,
            >(pairs_view(pairs@)),
            Err(e) => planned_pairs(chains@, *source_chain) == Err::<
                Seq<(Seq<char>, Seq<char>)>,
                RegistryErrorView,
            >(e@),
        },
{
    let names = normalize_chains(chains);
    let n = names.len();
    let ghost views = strings_view(names@);
    let mut pairs: Vec<(String, String)> = Vec::new();
    assert(pairs_view(pairs@) =~= Seq::<(Seq<char>, Seq<char>)>::empty());
    if n == 0 {
        return Ok(pairs);
    }
    match source_chain {
        Some(raw) => {
            let source = lowercase(raw.as_str());
            if !contains_name(&names, &source) {
                return Err(RegistryError::NoChainFound { chain: source });
            }
            let mut i: usize = 0;
            while i < n
                invariant
                    i <= n,
                    n == names.len(),
                    views == strings_view(names@),
                    pairs_view(pairs@) == source_pairs(views.take(i as int), source@),
                decreases n - i,
            {
                let ghost before = pairs_view(pairs@);
                proof {
                    assert(views.take(i + 1).drop_last() =~= views.take(i as int));
                    assert(views.take(i + 1).last() == names@[i as int]@);
                }
                if names[i] != source {
                    pairs.push((source.clone(), names[i].clone()));
                    assert(pairs_view(pairs@) =~= before.push((source@, names@[i as int]@)));
                }
                i += 1;
            }
            assert(views.take(i as int) =~= views);
            Ok(pairs)
        },
        None => {
            let mut i: usize = 0;
            while i < n
                invariant
                    i <= n,
                    n == names.len(),
                    views == strings_view(names@),
                    pairs_view(pairs@) == pairs_upto(views, i as int),
                decreases n - i,
            {
                let ghost base = pairs_view(pairs@);
                let mut j: usize = i + 1;
                while j < n
                    invariant
                        i < j <= n,
                        n == names.len(),
                        views == strings_view(names@),
                        pairs_view(pairs@) == base + pairs_of(views, i as int, j as int),
                    decreases n - j,
                {
                    let ghost before = pairs_view(pairs@);
                    pairs.push((names[i].clone(), names[j].clone()));
                    j += 1;
                    assert(pairs_view(pairs@) =~= base + pairs_of(views, i as int, j as int)) by {
                        assert(pairs_view(pairs@) =~= before.push(
                            (names@[i as int]@, names@[j - 1]@),
                        ));
                    }
                }
                i += 1;
            }
            Ok(pairs)
        },
    }
}

/// The name of the registry resource that holds the path between two
/// chains.
pub fn path_resource(chain_a: &str, chain_b: &str) -> (r: String)
    ensures
        r@ == chain_a@ + "-"@ + chain_b@ + ".json"@,
{
    let mut resource = chain_a.to_owned();
    resource.append("-");
    resource.append(chain_b);
    resource.append(".json");
    resource
}

/// The protocol identifier of the chain named `chain_name`, from the
/// fetched identity records. Where several records carry the name, the
/// last one counts.
pub fn chain_id_of(chain_data: &Vec<ChainData>, chain_name: &str) -> (r: Option<String>)
    ensures
        match r {
            Some(id) => exists|k: int|
                0 <= k < chain_data.len() && (#[trigger] chain_data@[k]).chain_name@ == chain_name@
                    && id == chain_data@[k].chain_id && forall|m: int|
                    k < m < chain_data.len() ==> (#[trigger] chain_data@[m]).chain_name@
                        != chain_name@,
            None => forall|k: int|
                0 <= k < chain_data.len() ==> (#[trigger] chain_data@[k]).chain_name@
                    != chain_name@,
        },
{
    let name = chain_name.to_owned();
    let mut i: usize = chain_data.len();
    while i > 0
        invariant
            i <= chain_data.len(),
            name@ == chain_name@,
            forall|m: int|
                i <= m < chain_data.len() ==> (#[trigger] chain_data@[m]).chain_name@
                    != chain_name@,
        decreases i,
    {
        i -= 1;
        if chain_data[i].chain_name == name {
            return Some(chain_data[i].chain_id.clone());
        }
    }
    None
}

/// The first failure among the results, if any.
pub open spec fn first_failure<T, E>(results: Seq<Result<T, E>>) -> Option<E>
    decreases results.len(),
{
    if results.len() == 0 {
        None
    } else {
        match results[0] {
            Err(e) => Some(e),
            Ok(_) => first_failure(results.drop_first()),
        }
    }
}

/// The values of the results, in order, where every result is a success.
pub open spec fn all_values<T, E>(results: Seq<Result<T, E>>) -> Seq<T> {
    Seq::new(results.len(), |i: int| results[i]->Ok_0)
}

/// All or nothing: the values of the results, in order, or the first
/// failure among them.
pub fn collect_all<T, E>(results: Vec<Result<T, E>>) -> (r: Result<Vec<T>, E>)
    ensures
        match first_failure(results@) {
            Some(e) => r == Err::<Vec<T>, E>(e),
            None => r matches Ok(values) && values@ == all_values(results@),
        },
{
    let mut pending = results;
    let mut values: Vec<T> = Vec::new();
    let ghost mut done: int = 0;
    while pending.len() > 0
        invariant
            0 <= done <= results.len(),
            pending@ == results@.subrange(done, results.len() as int),
            first_failure(pending@) == first_failure(results@),
            values@.len() == done,
            forall|k: int| 0 <= k < done ==> results@[k] == Ok::<T, E>(#[trigger] values@[k]),
        decreases pending.len(),
    {
        let ghost before = pending@;
        let result = pending.remove(0);
        assert(pending@ =~= before.drop_first());
        assert(result == results@[done]);
        match result {
            Ok(value) => {
                values.push(value);
            },
            Err(e) => {
                return Err(e);
            },
        }
        proof {
            done = done + 1;
            assert(pending@ =~= results@.subrange(done, results.len() as int));
        }
    }
    assert(values@ =~= all_values(results@));
    Ok(values)
}

/// Whether the name `chain` stands among the first `i` names.
pub open spec fn occurs_before(names: Seq<Seq<char>>, i: int, chain: Seq<char>) -> bool {
    exists|j: int| 0 <= j < i && j < names.len() && #[trigger] names[j] == chain
}

/// Whether `filter` is the packet filter that the chain at position `k`
/// is resolved with: the filter that the paths give its lower-case name,
/// unless an earlier chain of the same name has taken it.
pub open spec fn is_filter_at(
    chains: Seq<String>,
    path_data: Seq<IBCPath>,
    k: int,
    filter: Option<PacketFilter>,
) -> bool {
    let names = lowercased_all(chains);
    match filter {
        Some(PacketFilter::Allow(ports)) => !occurs_before(names, k, names[k]) && filter_of(
            path_data,
            names[k],
        ) == Some(ports@),
        Some(PacketFilter::AllowAll) => false,
        None => occurs_before(names, k, names[k]) || filter_of(path_data, names[k]).is_none(),
    }
}

/// The least of three lengths.
pub open spec fn least(a: int, b: int, c: int) -> int {
    if a <= b && a <= c {
        a
    } else if b <= c {
        b
    } else {
        c
    }
}

/// Whether `r` is the result of a batch in which the chains were resolved
/// with the packet filters `filters` and the resolutions ended in
/// `results`: one resolution for each chain that has both records, in
/// order, each with its own filter; the batch gives all configurations, or
/// the first failure.
pub open spec fn is_batch<GrpcQuerier, RpcQuerier>(
    chains: Seq<String>,
    chain_data: Seq<ChainData>,
    asset_data: Seq<AssetList>,
    path_data: Seq<IBCPath>,
    filters: Seq<Option<PacketFilter>>,
    results: Seq<Result<ChainConfig, RegistryError>>,
    r: Result<Vec<ChainConfig>, RegistryError>,
) -> bool where
    GrpcQuerier: QueryContext<QueryInput = String, QueryOutput = String, QueryError = RegistryError>,
    RpcQuerier: QueryContext<
        QueryInput = String,
        QueryOutput = HermesConfigData,
        QueryError = RegistryError,
    >,
 {
    &&& results.len() == filters.len()
    &&& results.len() == least(
        chains.len() as int,
        chain_data.len() as int,
        asset_data.len() as int,
    )
    &&& forall|k: int|
        0 <= k < results.len() ==> is_filter_at(chains, path_data, k, #[trigger] filters[k])
            && is_resolution::<GrpcQuerier, RpcQuerier>(
            chain_data[k],
            asset_data[k],
            filters[k],
            results[k],
        )
    &&& match first_failure(results) {
        Some(e) => r == Err::<Vec<ChainConfig>, RegistryError>(e),
        None => r matches Ok(configs) && configs@ == all_values(results),
    }
}

/// Whether `r` is what the resolution of a batch may give: nothing for an
/// empty list of chains; the error of a source chain that is not among the
/// chains; or else a result as [`is_batch`] describes it.
pub open spec fn is_batch_resolution<GrpcQuerier, RpcQuerier>(
    chains: Seq<String>,
    source_chain: Option<String>,
    chain_data: Seq<ChainData>,
    asset_data: Seq<AssetList>,
    path_data: Seq<IBCPath>,
    r: Result<Vec<ChainConfig>, RegistryError>,
) -> bool where
    GrpcQuerier: QueryContext<QueryInput = String, QueryOutput = String, QueryError = RegistryError>,
    RpcQuerier: QueryContext<
        QueryInput = String,
        QueryOutput = HermesConfigData,
        QueryError = RegistryError,
    >,
 {
    if chains.len() == 0 {
        r matches Ok(configs) && configs.len() == 0
    } else {
        match planned_pairs(chains, source_chain) {
            Err(e) => r matches Err(x) && x@ == e,
            Ok(_) => exists|
                filters: Seq<Option<PacketFilter>>,
                results: Seq<Result<ChainConfig, RegistryError>>,
            |
                is_batch::<GrpcQuerier, RpcQuerier>(
                    chains,
                    chain_data,
                    asset_data,
                    path_data,
                    filters,
                    results,
                    r,
                ),
        }
    }
}

/// One configuration per chain, from the fetched registry records.
///
/// `chain_data` and `asset_data` hold the records of the chains in the
/// order of `chains`; `path_data` holds the paths found for the pairs of
/// [`chain_pairs`]. Each chain is resolved in turn, with its packet filter
/// where the paths give it one. An empty list of chains gives an empty
/// list; a source chain that is not among the chains, or the failure of
/// any chain, fails the batch.
pub fn get_configs<GrpcQuerier, RpcQuerier>(
    chains: &Vec<String>,
    source_chain: Option<String>,
    chain_data: Vec<ChainData>,
    asset_data: Vec<AssetList>,
    path_data: Vec<IBCPath>,
) -> (r: Result<Vec<ChainConfig>, RegistryError>) where
    GrpcQuerier: QueryContext<QueryInput = String, QueryOutput = String, QueryError = RegistryError>,
    RpcQuerier: QueryContext<
        QueryInput = String,
        QueryOutput = HermesConfigData,
        QueryError = RegistryError,
    >,

    ensures
        is_batch_resolution::<GrpcQuerier, RpcQuerier>(
            chains@,
            source_chain,
            chain_data@,
            asset_data@,
            path_data@,
            r,
        ),
        chains.len() == 0 ==> (r matches Ok(configs) && configs.len() == 0),
        r matches Ok(configs) ==> configs.len() <= chains.len() && configs.len()
            <= chain_data.len() && configs.len() <= asset_data.len(),
{
    if chains.len() == 0 {
        return Ok(Vec::new());
    }
    let names = normalize_chains(chains);
    match chain_pairs(chains, &source_chain) {
        Ok(_) => {},
        Err(e) => {
            return Err(e);
        },
    }
    let mut packet_filters = construct_packet_filters(path_data);
    let mut records = chain_data;
    let mut assets = asset_data;
    let mut results: Vec<Result<ChainConfig, RegistryError>> = Vec::new();
    let ghost mut filters: Seq<Option<PacketFilter>> = Seq::empty();
    let ghost lower = lowercased_all(chains@);
    let mut i: usize = 0;
    while i < names.len() && records.len() > 0 && assets.len() > 0
        invariant
            i <= names.len(),
            names.len() == chains.len(),
            lower == lowercased_all(chains@),
            lower == strings_view(names@),
            packet_filters.wf(),
            results.len() == i,
            filters.len() == i,
            i <= chain_data.len(),
            i <= asset_data.len(),
            records@ == chain_data@.subrange(i as int, chain_data.len() as int),
            assets@ == asset_data@.subrange(i as int, asset_data.len() as int),
            forall|chain: Seq<char>| #[trigger]
                packet_filters.lookup(chain) == (if occurs_before(lower, i as int, chain) {
                    None
                } else {
                    filter_of(path_data@, chain)
                }),
            forall|k: int|
                0 <= k < i ==> is_filter_at(chains@, path_data@, k, #[trigger] filters[k])
                    && is_resolution::<GrpcQuerier, RpcQuerier>(
                    chain_data@[k],
                    asset_data@[k],
                    filters[k],
                    results@[k],
                ),
        decreases names.len() - i,
    {
        let ghost before = packet_filters;
        let ghost name = lower[i as int];
        let record = records.remove(0);
        let asset_list = assets.remove(0);
        assert(names@[i as int]@ == name);
        let packet_filter = packet_filters.remove(names[i].as_str());
        let result = hermes_config::<GrpcQuerier, RpcQuerier>(record, asset_list, packet_filter);
        results.push(result);
        proof {
            assert(record == chain_data@[i as int]);
            assert(asset_list == asset_data@[i as int]);
            assert(before.lookup(name) == (if occurs_before(lower, i as int, name) {
                None
            } else {
                filter_of(path_data@, name)
            }));
            assert(is_filter_at(chains@, path_data@, i as int, packet_filter));
            filters = filters.push(packet_filter);
            assert forall|chain: Seq<char>| #[trigger]
                packet_filters.lookup(chain) == (if occurs_before(lower, i + 1, chain) {
                    None
                } else {
                    filter_of(path_data@, chain)
                }) by {
                if chain == name {
                    assert(lower[i as int] == chain);
                    assert(occurs_before(lower, i + 1, chain));
                } else {
                    assert(packet_filters.lookup(chain) == before.lookup(chain));
                    if occurs_before(lower, i as int, chain) {
                        let j = choose|j: int|
                            0 <= j < i && j < lower.len() && #[trigger] lower[j] == chain;
                        assert(lower[j] == chain);
                        assert(occurs_before(lower, i + 1, chain));
                    }
                    if occurs_before(lower, i + 1, chain) {
                        let j = choose|j: int|
                            0 <= j < i + 1 && j < lower.len() && #[trigger] lower[j] == chain;
                        assert(j != i);
                        assert(occurs_before(lower, i as int, chain));
                    }
                }
            }
            assert(records@ =~= chain_data@.subrange(i + 1, chain_data.len() as int));
            assert(assets@ =~= asset_data@.subrange(i + 1, asset_data.len() as int));
        }
        i += 1;
    }
    let ghost outcomes = results@;
    let r = collect_all(results);
    assert(is_batch::<GrpcQuerier, RpcQuerier>(
        chains@,
        chain_data@,
        asset_data@,
        path_data@,
        filters,
        outcomes,
        r,
    ));
    r
}

} // verus!
