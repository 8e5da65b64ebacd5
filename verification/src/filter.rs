//! Packet filters: for each chain, the channel ends on which it may relay.
//!
//! Every channel of a path contributes one end to the filter of each of the
//! path's two chains. A chain's filter holds its contributions in the order
//! in which they first occur, each once. A chain without contributions has
//! no filter, which stands for "allow all".

use vstd::prelude::*;
use vstd::string::*;
use crate::dedup::keep_firsts;
use crate::dedup::lemma_keep_firsts;
use crate::dedup::pairs_view;
use crate::dedup::stands_with_key;
use crate::dedup::unique_pairs;
use crate::paths::IBCPath;

verus! {

/// The policy by which a chain relays packets.
#[derive(Clone, Debug, PartialEq, Eq)]
pub enum PacketFilter {
    /// Every channel is allowed.
    AllowAll,
    /// Exactly the listed channel ends are allowed, each a port identifier
    /// and a channel identifier.
    Allow(Vec<(String, String)>),
}

impl PacketFilter {
    /// The filter that allows exactly the given channel ends.
    pub fn allow(filters: Vec<(String, String)>) -> (r: PacketFilter)
        ensures
            r == PacketFilter::Allow(filters),
    {
        PacketFilter::Allow(filters)
    }

    /// The given filter, or "allow all" in its absence.
    pub fn unwrap_or_default(filter: Option<PacketFilter>) -> (r: PacketFilter)
        ensures
            r == match filter {
                Some(f) => f,
                None => PacketFilter::AllowAll,
            },
    {
        match filter {
            Some(f) => f,
            None => PacketFilter::AllowAll,
        }
    }
}

/// One channel end that a path contributes to a chain's filter: the
/// chain's name, then port identifier and channel identifier.
pub type Contribution = (String, (String, String));

/// A chain name with the channel ends allowed to that chain.
pub type FilterEntry = (String, Vec<(String, String)>);

/// The contributions of the first `n` channels of a path: for each channel
/// its end on the first chain, then its end on the second.
pub open spec fn channel_contributions(path: IBCPath, n: int) -> Seq<Contribution>
    decreases n,
{
    if n <= 0 {
        Seq::empty()
    } else {
        let channel = path.channels@[n - 1];
        channel_contributions(path, n - 1).push(
            (path.chain_1.chain_name, (channel.chain_1.port_id, channel.chain_1.channel_id)),
        ).push((path.chain_2.chain_name, (channel.chain_2.port_id, channel.chain_2.channel_id)))
    }
}

/// The contributions of a sequence of paths, in order.
pub open spec fn contributions(paths: Seq<IBCPath>) -> Seq<Contribution>
    decreases paths.len(),
{
    if paths.len() == 0 {
        Seq::empty()
    } else {
        contributions(paths.drop_last()) + channel_contributions(
            paths.last(),
            paths.last().channels@.len() as int,
        )
    }
}

/// The channel ends contributed to the chain named `chain`, in order,
/// repetitions included.
pub open spec fn ports_of(given: Seq<Contribution>, chain: Seq<char>) -> Seq<(String, String)>
    decreases given.len(),
{
    if given.len() == 0 {
        Seq::empty()
    } else {
        let rest = ports_of(given.drop_last(), chain);
        if given.last().0@ == chain {
            rest.push(given.last().1)
        } else {
            rest
        }
    }
}

/// The filter that a sequence of paths gives the chain named `chain`: its
/// contributions, each once, or `None` where it has none.
pub open spec fn filter_of(paths: Seq<IBCPath>, chain: Seq<char>) -> Option<Seq<(String, String)>> {
    let ports = ports_of(contributions(paths), chain);
    if ports.len() == 0 {
        None
    } else {
        Some(keep_firsts(ports, pairs_view(ports)))
    }
}

/// Whether some entry carries the name `chain`.
pub open spec fn has_entry(entries: Seq<FilterEntry>, chain: Seq<char>) -> bool {
    exists|k: int| 0 <= k < entries.len() && (#[trigger] entries[k]).0@ == chain
}

/// Whether no two entries carry the same name.
pub open spec fn distinct_names(entries: Seq<FilterEntry>) -> bool {
    forall|a: int, b: int|
        0 <= a < entries.len() && 0 <= b < entries.len() && a != b ==> (#[trigger] entries[a]).0@
            != (#[trigger] entries[b]).0@
}

/// Whether the entries group the given contributions by chain name.
pub open spec fn groups(entries: Seq<FilterEntry>, given: Seq<Contribution>) -> bool {
    &&& distinct_names(entries)
    &&& forall|k: int|
        0 <= k < entries.len() ==> (#[trigger] entries[k]).1@ == ports_of(given, entries[k].0@)
            && entries[k].1@.len() > 0
    &&& forall|chain: Seq<char>| #[trigger]
        ports_of(given, chain).len() > 0 ==> has_entry(entries, chain)
}

/// The channel ends that the entries hold for the chain named `chain`, or
/// `None` where no entry carries that name.
pub open spec fn lookup_entries(entries: Seq<FilterEntry>, chain: Seq<char>) -> Option<
    Seq<(String, String)>,
> {
    if has_entry(entries, chain) {
        let k = choose|k: int| 0 <= k < entries.len() && (#[trigger] entries[k]).0@ == chain;
        Some(entries[k].1@)
    } else {
        None
    }
}

/// Among entries with distinct names, the lookup of an entry's name gives
/// that entry.
pub proof fn lemma_lookup_at(entries: Seq<FilterEntry>, k: int)
    requires
        distinct_names(entries),
        0 <= k < entries.len(),
    ensures
        lookup_entries(entries, entries[k].0@) == Some(entries[k].1@),
{
    assert(has_entry(entries, entries[k].0@));
}

/// Taking one entry out of a set with distinct names leaves the names
/// distinct.
pub proof fn lemma_remove_keeps_distinct(before: Seq<FilterEntry>, i: int)
    requires
        0 <= i < before.len(),
        distinct_names(before),
    ensures
        distinct_names(before.remove(i)),
{
    let after = before.remove(i);
    assert forall|a: int, b: int|
        0 <= a < after.len() && 0 <= b < after.len() && a != b implies (#[trigger] after[a]).0@ != (
    #[trigger] after[b]).0@ by {
        let a0 = if a < i {
            a
        } else {
            a + 1
        };
        let b0 = if b < i {
            b
        } else {
            b + 1
        };
        assert(after[a] == before[a0] && after[b] == before[b0]);
    }
}

/// Taking one entry out of a set with distinct names leaves the lookup of
/// every other name as it was.
pub proof fn lemma_remove_keeps_others(before: Seq<FilterEntry>, i: int, other: Seq<char>)
    requires
        0 <= i < before.len(),
        distinct_names(before),
        before[i].0@ != other,
    ensures
        lookup_entries(before.remove(i), other) == lookup_entries(before, other),
{
    let after = before.remove(i);
    lemma_remove_keeps_distinct(before, i);
    if has_entry(before, other) {
        let k = choose|k: int| 0 <= k < before.len() && (#[trigger] before[k]).0@ == other;
        let k1 = if k < i {
            k
        } else {
            k - 1
        };
        assert(after[k1] == before[k]);
        lemma_lookup_at(before, k);
        lemma_lookup_at(after, k1);
    } else {
        if has_entry(after, other) {
            let k = choose|k: int| 0 <= k < after.len() && (#[trigger] after[k]).0@ == other;
            let k0 = if k < i {
                k
            } else {
                k + 1
            };
            assert(before[k0] == after[k]);
        }
    }
}

/// The packet filters of a set of chains, by chain name.
#[derive(Clone, Debug, PartialEq, Eq)]
pub struct PacketFilters {
    /// One entry for each chain that has a filter.
    pub entries: Vec<FilterEntry>,
}

impl PacketFilters {
    /// No chain name occurs twice, and no filter is empty.
    pub open spec fn wf(&self) -> bool {
        &&& distinct_names(self.entries@)
        &&& forall|k: int|
            0 <= k < self.entries@.len() ==> (#[trigger] self.entries@[k]).1@.len() > 0
    }

    /// The channel ends allowed to the chain named `chain`, or `None` where
    /// the chain has no filter.
    pub open spec fn lookup(&self, chain: Seq<char>) -> Option<Seq<(String, String)>> {
        lookup_entries(self.entries@, chain)
    }

    /// Whether these are the filters that the paths give: for every chain
    /// name the filter of [`filter_of`], free of repetitions.
    pub open spec fn is_filters_of(&self, paths: Seq<IBCPath>) -> bool {
        &&& self.wf()
        &&& forall|chain: Seq<char>| #[trigger] self.lookup(chain) == filter_of(paths, chain)
        &&& forall|k: int|
            0 <= k < self.entries@.len() ==> pairs_view(
                (#[trigger] self.entries@[k]).1@,
            ).no_duplicates()
    }

    /// Takes the filter of the chain named `chain_name` out of the set.
    /// The chain has no filter afterwards; the other chains keep theirs.
    pub fn remove(&mut self, chain_name: &str) -> (r: Option<PacketFilter>)
        requires
            old(self).wf(),
        ensures
            final(self).wf(),
            match r {
                Some(PacketFilter::Allow(ports)) => old(self).lookup(chain_name@) == Some(ports@),
                Some(PacketFilter::AllowAll) => false,
                None => old(self).lookup(chain_name@).is_none(),
            },
            final(self).lookup(chain_name@).is_none(),
            forall|other: Seq<char>|
                other != chain_name@ ==> final(self).lookup(other) == old(self).lookup(other),
    {
        let name = chain_name.to_owned();
        let mut i: usize = 0;
        while i < self.entries.len()
            invariant
                i <= self.entries.len(),
                *self == *old(self),
                self.wf(),
                name@ == chain_name@,
                forall|k: int| 0 <= k < i ==> (#[trigger] self.entries@[k]).0@ != chain_name@,
            decreases self.entries.len() - i,
        {
            if self.entries[i].0 == name {
                let ghost before = self.entries@;
                let entry = self.entries.remove(i);
                proof {
                    let after = self.entries@;
                    lemma_lookup_at(before, i as int);
                    assert(!has_entry(after, chain_name@)) by {
                        if has_entry(after, chain_name@) {
                            let k = choose|k: int|
                                0 <= k < after.len() && (#[trigger] after[k]).0@ == chain_name@;
                            let k0 = if k < i {
                                k
                            } else {
                                k + 1
                            };
                            assert(before[k0] == after[k]);
                        }
                    }
                    assert forall|other: Seq<char>| other != chain_name@ implies lookup_entries(
                        after,
                        other,
                    ) == lookup_entries(before, other) by {
                        lemma_remove_keeps_others(before, i as int, other);
                    }
                    lemma_remove_keeps_distinct(before, i as int);
                    assert forall|k: int| 0 <= k < after.len() implies (
                    #[trigger] after[k]).1@.len() > 0 by {
                        let k0 = if k < i {
                            k
                        } else {
                            k + 1
                        };
                        assert(after[k] == before[k0]);
                    }
                }
                return Some(PacketFilter::Allow(entry.1));
            }
            i += 1;
        }
        assert(!has_entry(self.entries@, chain_name@));
        None
    }
}

/// The contributions of the given paths, in order.
fn collect_contributions(paths: &Vec<IBCPath>) -> (r: Vec<Contribution>)
    ensures
        r@ == contributions(paths@),
{
    let mut given: Vec<Contribution> = Vec::new();
    let mut i: usize = 0;
    while i < paths.len()
        invariant
            i <= paths.len(),
            given@ == contributions(paths@.take(i as int)),
        decreases paths.len() - i,
    {
        let path = &paths[i];
        let ghost base = given@;
        let mut j: usize = 0;
        while j < path.channels.len()
            invariant
                j <= path.channels.len(),
                given@ == base + channel_contributions(*path, j as int),
            decreases path.channels.len() - j,
        {
            let channel = &path.channels[j];
            let ghost before = given@;
            given.push(
                (
                    path.chain_1.chain_name.clone(),
                    (channel.chain_1.port_id.clone(), channel.chain_1.channel_id.clone()),
                ),
            );
            given.push(
                (
                    path.chain_2.chain_name.clone(),
                    (channel.chain_2.port_id.clone(), channel.chain_2.channel_id.clone()),
                ),
            );
            j += 1;
            assert(given@ =~= base + channel_contributions(*path, j as int));
        }
        i += 1;
        proof {
            let upto = paths@.take(i as int);
            assert(upto.drop_last() =~= paths@.take(i - 1));
            assert(upto.last() == *path);
        }
    }
    assert(paths@.take(i as int) =~= paths@);
    given
}

/// The position of the entry that carries the given name, if any.
fn find_entry(entries: &Vec<FilterEntry>, name: &String) -> (r: Option<usize>)
    ensures
        match r {
            Some(k) => k < entries.len() && entries@[k as int].0@ == name@,
            None => !has_entry(entries@, name@),
        },
{
    let mut k: usize = 0;
    while k < entries.len()
        invariant
            k <= entries.len(),
            forall|m: int| 0 <= m < k ==> (#[trigger] entries@[m]).0@ != name@,
        decreases entries.len() - k,
    {
        if entries[k].0 == *name {
            return Some(k);
        }
        k += 1;
    }
    None
}

/// Groups contributions by chain name, the names in the order in which
/// they first occur.
fn group_contributions(given: &Vec<Contribution>) -> (entries: Vec<FilterEntry>)
    ensures
        groups(entries@, given@),
{
    let mut entries: Vec<FilterEntry> = Vec::new();
    let mut n: usize = 0;
    assert(ports_of(given@.take(0), Seq::<char>::empty()).len() == 0);
    assert forall|chain: Seq<char>| #[trigger]
        ports_of(given@.take(0), chain).len() > 0 implies has_entry(entries@, chain) by {}
    while n < given.len()
        invariant
            n <= given.len(),
            groups(entries@, given@.take(n as int)),
        decreases given.len() - n,
    {
        let ghost seen = given@.take(n as int);
        let ghost next = given@.take(n + 1);
        let ghost before = entries@;
        let name = given[n].0.clone();
        let port = (given[n].1.0.clone(), given[n].1.1.clone());
        proof {
            assert(next.drop_last() =~= seen);
            assert(next.last() == given@[n as int]);
            assert(port == given@[n as int].1);
            assert forall|chain: Seq<char>| #[trigger]
                ports_of(next, chain) == (if name@ == chain {
                    ports_of(seen, chain).push(port)
                } else {
                    ports_of(seen, chain)
                }) by {}
        }
        match find_entry(&entries, &name) {
            Some(k) => {
                let mut entry = entries.remove(k);
                entry.1.push(port);
                entries.insert(k, entry);
                proof {
                    let after = entries@;
                    assert(after.len() == before.len());
                    assert forall|m: int| 0 <= m < after.len() implies (#[trigger] after[m]).0@
                        == before[m].0@ by {}
                    assert forall|m: int| 0 <= m < after.len() implies (#[trigger] after[m]).1@
                        == ports_of(next, after[m].0@) && after[m].1@.len() > 0 by {
                        assert(after[m].0@ == before[m].0@);
                        if m != k {
                            assert(after[m] == before[m]);
                            assert(before[m].0@ != before[k as int].0@);
                        }
                    }
                    assert forall|chain: Seq<char>| #[trigger]
                        ports_of(next, chain).len() > 0 implies has_entry(after, chain) by {
                        if chain == name@ {
                            assert(after[k as int].0@ == chain);
                        } else {
                            assert(has_entry(before, chain));
                            let m = choose|m: int|
                                0 <= m < before.len() && (#[trigger] before[m]).0@ == chain;
                            assert(after[m].0@ == chain);
                        }
                    }
                }
            },
            None => {
                let mut ports: Vec<(String, String)> = Vec::new();
                ports.push(port);
                entries.push((name, ports));
                proof {
                    let after = entries@;
                    assert(ports_of(seen, name@).len() == 0);
                    assert(ports@ =~= ports_of(next, name@));
                    assert forall|m: int| 0 <= m < after.len() implies (#[trigger] after[m]).1@
                        == ports_of(next, after[m].0@) && after[m].1@.len() > 0 by {
                        if m < before.len() {
                            assert(after[m] == before[m]);
                            assert(has_entry(before, before[m].0@));
                        }
                    }
                    assert forall|a: int, b: int|
                        0 <= a < after.len() && 0 <= b < after.len() && a != b implies (
                    #[trigger] after[a]).0@ != (#[trigger] after[b]).0@ by {
                        if a < before.len() {
                            assert(after[a] == before[a]);
                            assert(has_entry(before, before[a].0@));
                        }
                        if b < before.len() {
                            assert(after[b] == before[b]);
                            assert(has_entry(before, before[b].0@));
                        }
                    }
                    assert forall|chain: Seq<char>| #[trigger]
                        ports_of(next, chain).len() > 0 implies has_entry(after, chain) by {
                        if chain == name@ {
                            assert(after[before.len() as int].0@ == chain);
                        } else {
                            assert(has_entry(before, chain));
                            let m = choose|m: int|
                                0 <= m < before.len() && (#[trigger] before[m]).0@ == chain;
                            assert(after[m] == before[m]);
                        }
                    }
                }
            },
        }
        n += 1;
    }
    assert(given@.take(n as int) =~= given@);
    entries
}

/// The packet filter of every chain that the paths connect.
///
/// For every chain name, the result holds the channel ends that the paths
/// contribute to that chain, each once and in the order of first
/// occurrence; a chain without contributions has no entry.
pub fn construct_packet_filters(ibc_paths: Vec<IBCPath>) -> (r: PacketFilters)
    ensures
        r.is_filters_of(ibc_paths@),
{
    let given = collect_contributions(&ibc_paths);
    let mut grouped = group_contributions(&given);
    let ghost all = grouped@;
    let mut entries: Vec<FilterEntry> = Vec::new();
    while grouped.len() > 0
        invariant
            groups(all, given@),
            entries@.len() + grouped@.len() == all.len(),
            grouped@ == all.subrange(entries@.len() as int, all.len() as int),
            forall|k: int|
                0 <= k < entries@.len() ==> (#[trigger] entries@[k]).0 == all[k].0 && entries@[k].1@
                    == keep_firsts(all[k].1@, pairs_view(all[k].1@)),
        decreases grouped.len(),
    {
        let ghost before = grouped@;
        let entry = grouped.remove(0);
        let ports = unique_pairs(entry.1);
        entries.push((entry.0, ports));
        assert(grouped@ =~= all.subrange(entries@.len() as int, all.len() as int));
    }
    let r = PacketFilters { entries };
    proof {
        let out = r.entries@;
        assert(out.len() == all.len());
        assert forall|k: int| 0 <= k < out.len() implies (#[trigger] out[k]).1@.len() > 0
            && pairs_view(out[k].1@).no_duplicates() by {
            let ports = all[k].1@;
            lemma_keep_firsts(ports, pairs_view(ports));
            lemma_kept_pairs(ports);
        }
        assert forall|a: int, b: int|
            0 <= a < out.len() && 0 <= b < out.len() && a != b implies (#[trigger] out[a]).0@ != (
        #[trigger] out[b]).0@ by {
            assert(all[a].0@ != all[b].0@);
        }
        assert forall|chain: Seq<char>| #[trigger] r.lookup(chain) == filter_of(ibc_paths@, chain) by {
            let ports = ports_of(given@, chain);
            if has_entry(out, chain) {
                let k = choose|k: int| 0 <= k < out.len() && (#[trigger] out[k]).0@ == chain;
                lemma_lookup_at(out, k);
                assert(all[k].0@ == chain);
                assert(all[k].1@ == ports);
            } else {
                if ports.len() > 0 {
                    assert(has_entry(all, chain));
                    let k = choose|k: int| 0 <= k < all.len() && (#[trigger] all[k]).0@ == chain;
                    assert(out[k].0@ == chain);
                }
            }
        }
    }
    r
}

/// The pairs kept from a sequence of pairs of strings are pairwise
/// different as character sequences.
pub proof fn lemma_kept_pairs(ports: Seq<(String, String)>)
    ensures
        pairs_view(keep_firsts(ports, pairs_view(ports))).no_duplicates(),
{
    let keys = pairs_view(ports);
    let kept = keep_firsts(ports, keys);
    let kept_keys = keep_firsts(keys, keys);
    lemma_keep_firsts(ports, keys);
    assert forall|i: int| 0 <= i < kept.len() implies pairs_view(kept)[i] == kept_keys[i] by {
        assert(stands_with_key(ports, keys, kept[i], kept_keys[i]));
    }
    assert(pairs_view(kept) =~= kept_keys);
}

} // verus!
