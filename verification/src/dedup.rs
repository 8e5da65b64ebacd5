//! Dropping repeated items from a sequence, keeping the first of each.

use vstd::prelude::*;
use itertools::Itertools;
use crate::paths::ChannelInfo;

verus! {

/// The items whose key did not occur earlier in the sequence, in order.
/// `keys[i]` is the key of `items[i]`.
pub open spec fn keep_firsts<T, K>(items: Seq<T>, keys: Seq<K>) -> Seq<T>
    recommends
        items.len() == keys.len(),
    decreases items.len(),
{
    if items.len() == 0 || keys.len() == 0 {
        Seq::empty()
    } else {
        let kept = keep_firsts(items.drop_last(), keys.drop_last());
        if keys.drop_last().contains(keys.last()) {
            kept
        } else {
            kept.push(items.last())
        }
    }
}

/// Whether `item` stands at some position of `items` where `keys` holds
/// `key`.
pub open spec fn stands_with_key<T, K>(items: Seq<T>, keys: Seq<K>, item: T, key: K) -> bool {
    exists|j: int| 0 <= j < items.len() && 0 <= j < keys.len() && items[j] == item && keys[j] == key
}

/// Keeping first occurrences leaves every key exactly once: the kept keys
/// are pairwise different, they are the keys that occur at all, and each
/// kept item stands with its own key.
pub proof fn lemma_keep_firsts<T, K>(items: Seq<T>, keys: Seq<K>)
    requires
        items.len() == keys.len(),
    ensures
        keep_firsts(items, keys).len() == keep_firsts(keys, keys).len(),
        keep_firsts(items, keys).len() <= items.len(),
        items.len() > 0 ==> keep_firsts(items, keys).len() > 0,
        keep_firsts(keys, keys).no_duplicates(),
        forall|k: K| keep_firsts(keys, keys).contains(k) <==> keys.contains(k),
        forall|i: int|
            0 <= i < keep_firsts(items, keys).len() ==> stands_with_key(
                items,
                keys,
                #[trigger] keep_firsts(items, keys)[i],
                keep_firsts(keys, keys)[i],
            ),
    decreases items.len(),
{
    if items.len() > 0 {
        let front_items = items.drop_last();
        let front_keys = keys.drop_last();
        lemma_keep_firsts(front_items, front_keys);
        let kept = keep_firsts(items, keys);
        let kept_keys = keep_firsts(keys, keys);
        let before = keep_firsts(front_keys, front_keys);
        let last_key = keys.last();
        assert(kept_keys == if front_keys.contains(last_key) {
            before
        } else {
            before.push(last_key)
        });
        assert forall|k: K| kept_keys.contains(k) <==> keys.contains(k) by {
            assert(before.contains(k) <==> front_keys.contains(k));
            if kept_keys.contains(k) {
                let i = choose|i: int| 0 <= i < kept_keys.len() && kept_keys[i] == k;
                if i < before.len() {
                    assert(before[i] == k);
                    assert(front_keys.contains(k));
                    let j = choose|j: int| 0 <= j < front_keys.len() && front_keys[j] == k;
                    assert(keys[j] == k);
                } else {
                    assert(keys[keys.len() - 1] == k);
                }
                assert(keys.contains(k));
            }
            if keys.contains(k) {
                let j = choose|j: int| 0 <= j < keys.len() && keys[j] == k;
                if j < front_keys.len() {
                    assert(front_keys[j] == k);
                }
                if front_keys.contains(k) {
                    let i = choose|i: int| 0 <= i < before.len() && before[i] == k;
                    assert(kept_keys[i] == k);
                } else {
                    assert(k == last_key);
                    assert(kept_keys[kept_keys.len() - 1] == k);
                }
                assert(kept_keys.contains(k));
            }
        }
        let front_kept = keep_firsts(front_items, front_keys);
        assert forall|i: int| 0 <= i < kept.len() implies stands_with_key(
            items,
            keys,
            #[trigger] kept[i],
            kept_keys[i],
        ) by {
            if i < before.len() {
                assert(stands_with_key(front_items, front_keys, front_kept[i], before[i]));
                let j = choose|j: int|
                    0 <= j < front_items.len() && 0 <= j < front_keys.len() && front_items[j]
                        == front_kept[i] && front_keys[j] == before[i];
                assert(items[j] == kept[i] && keys[j] == kept_keys[i]);
            } else {
                let j = items.len() - 1;
                assert(items[j] == kept[i] && keys[j] == kept_keys[i]);
            }
        }
        assert(kept_keys.no_duplicates()) by {
            assert forall|a: int, b: int|
                0 <= a < kept_keys.len() && 0 <= b < kept_keys.len() && a != b implies kept_keys[a]
                != kept_keys[b] by {
                if a < before.len() && b < before.len() {
                } else if a < before.len() {
                    assert(before.contains(before[a]));
                } else if b < before.len() {
                    assert(before.contains(before[b]));
                }
            }
        }
    }
}

/// The two channel identifiers by which repeated channel records are told.
pub open spec fn channel_pair(channel: ChannelInfo) -> (Seq<char>, Seq<char>) {
    (channel.source_channel_id@, channel.destination_channel_id@)
}

/// The identifier pairs of a sequence of channel records.
pub open spec fn channel_pairs(channels: Seq<ChannelInfo>) -> Seq<(Seq<char>, Seq<char>)> {
    Seq::new(channels.len(), |i: int| channel_pair(channels[i]))
}

/// The character sequences of a pair of strings.
pub open spec fn pair_view(pair: (String, String)) -> (Seq<char>, Seq<char>) {
    (pair.0@, pair.1@)
}

/// The character sequences of a sequence of pairs of strings.
pub open spec fn pairs_view(pairs: Seq<(String, String)>) -> Seq<(Seq<char>, Seq<char>)> {
    Seq::new(pairs.len(), |i: int| pair_view(pairs[i]))
}

/// The key by which repeated channel records are told: the two channel
/// identifiers.
pub fn channel_key(channel: &ChannelInfo) -> (key: (String, String))
    ensures
        pair_view(key) == channel_pair(*channel),
{
    (channel.source_channel_id.clone(), channel.destination_channel_id.clone())
}

/// Calls `Itertools::unique_by` with [`channel_key`] as the key. Trusted:
/// the result holds, in order, the records whose key did not occur in an
/// earlier record.
#[verifier::external_body]
pub(crate) fn unique_by_channel_pair(channels: Vec<ChannelInfo>) -> (r: Vec<ChannelInfo>)
    ensures
        r@ == keep_firsts(channels@, channel_pairs(channels@)),
{
    channels.into_iter().unique_by(|channel| channel_key(channel)).collect()
}

/// Calls `Itertools::unique` on pairs of strings. Trusted: the result
/// holds, in order, the pairs that did not occur earlier.
#[verifier::external_body]
pub(crate) fn unique_pairs(pairs: Vec<(String, String)>) -> (r: Vec<(String, String)>)
    ensures
        r@ == keep_firsts(pairs@, pairs_view(pairs@)),
{
    pairs.into_iter().unique().collect()
}

} // verus!
