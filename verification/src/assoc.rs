//! Lists of key-value pairs read as mappings.

use vstd::prelude::*;

verus! {

/// The mapping that a list of pairs describes: the pairs are taken in
/// order, and a later pair replaces an earlier one of the same key.
pub open spec fn assoc_map<K, V>(pairs: Seq<(K, V)>) -> Map<K, V>
    decreases pairs.len(),
{
    if pairs.len() == 0 {
        Map::empty()
    } else {
        assoc_map(pairs.drop_last()).insert(pairs.last().0, pairs.last().1)
    }
}

/// Whether no two pairs of a list share their key.
pub open spec fn keys_distinct<K, V>(pairs: Seq<(K, V)>) -> bool {
    forall|i: int, j: int| 0 <= i < j < pairs.len() ==> pairs[i].0 != pairs[j].0
}

/// Whether some pair of a list has the key `key`.
pub open spec fn has_key<K, V>(pairs: Seq<(K, V)>, key: K) -> bool {
    exists|i: int| 0 <= i < pairs.len() && #[trigger] pairs[i].0 == key
}

/// The entries of a payload or of a local source, as plain values.
pub open spec fn entries_view(entries: Seq<(String, String)>) -> Seq<(Seq<char>, Seq<char>)> {
    entries.map_values(|e: (String, String)| (e.0@, e.1@))
}

/// The fields that a list of entries describes: a later entry replaces an
/// earlier one of the same key.
pub open spec fn entry_map(entries: Seq<(String, String)>) -> Map<Seq<char>, Seq<char>> {
    assoc_map(entries_view(entries))
}

/// A pair put behind a list replaces or adds its key.
pub proof fn lemma_assoc_push<K, V>(pairs: Seq<(K, V)>, pair: (K, V))
    ensures
        assoc_map(pairs.push(pair)) == assoc_map(pairs).insert(pair.0, pair.1),
{
    assert(pairs.push(pair).drop_last() =~= pairs);
}

/// An entry put behind a list replaces or adds its field.
pub proof fn lemma_entry_push(entries: Seq<(String, String)>, entry: (String, String))
    ensures
        entry_map(entries.push(entry)) == entry_map(entries).insert(entry.0@, entry.1@),
{
    assert(entries_view(entries.push(entry)) =~= entries_view(entries).push((entry.0@, entry.1@)));
    lemma_assoc_push(entries_view(entries), (entry.0@, entry.1@));
}

/// The keys of the mapping are the keys of the pairs.
pub proof fn lemma_assoc_keys<K, V>(pairs: Seq<(K, V)>, key: K)
    ensures
        assoc_map(pairs).contains_key(key) <==> has_key(pairs, key),
    decreases pairs.len(),
{
    if pairs.len() > 0 {
        let front = pairs.drop_last();
        lemma_assoc_keys(front, key);
        if has_key(front, key) {
            let i = choose|i: int| 0 <= i < front.len() && #[trigger] front[i].0 == key;
            assert(pairs[i].0 == key);
        }
        if pairs.last().0 == key {
            assert(pairs[pairs.len() - 1].0 == key);
        }
        if has_key(pairs, key) && pairs.last().0 != key {
            let i = choose|i: int| 0 <= i < pairs.len() && #[trigger] pairs[i].0 == key;
            assert(front[i].0 == key);
        }
    }
}

/// Where no two pairs share their key, the mapping gives each pair's key
/// that pair's value.
pub proof fn lemma_assoc_value<K, V>(pairs: Seq<(K, V)>, i: int)
    requires
        keys_distinct(pairs),
        0 <= i < pairs.len(),
    ensures
        assoc_map(pairs).contains_key(pairs[i].0),
        assoc_map(pairs)[pairs[i].0] == pairs[i].1,
    decreases pairs.len(),
{
    if i < pairs.len() - 1 {
        let front = pairs.drop_last();
        assert(keys_distinct(front)) by {
            assert forall|a: int, b: int| 0 <= a < b < front.len() implies front[a].0
                != front[b].0 by {
                assert(pairs[a].0 != pairs[b].0);
            }
        }
        lemma_assoc_value(front, i);
        assert(front[i] == pairs[i]);
        assert(pairs[i].0 != pairs[pairs.len() - 1].0);
    }
}

} // verus!
