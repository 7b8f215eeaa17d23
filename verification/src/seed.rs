//! Seeding the store: the writes that put the records of a document under
//! their store keys.

use crate::assoc::{
    assoc_map, entries_view, entry_map, has_key, keys_distinct, lemma_assoc_keys,
    lemma_assoc_value, lemma_entry_push,
};
use crate::env::Env;
use crate::payload::{document_view, json_document, json_text, parse_document, write_string_map};
use crate::text::str_eq;
use vstd::prelude::*;
use vstd::string::*;

verus! {

/// Why a document gave no writes.
#[derive(Debug)]
pub enum SeedError {
    /// The document is not a JSON object of objects of strings.
    Malformed(serde_json::Error),
    /// The fields of a sibling could not be written as JSON.
    Unserializable(serde_json::Error),
}

/// Whether `write` puts a sibling's fields under its store key: the key is
/// the sibling's in the environment, the payload the fields' JSON text.
pub open spec fn is_write_for(
    env: Env,
    sibling: Seq<char>,
    fields: Map<Seq<char>, Seq<char>>,
    write: (String, Vec<u8>),
) -> bool {
    &&& write.0@ == env.store_key(sibling)
    &&& json_text(fields) == Some(write.1@)
}

/// Whether `writes` are the writes for the siblings `names` of a document,
/// one for each in this order, and `names` are the document's siblings,
/// each once.
pub open spec fn writes_in_order(
    env: Env,
    document: Map<Seq<char>, Map<Seq<char>, Seq<char>>>,
    names: Seq<Seq<char>>,
    writes: Seq<(String, Vec<u8>)>,
) -> bool {
    &&& names.no_duplicates()
    &&& forall|name: Seq<char>| names.contains(name) <==> document.contains_key(name)
    &&& names.len() == writes.len()
    &&& forall|i: int|
        0 <= i < names.len() ==> is_write_for(
            env,
            names[i],
            document[names[i]],
            #[trigger] writes[i],
        )
}

/// Whether `writes` seed a document: in some order of its siblings, there
/// is one write for each.
pub open spec fn seeds(
    env: Env,
    document: Map<Seq<char>, Map<Seq<char>, Seq<char>>>,
    writes: Seq<(String, Vec<u8>)>,
) -> bool {
    exists|names: Seq<Seq<char>>| writes_in_order(env, document, names, writes)
}

/// Where in `kept` the key stands, if it does.
fn position(kept: &Vec<(String, String)>, key: &str) -> (at: Option<usize>)
    ensures
        match at {
            Some(p) => p < kept.len() && kept[p as int].0@ == key@,
            None => !has_key(entries_view(kept@), key@),
        },
{
    let mut i: usize = 0;
    while i < kept.len()
        invariant
            i <= kept.len(),
            forall|j: int| 0 <= j < i ==> kept[j].0@ != key@,
        decreases kept.len() - i,
    {
        if str_eq(kept[i].0.as_str(), key) {
            return Some(i);
        }
        i += 1;
    }
    None
}

/// The entries with each key once: a key stands where it first stood, with
/// the value of its last entry.
pub fn settled(entries: &Vec<(String, String)>) -> (kept: Vec<(String, String)>)
    ensures
        keys_distinct(entries_view(kept@)),
        entry_map(kept@) == entry_map(entries@),
{
    let mut kept: Vec<(String, String)> = Vec::new();
    let mut i: usize = 0;
    while i < entries.len()
        invariant
            i <= entries.len(),
            keys_distinct(entries_view(kept@)),
            entry_map(kept@) == entry_map(entries@.take(i as int)),
        decreases entries.len() - i,
    {
        let entry = (entries[i].0.clone(), entries[i].1.clone());
        let ghost before = kept@;
        proof {
            assert(entries@.take(i + 1) =~= entries@.take(i as int).push(entries@[i as int]));
            lemma_entry_push(entries@.take(i as int), entries@[i as int]);
        }
        match position(&kept, entry.0.as_str()) {
            Some(p) => {
                kept.set(p, entry);
                proof {
                    lemma_replaced(before, p as int, kept@[p as int]);
                }
            },
            None => {
                kept.push(entry);
                proof {
                    lemma_entry_push(before, kept@[kept@.len() - 1]);
                    assert(entries_view(kept@) =~= entries_view(before).push(
                        entries_view(kept@)[kept@.len() - 1],
                    ));
                    assert forall|a: int, b: int| 0 <= a < b < kept@.len() implies entries_view(
                        kept@,
                    )[a].0 != entries_view(kept@)[b].0 by {
                        if b == kept@.len() - 1 {
                            assert(entries_view(before)[a].0 == entries_view(kept@)[a].0);
                        } else {
                            assert(entries_view(before)[a].0 != entries_view(before)[b].0);
                        }
                    }
                }
            },
        }
        i += 1;
    }
    proof {
        assert(entries@.take(entries@.len() as int) =~= entries@);
    }
    kept
}

/// Giving the entry at `p` a new value, under its old key, keeps the keys
/// apart and gives that key the new value.
proof fn lemma_replaced(before: Seq<(String, String)>, p: int, entry: (String, String))
    requires
        keys_distinct(entries_view(before)),
        0 <= p < before.len(),
        entry.0@ == before[p].0@,
    ensures
        keys_distinct(entries_view(before.update(p, entry))),
        entry_map(before.update(p, entry)) == entry_map(before).insert(entry.0@, entry.1@),
{
    let old_pairs = entries_view(before);
    let new_pairs = entries_view(before.update(p, entry));
    assert(new_pairs =~= old_pairs.update(p, (entry.0@, entry.1@)));
    assert forall|a: int, b: int| 0 <= a < b < new_pairs.len() implies new_pairs[a].0
        != new_pairs[b].0 by {
        assert(old_pairs[a].0 != old_pairs[b].0);
    }
    assert(keys_distinct(new_pairs));
    let wanted = assoc_map(old_pairs).insert(entry.0@, entry.1@);
    assert forall|key: Seq<char>| assoc_map(new_pairs).contains_key(key) <==> wanted.contains_key(
        key,
    ) by {
        lemma_assoc_keys(new_pairs, key);
        lemma_assoc_keys(old_pairs, key);
        if has_key(new_pairs, key) {
            let i = choose|i: int| 0 <= i < new_pairs.len() && #[trigger] new_pairs[i].0 == key;
            assert(old_pairs[i].0 == key);
        }
        if has_key(old_pairs, key) {
            let i = choose|i: int| 0 <= i < old_pairs.len() && #[trigger] old_pairs[i].0 == key;
            assert(new_pairs[i].0 == key);
        }
        if key == entry.0@ {
            assert(new_pairs[p].0 == key);
        }
    }
    assert forall|key: Seq<char>| assoc_map(new_pairs).contains_key(key) implies assoc_map(
        new_pairs,
    )[key] == wanted[key] by {
        lemma_assoc_keys(new_pairs, key);
        let i = choose|i: int| 0 <= i < new_pairs.len() && #[trigger] new_pairs[i].0 == key;
        lemma_assoc_value(new_pairs, i);
        lemma_assoc_value(old_pairs, i);
        if i != p {
            assert(old_pairs[i].0 != old_pairs[p].0);
        }
    }
    assert(assoc_map(new_pairs) =~= wanted);
}

/// The writes for the siblings of a document that was read: one for each,
/// in their order, as long as the fields of each can be written.
pub fn plan_writes(env: Env, document: &Vec<(String, Vec<(String, String)>)>) -> (plan: Result<
    Vec<(String, Vec<u8>)>,
    SeedError,
>)
    ensures
        match plan {
            Ok(writes) => {
                &&& writes.len() == document.len()
                &&& forall|i: int|
                    0 <= i < writes.len() ==> is_write_for(
                        env,
                        document[i].0@,
                        entry_map(document[i].1@),
                        #[trigger] writes[i],
                    )
            },
            Err(e) => {
                &&& e is Unserializable
                &&& exists|i: int|
                    0 <= i < document.len() && json_text(
                        entry_map(#[trigger] document[i].1@),
                    ) is None
            },
        },
{
    let mut writes: Vec<(String, Vec<u8>)> = Vec::new();
    let mut i: usize = 0;
    while i < document.len()
        invariant
            i <= document.len(),
            writes.len() == i,
            forall|j: int|
                0 <= j < i ==> is_write_for(
                    env,
                    document[j].0@,
                    entry_map(document[j].1@),
                    #[trigger] writes[j],
                ),
        decreases document.len() - i,
    {
        let fields = settled(&document[i].1);
        match write_string_map(&fields) {
            Ok(payload) => {
                writes.push((env.make_store_key(document[i].0.as_str()), payload));
            },
            Err(e) => {
                proof {
                    assert(json_text(entry_map(document[i as int].1@)) is None);
                }
                return Err(SeedError::Unserializable(e));
            },
        }
        i += 1;
    }
    Ok(writes)
}

/// The writes planned for the siblings that were read, in their order, seed
/// the document that the siblings describe.
proof fn lemma_plan_seeds(
    env: Env,
    read: Seq<(String, Vec<(String, String)>)>,
    writes: Seq<(String, Vec<u8>)>,
)
    requires
        keys_distinct(document_view(read)),
        writes.len() == read.len(),
        forall|i: int|
            0 <= i < writes.len() ==> is_write_for(
                env,
                read[i].0@,
                entry_map(read[i].1@),
                #[trigger] writes[i],
            ),
    ensures
        seeds(env, assoc_map(document_view(read)), writes),
{
    let pairs = document_view(read);
    let siblings = assoc_map(pairs);
    let names = pairs.map_values(|p: (Seq<char>, Map<Seq<char>, Seq<char>>)| p.0);
    assert forall|a: int, b: int| 0 <= a < names.len() && 0 <= b < names.len() && a
        != b implies names[a] != names[b] by {
        if a < b {
            assert(pairs[a].0 != pairs[b].0);
        } else {
            assert(pairs[b].0 != pairs[a].0);
        }
    }
    assert forall|name: Seq<char>| names.contains(name) <==> siblings.contains_key(name) by {
        lemma_assoc_keys(pairs, name);
        if names.contains(name) {
            let i = choose|i: int| 0 <= i < names.len() && names[i] == name;
            assert(pairs[i].0 == name);
        }
        if has_key(pairs, name) {
            let i = choose|i: int| 0 <= i < pairs.len() && #[trigger] pairs[i].0 == name;
            assert(names[i] == name);
        }
    }
    assert forall|i: int| 0 <= i < names.len() implies is_write_for(
        env,
        names[i],
        siblings[names[i]],
        #[trigger] writes[i],
    ) by {
        lemma_assoc_value(pairs, i);
        assert(pairs[i].0 == names[i]);
        assert(pairs[i].1 == entry_map(read[i].1@));
    }
    assert(writes_in_order(env, siblings, names, writes));
}

/// A sibling that was read and whose fields cannot be written is a sibling
/// of the document with such fields.
proof fn lemma_unwritable_sibling(read: Seq<(String, Vec<(String, String)>)>, i: int)
    requires
        keys_distinct(document_view(read)),
        0 <= i < read.len(),
        json_text(entry_map(read[i].1@)) is None,
    ensures
        assoc_map(document_view(read)).contains_key(read[i].0@),
        json_text(assoc_map(document_view(read))[read[i].0@]) is None,
{
    let pairs = document_view(read);
    lemma_assoc_value(pairs, i);
    assert(pairs[i].0 == read[i].0@);
    assert(pairs[i].1 == entry_map(read[i].1@));
}

/// The writes that seed the store of an environment with a document, which
/// maps each sibling's name to its fields.
pub fn seed_writes(env: Env, document: &str) -> (plan: Result<Vec<(String, Vec<u8>)>, SeedError>)
    ensures
        match json_document(document@) {
            None => plan matches Err(e) && e is Malformed,
            Some(siblings) => match plan {
                Ok(writes) => seeds(env, siblings, writes@),
                Err(e) => {
                    &&& e is Unserializable
                    &&& exists|name: Seq<char>|
                        #[trigger] siblings.contains_key(name) && json_text(siblings[name]) is None
                },
            },
        },
{
    let read = match parse_document(document) {
        Ok(read) => read,
        Err(e) => {
            return Err(SeedError::Malformed(e));
        },
    };
    let plan = plan_writes(env, &read);
    proof {
        let siblings = json_document(document@)->0;
        assert(siblings == assoc_map(document_view(read@)));
        if plan is Ok {
            lemma_plan_seeds(env, read@, plan->Ok_0@);
        } else {
            let i = choose|i: int|
                0 <= i < read@.len() && json_text(entry_map(#[trigger] read@[i].1@)) is None;
            lemma_unwritable_sibling(read@, i);
            assert(siblings.contains_key(read@[i].0@) && json_text(siblings[read@[i].0@]) is None);
        }
    }
    plan
}

} // verus!
