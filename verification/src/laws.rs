//! What holds of every resolution, stated over the models of the resolver
//! and proved from their definitions.

use crate::env::Env;
use crate::payload::json_string_map;
use crate::record::Record;
use crate::region::Regions;
use crate::resolver::{fetched_record, State, Step};
use vstd::prelude::*;

verus! {

/// A resolution without a region, of a sibling that the registry holds a
/// record for, gives the record's default address.
pub proof fn law_no_region_gives_default(state: State, sibling: Seq<char>)
    requires
        state.endpoints.contains_key(sibling),
    ensures
        state.lookup(sibling, None) == Step::Found(state.endpoints[sibling].default),
{
}

/// A resolution with a region, of a sibling that the registry holds a
/// record for, gives the record's override for that region where it has
/// one, and its default address where it has none.
pub proof fn law_region_gives_override_else_default(
    state: State,
    sibling: Seq<char>,
    region: Regions,
)
    requires
        state.endpoints.contains_key(sibling),
    ensures
        state.lookup(sibling, Some(region)) == Step::Found(
            match state.endpoints[sibling].override_for(region) {
                Some(address) => address,
                None => state.endpoints[sibling].default,
            },
        ),
{
}

/// Once a fetch has brought a record for a sibling, resolving that sibling
/// is answered by the registry, for every region, and asks for no fetch;
/// and this stays so whatever later fetches bring, for any sibling.
pub proof fn law_populated_sibling_is_not_fetched_again(
    state: State,
    sibling: Seq<char>,
    record: Record,
    region: Option<Regions>,
    later_sibling: Seq<char>,
    later_record: Option<Record>,
)
    ensures
        state.supplied(sibling, Some(record)).lookup(sibling, region) == Step::Found(
            record.address(region),
        ),
        state.supplied(sibling, Some(record)).supplied(later_sibling, later_record).lookup(
            sibling,
            region,
        ) is Found,
{
}

/// After a flush every resolution asks for a fetch of the sibling's store
/// key, whatever the registry held before.
pub proof fn law_flush_forces_fetch(state: State, sibling: Seq<char>, region: Option<Regions>)
    ensures
        state.flushed().lookup(sibling, region) == (Step::Fetch {
            sibling,
            region,
            key: state.env.store_key(sibling),
        }),
{
}

/// A payload whose fields lack `default` gives no record, not even a
/// partial one: the resolution's answer is absent, the resolver is as it
/// was, and the next resolution of the sibling starts as this one did.
pub proof fn law_payload_without_default_is_a_miss(
    state: State,
    sibling: Seq<char>,
    data: Seq<u8>,
    fields: Map<Seq<char>, Seq<char>>,
    region: Option<Regions>,
)
    requires
        !fields.contains_key("default"@),
    ensures
        Record::of_fields(fields) is None,
        json_string_map(data) == Some(fields) ==> {
            let brought = fetched_record(Some(data));
            &&& brought is None
            &&& State::answer(brought, region) is None
            &&& state.supplied(sibling, brought) == state
            &&& state.supplied(sibling, brought).lookup(sibling, region) == state.lookup(
                sibling,
                region,
            )
        },
{
}

/// A fetch that brings no record, because the read failed or the payload
/// does not decode, is not remembered: the answer is absent, the resolver is
/// as it was, and the next resolution of the sibling asks for a fetch again
/// where this one did.
pub proof fn law_miss_is_not_remembered(
    state: State,
    sibling: Seq<char>,
    fetched: Option<Seq<u8>>,
    region: Option<Regions>,
)
    ensures
        fetched_record(fetched) is None ==> {
            &&& State::answer(fetched_record(fetched), region) is None
            &&& state.supplied(sibling, fetched_record(fetched)) == state
            &&& state.supplied(sibling, fetched_record(fetched)).lookup(sibling, region)
                == state.lookup(sibling, region)
        },
        fetched is None ==> fetched_record(fetched) is None,
{
}

/// A sibling's store key is its name behind `ep-` in production and behind
/// `dev-ep-` in development; a resolution that misses the registry asks for
/// the key of the resolver's environment; and no key of one environment is
/// a key of the other.
pub proof fn law_store_keys_are_namespaced(
    state: State,
    sibling: Seq<char>,
    other: Seq<char>,
    region: Option<Regions>,
)
    ensures
        Env::Prod.store_key(sibling) == "ep-"@ + sibling,
        Env::Dev.store_key(sibling) == "dev-ep-"@ + sibling,
        !state.endpoints.contains_key(sibling) ==> state.lookup(sibling, region) == (Step::Fetch {
            sibling,
            region,
            key: state.env.store_key(sibling),
        }),
        Env::Dev.store_key(sibling) != Env::Prod.store_key(other),
{
    reveal_strlit("ep-");
    reveal_strlit("dev-ep-");
    // The keys of the two environments differ in their first letter.
    assert(Env::Dev.store_key(sibling)[0] == 'd');
    assert(Env::Prod.store_key(other)[0] == 'e');
}

/// Within one environment two siblings share a store key only if they
/// share their name.
pub proof fn law_store_key_names_one_sibling(env: Env, sibling: Seq<char>, other: Seq<char>)
    requires
        env.store_key(sibling) == env.store_key(other),
    ensures
        sibling == other,
{
    let n = env.prefix().len() as int;
    let key = env.store_key(sibling);
    assert(key.len() == n + sibling.len());
    assert(key.len() == n + other.len());
    assert(sibling =~= key.subrange(n, key.len() as int));
    assert(other =~= key.subrange(n, key.len() as int));
}

} // verus!
