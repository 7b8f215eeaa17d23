//! The resolver: it answers from the registry where it can, and says which
//! store key to read where it cannot.
//!
//! Reading the store is the caller's work. A resolution that misses the
//! registry hands back a [`Resolution::Fetch`]; the caller reads the key and
//! hands what it got to [`Siblings::resolve_fetched`].

use crate::env::Env;
use crate::payload::{decoded, parse_string_map};
use crate::record::{DecodeError, Record, RegionEndpoint};
use crate::region::{Regions, UnsupportedRegion};
use crate::registry::{Endpoints, WellKnown};
use crate::text::{hyphenate, hyphenated, opt_str_view, opt_view, str_eq};
use vstd::prelude::*;
use vstd::string::*;

verus! {

/// What the resolver holds, as plain values: the model of [`Siblings`].
#[verifier::ext_equal]
pub struct State {
    /// The resolver's own sibling name, if it was given one.
    pub me: Option<Seq<char>>,
    /// The environment whose store keys it asks for.
    pub env: Env,
    /// The registry, by sibling name.
    pub endpoints: Map<Seq<char>, Record>,
}

/// The model of [`Resolution`].
pub enum Step {
    Found(Seq<char>),
    Fetch { sibling: Seq<char>, region: Option<Regions>, key: Seq<char> },
}

/// How a resolution stands after the registry was asked.
#[derive(Debug, PartialEq, Eq)]
pub enum Resolution {
    /// The registry holds a record: this is the address.
    Found(String),
    /// The registry holds none: `key` is to be read from the store, and
    /// what was read handed to [`Siblings::resolve_fetched`] together with
    /// `sibling` and `region`.
    Fetch { sibling: String, region: Option<Regions>, key: String },
}

impl View for Resolution {
    type V = Step;

    open spec fn view(&self) -> Step {
        match self {
            Resolution::Found(address) => Step::Found(address@),
            Resolution::Fetch { sibling, region, key } => Step::Fetch {
                sibling: sibling@,
                region: *region,
                key: key@,
            },
        }
    }
}

/// The name under which a local entry is registered: a well-known name as
/// it is, any other with its underscores turned into hyphens.
pub open spec fn local_name(key: Seq<char>) -> Seq<char> {
    if WellKnown::of(key) is Some {
        key
    } else {
        hyphenated(key)
    }
}

/// A registry after the local entries were registered in order, each key
/// with the record of its port.
pub open spec fn seeded(registry: Map<Seq<char>, Record>, entries: Seq<(String, String)>) -> Map<
    Seq<char>,
    Record,
>
    decreases entries.len(),
{
    if entries.len() == 0 {
        registry
    } else {
        seeded(registry, entries.drop_last()).insert(
            local_name(entries.last().0@),
            Record::local(entries.last().1@),
        )
    }
}

/// What a store read brought, decoded: a failed read, a payload that does
/// not decode and one without `default` all bring no record.
pub open spec fn fetched_record(fetched: Option<Seq<u8>>) -> Option<Record> {
    match fetched {
        None => None,
        Some(data) => match decoded(data) {
            Ok(record) => Some(record),
            Err(_) => None,
        },
    }
}

/// The record of a decoding that succeeded.
pub open spec fn decoded_record(decoded: Result<RegionEndpoint, DecodeError>) -> Option<Record> {
    match decoded {
        Ok(record) => Some(record@),
        Err(_) => None,
    }
}

impl State {
    /// The first step of a resolution: the address where the registry holds
    /// a record for the sibling, else the store key to read.
    pub open spec fn lookup(self, sibling: Seq<char>, region: Option<Regions>) -> Step {
        if self.endpoints.contains_key(sibling) {
            Step::Found(self.endpoints[sibling].address(region))
        } else {
            Step::Fetch { sibling, region, key: self.env.store_key(sibling) }
        }
    }

    /// The state after a resolution that missed was given `record`: with a
    /// record the registry holds it for the sibling, without one nothing
    /// changes.
    pub open spec fn supplied(self, sibling: Seq<char>, record: Option<Record>) -> State {
        match record {
            Some(r) => State { endpoints: self.endpoints.insert(sibling, r), ..self },
            None => self,
        }
    }

    /// The answer of a resolution that missed and was given `record`.
    pub open spec fn answer(record: Option<Record>, region: Option<Regions>) -> Option<Seq<char>> {
        match record {
            Some(r) => Some(r.address(region)),
            None => None,
        }
    }

    /// The state after a flush: the registry is empty.
    pub open spec fn flushed(self) -> State {
        State { endpoints: Map::empty(), ..self }
    }
}

/// Whether `step` is the first step of resolving `sibling` from `state`: a
/// region string that names no region is refused with that string; else the
/// step is what [`State::lookup`] gives for the region asked for.
pub open spec fn first_step(
    state: State,
    sibling: Seq<char>,
    region: Option<&str>,
    step: Result<Resolution, UnsupportedRegion>,
) -> bool {
    match Regions::requested(region) {
        Ok(r) => step matches Ok(s) && s@ == state.lookup(sibling, r),
        Err(bad) => step matches Err(e) && e.region@ == bad,
    }
}

/// The resolver of sibling addresses.
pub struct Siblings {
    me: Option<String>,
    env: Env,
    endpoints: Endpoints,
}

impl View for Siblings {
    type V = State;

    closed spec fn view(&self) -> State {
        State {
            me: match self.me {
                Some(id) => Some(id@),
                None => None,
            },
            env: self.env,
            endpoints: self.endpoints@,
        }
    }
}

/// The view of optional bytes.
pub open spec fn opt_bytes(b: Option<Vec<u8>>) -> Option<Seq<u8>> {
    match b {
        Some(b) => Some(b@),
        None => None,
    }
}

fn own_name(me: Option<&str>) -> (id: Option<String>)
    ensures
        opt_view(id) == opt_str_view(me),
{
    match me {
        Some(id) => Some(id.to_owned()),
        None => None,
    }
}

impl Siblings {
    /// A resolver with an empty registry.
    pub fn new(me: Option<&str>, env: Env) -> (resolver: Self)
        ensures
            resolver@ == (State { me: opt_str_view(me), env, endpoints: Map::empty() }),
    {
        Siblings { me: own_name(me), env, endpoints: Endpoints::new() }
    }

    /// Whether the value of the local-mode setting asks for local mode: it
    /// does when it is set to `TRUE`, spelled exactly so.
    pub fn local_mode(setting: Option<&str>) -> (local: bool)
        ensures
            local == (setting matches Some(s) && s@ == "TRUE"@),
    {
        match setting {
            Some(s) => str_eq(s, "TRUE"),
            None => false,
        }
    }

    /// A resolver for local development: its registry holds, for each entry
    /// of the local source, the record of a sibling on this machine at the
    /// entry's port. See [`seeded`].
    pub fn for_local(me: Option<&str>, env: Env, entries: &Vec<(String, String)>) -> (resolver:
        Self)
        ensures
            resolver@ == (State {
                me: opt_str_view(me),
                env,
                endpoints: seeded(Map::empty(), entries@),
            }),
    {
        let mut endpoints = Endpoints::new();
        let mut i: usize = 0;
        while i < entries.len()
            invariant
                i <= entries.len(),
                endpoints@ == seeded(Map::empty(), entries@.take(i as int)),
            decreases entries.len() - i,
        {
            let key = entries[i].0.as_str();
            let record = RegionEndpoint::local(entries[i].1.as_str());
            if WellKnown::from_name(key).is_some() {
                endpoints.put(key, record);
            } else {
                let name = hyphenate(key);
                endpoints.put(name.as_str(), record);
            }
            proof {
                assert(entries@.take(i + 1).drop_last() =~= entries@.take(i as int));
            }
            i += 1;
        }
        proof {
            assert(entries@.take(entries@.len() as int) =~= entries@);
        }
        Siblings { me: own_name(me), env, endpoints }
    }

    /// Decodes a store payload into a record.
    pub fn deserialize(data: Vec<u8>) -> (record: Result<RegionEndpoint, DecodeError>)
        ensures
            match decoded(data@) {
                Ok(r) => record matches Ok(got) && got@ == r,
                Err(e) => record == Err::<RegionEndpoint, DecodeError>(e),
            },
    {
        match parse_string_map(data.as_slice()) {
            Ok(entries) => RegionEndpoint::from_entries(&entries),
            Err(_) => Err(DecodeError::Malformed),
        }
    }

    /// Starts the resolution of a sibling: a region string that names no
    /// region is refused; else the registry answers, or the store key to
    /// read is handed back. The resolver does not change.
    pub fn sibling(&self, sibling: &str, region: Option<&str>) -> (step: Result<
        Resolution,
        UnsupportedRegion,
    >)
        ensures
            first_step(self@, sibling@, region, step),
    {
        let region = match Regions::parse_request(region) {
            Ok(r) => r,
            Err(e) => {
                return Err(e);
            },
        };
        match self.endpoints.get(sibling) {
            Some(record) => Ok(Resolution::Found(record.address(region))),
            None => Ok(
                Resolution::Fetch {
                    sibling: sibling.to_owned(),
                    region,
                    key: self.env.make_store_key(sibling),
                },
            ),
        }
    }

    /// Starts the resolution of a well-known sibling, as [`Siblings::sibling`]
    /// does for its name.
    pub fn well_known(&self, sibling: WellKnown, region: Option<&str>) -> (step: Result<
        Resolution,
        UnsupportedRegion,
    >)
        ensures
            first_step(self@, sibling.name(), region, step),
    {
        self.sibling(sibling.as_str(), region)
    }

    /// Starts the resolution of `august`, which has a slot of its own.
    pub fn august(&self, region: Option<&str>) -> (step: Result<Resolution, UnsupportedRegion>)
        ensures
            first_step(self@, WellKnown::August.name(), region, step),
    {
        self.well_known(WellKnown::August, region)
    }

    /// Starts the resolution of `k9`, which has a slot of its own.
    pub fn k9(&self, region: Option<&str>) -> (step: Result<Resolution, UnsupportedRegion>)
        ensures
            first_step(self@, WellKnown::K9.name(), region, step),
    {
        self.well_known(WellKnown::K9, region)
    }

    /// Starts the resolution of `retina`, which has a slot of its own.
    pub fn retina(&self, region: Option<&str>) -> (step: Result<Resolution, UnsupportedRegion>)
        ensures
            first_step(self@, WellKnown::Retina.name(), region, step),
    {
        self.well_known(WellKnown::Retina, region)
    }

    /// Starts the resolution of `bank-statement`, which has a slot of its own.
    pub fn bankstatement(&self, region: Option<&str>) -> (step: Result<Resolution, UnsupportedRegion>)
        ensures
            first_step(self@, WellKnown::BankStatement.name(), region, step),
    {
        self.well_known(WellKnown::BankStatement, region)
    }

    /// Starts the resolution of `matrix`, which has a slot of its own.
    pub fn matrix(&self, region: Option<&str>) -> (step: Result<Resolution, UnsupportedRegion>)
        ensures
            first_step(self@, WellKnown::Matrix.name(), region, step),
    {
        self.well_known(WellKnown::Matrix, region)
    }

    /// Starts the resolution of `pandora`, which has a slot of its own.
    pub fn pandora(&self, region: Option<&str>) -> (step: Result<Resolution, UnsupportedRegion>)
        ensures
            first_step(self@, WellKnown::Pandora.name(), region, step),
    {
        self.well_known(WellKnown::Pandora, region)
    }

    /// Starts the resolution of `schematron`, which has a slot of its own.
    pub fn schematron(&self, region: Option<&str>) -> (step: Result<Resolution, UnsupportedRegion>)
        ensures
            first_step(self@, WellKnown::Schematron.name(), region, step),
    {
        self.well_known(WellKnown::Schematron, region)
    }

    /// Starts the resolution of `sentry`, which has a slot of its own.
    pub fn sentry(&self, region: Option<&str>) -> (step: Result<Resolution, UnsupportedRegion>)
        ensures
            first_step(self@, WellKnown::Sentry.name(), region, step),
    {
        self.well_known(WellKnown::Sentry, region)
    }

    /// Starts the resolution of `thumbnailer`, which has a slot of its own.
    pub fn thumbnailer(&self, region: Option<&str>) -> (step: Result<Resolution, UnsupportedRegion>)
        ensures
            first_step(self@, WellKnown::Thumbnailer.name(), region, step),
    {
        self.well_known(WellKnown::Thumbnailer, region)
    }

    /// Starts the resolution of `xchange`, which has a slot of its own.
    pub fn xchange(&self, region: Option<&str>) -> (step: Result<Resolution, UnsupportedRegion>)
        ensures
            first_step(self@, WellKnown::Xchange.name(), region, step),
    {
        self.well_known(WellKnown::Xchange, region)
    }

    /// Finishes a resolution that missed the registry, with what decoding
    /// the store's payload gave: a record is registered for the sibling and
    /// answers the request; a failure changes nothing and the answer is
    /// absent.
    pub fn resolve_decoded(
        &mut self,
        sibling: &str,
        region: Option<Regions>,
        decoded: Result<RegionEndpoint, DecodeError>,
    ) -> (address: Option<String>)
        ensures
            final(self)@ == old(self)@.supplied(sibling@, decoded_record(decoded)),
            opt_view(address) == State::answer(decoded_record(decoded), region),
    {
        match decoded {
            Ok(record) => {
                let address = record.address(region);
                self.endpoints.put(sibling, record);
                Some(address)
            },
            Err(_) => None,
        }
    }

    /// Finishes a resolution that missed the registry, with what reading
    /// the store key brought: `None` where the read failed, else the
    /// payload.
    pub fn resolve_fetched(
        &mut self,
        sibling: &str,
        region: Option<Regions>,
        fetched: Option<Vec<u8>>,
    ) -> (address: Option<String>)
        ensures
            final(self)@ == old(self)@.supplied(sibling@, fetched_record(opt_bytes(fetched))),
            opt_view(address) == State::answer(fetched_record(opt_bytes(fetched)), region),
    {
        match fetched {
            Some(data) => {
                let decoded = Siblings::deserialize(data);
                self.resolve_decoded(sibling, region, decoded)
            },
            None => None,
        }
    }

    /// Starts the resolution of the resolver's own address: `None` where it
    /// was given no name of its own, whatever the region string; else as
    /// [`Siblings::sibling`] does for that name.
    pub fn me(&self, region: Option<&str>) -> (step: Result<Option<Resolution>, UnsupportedRegion>)
        ensures
            match self@.me {
                None => step matches Ok(None),
                Some(id) => match Regions::requested(region) {
                    Ok(r) => step matches Ok(Some(s)) && s@ == self@.lookup(id, r),
                    Err(bad) => step matches Err(e) && e.region@ == bad,
                },
            },
    {
        match &self.me {
            Some(id) => match self.sibling(id.as_str(), region) {
                Ok(step) => Ok(Some(step)),
                Err(e) => Err(e),
            },
            None => Ok(None),
        }
    }

    /// Empties the registry, so that every sibling is read from the store
    /// again.
    pub fn flush(&mut self)
        ensures
            final(self)@ == old(self)@.flushed(),
    {
        self.endpoints.flush();
    }
}

} // verus!
