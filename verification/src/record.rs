//! The record of one sibling: a default address and optional per-region
//! overrides.

use crate::assoc::{entry_map, lemma_entry_push};
use crate::region::Regions;
use crate::text::{join, opt_view, str_eq};
use vstd::prelude::*;
use vstd::string::*;

verus! {

/// What a record says, as plain values: the model of [`RegionEndpoint`].
pub struct Record {
    pub default: Seq<char>,
    pub ind: Option<Seq<char>>,
    pub usa: Option<Seq<char>>,
}

impl Record {
    /// The override this record holds for a region, if any.
    pub open spec fn override_for(self, region: Regions) -> Option<Seq<char>> {
        match region {
            Regions::IN => self.ind,
            Regions::US => self.usa,
        }
    }

    /// The address this record gives for a request: the default where no
    /// region is asked for, else the region's override, else the default.
    pub open spec fn address(self, region: Option<Regions>) -> Seq<char> {
        match region {
            None => self.default,
            Some(r) => match self.override_for(r) {
                Some(a) => a,
                None => self.default,
            },
        }
    }

    /// The record of a sibling that runs on this machine at `port`.
    pub open spec fn local(port: Seq<char>) -> Record {
        Record { default: "http://localhost:"@ + port, ind: None, usa: None }
    }

    /// The record that the fields of a store payload describe: `default` is
    /// required, `in` and `us` are the optional overrides, and any other
    /// field is ignored.
    pub open spec fn of_fields(fields: Map<Seq<char>, Seq<char>>) -> Option<Record> {
        if fields.contains_key("default"@) {
            Some(
                Record {
                    default: fields["default"@],
                    ind: fields.get("in"@),
                    usa: fields.get("us"@),
                },
            )
        } else {
            None
        }
    }
}

/// Why a store payload gave no record.
#[derive(Debug, Clone, Copy, PartialEq, Eq, Structural)]
pub enum DecodeError {
    /// The payload is not a JSON object of strings.
    Malformed,
    /// The payload has no `default` field.
    MissingDefault,
}

/// The addresses of one sibling.
#[derive(Debug, PartialEq, Eq)]
pub struct RegionEndpoint {
    default: String,
    ind: Option<String>,
    usa: Option<String>,
}

impl View for RegionEndpoint {
    type V = Record;

    closed spec fn view(&self) -> Record {
        Record { default: self.default@, ind: opt_view(self.ind), usa: opt_view(self.usa) }
    }
}

impl Default for RegionEndpoint {
    /// The record with an empty default address and no override.
    fn default() -> (record: Self)
        ensures
            record@ == (Record { default: Seq::<char>::empty(), ind: None, usa: None }),
    {
        RegionEndpoint { default: String::new(), ind: None, usa: None }
    }
}

impl Clone for RegionEndpoint {
    fn clone(&self) -> (copy: Self)
        ensures
            copy@ == self@,
    {
        RegionEndpoint {
            default: self.default.clone(),
            ind: clone_opt(&self.ind),
            usa: clone_opt(&self.usa),
        }
    }
}

fn clone_opt(s: &Option<String>) -> (copy: Option<String>)
    ensures
        opt_view(copy) == opt_view(*s),
{
    match s {
        Some(s) => Some(s.clone()),
        None => None,
    }
}

/// The value of the last entry under `key`, if there is one.
fn last_value(entries: &Vec<(String, String)>, key: &str) -> (value: Option<String>)
    ensures
        opt_view(value) == entry_map(entries@).get(key@),
{
    let mut value: Option<String> = None;
    let mut i: usize = 0;
    while i < entries.len()
        invariant
            i <= entries.len(),
            opt_view(value) == entry_map(entries@.take(i as int)).get(key@),
        decreases entries.len() - i,
    {
        if str_eq(entries[i].0.as_str(), key) {
            value = Some(entries[i].1.clone());
        }
        proof {
            assert(entries@.take(i + 1) =~= entries@.take(i as int).push(entries@[i as int]));
            lemma_entry_push(entries@.take(i as int), entries@[i as int]);
        }
        i += 1;
    }
    proof {
        assert(entries@.take(entries@.len() as int) =~= entries@);
    }
    value
}

impl RegionEndpoint {
    /// A record with the given default address and overrides.
    pub fn new(default: String, ind: Option<String>, usa: Option<String>) -> (record: Self)
        ensures
            record@ == (Record { default: default@, ind: opt_view(ind), usa: opt_view(usa) }),
    {
        RegionEndpoint { default, ind, usa }
    }

    /// The record of a sibling that runs on this machine at `port`: its
    /// default address is `http://localhost:<port>`, and it has no override.
    pub fn local(port: &str) -> (record: Self)
        ensures
            record@ == Record::local(port@),
    {
        RegionEndpoint { default: join("http://localhost:", port), ind: None, usa: None }
    }

    /// The address for a request: the default where no region is asked
    /// for, else the region's override, else the default.
    pub fn address(&self, region: Option<Regions>) -> (address: String)
        ensures
            address@ == self@.address(region),
    {
        match region {
            Some(Regions::US) => {
                if let Some(a) = &self.usa {
                    return a.clone();
                }
            },
            Some(Regions::IN) => {
                if let Some(a) = &self.ind {
                    return a.clone();
                }
            },
            None => {},
        }
        self.default.clone()
    }

    /// The address for a request, which a record always has.
    pub fn get(&self, region: Option<Regions>) -> (address: Option<String>)
        ensures
            address matches Some(a) && a@ == self@.address(region),
    {
        Some(self.address(region))
    }

    /// Builds the record that a payload's entries describe, or reports that
    /// they hold no `default`.
    pub fn from_entries(entries: &Vec<(String, String)>) -> (decoded: Result<
        RegionEndpoint,
        DecodeError,
    >)
        ensures
            match Record::of_fields(entry_map(entries@)) {
                Some(record) => decoded matches Ok(r) && r@ == record,
                None => decoded == Err::<RegionEndpoint, DecodeError>(DecodeError::MissingDefault),
            },
    {
        match last_value(entries, "default") {
            Some(default) => Ok(
                RegionEndpoint {
                    default,
                    ind: last_value(entries, "in"),
                    usa: last_value(entries, "us"),
                },
            ),
            None => Err(DecodeError::MissingDefault),
        }
    }
}

} // verus!
