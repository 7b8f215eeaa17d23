//! Store payloads: the JSON text of a record, read and written with
//! `serde_json`.

use crate::assoc::{assoc_map, entries_view, entry_map, keys_distinct};
use crate::record::{DecodeError, Record};
use std::collections::{BTreeMap, HashMap};
use vstd::prelude::*;

verus! {

/// The error type of `serde_json`, carried through and never looked into.
#[verifier::external_type_specification]
#[verifier::external_body]
pub struct ExJsonError(serde_json::Error);

/// The fields that `serde_json::from_slice` reads from a payload as a map
/// from string to string, or `None` where it reports an error.
pub uninterp spec fn json_string_map(data: Seq<u8>) -> Option<Map<Seq<char>, Seq<char>>>;

/// Calls `serde_json::from_slice` for a `HashMap<String, String>` and hands
/// out the map's entries. A map holds each key once, so the entries describe
/// exactly the map that was read, in whatever order they come; an error of
/// `serde_json` is passed on as it is.
#[verifier::external_body]
pub(crate) fn parse_string_map(data: &[u8]) -> (parsed: Result<Vec<(String, String)>, serde_json::Error>)
    ensures
        match parsed {
            Ok(entries) => json_string_map(data@) == Some(entry_map(entries@)),
            Err(_) => json_string_map(data@) is None,
        },
{
    match serde_json::from_slice::<HashMap<String, String>>(data) {
        Ok(fields) => Ok(fields.into_iter().collect()),
        Err(e) => Err(e),
    }
}

/// The siblings that `serde_json::from_str` reads from a document as a map
/// from each sibling's name to a map from string to string, or `None` where
/// it reports an error.
pub uninterp spec fn json_document(text: Seq<char>) -> Option<
    Map<Seq<char>, Map<Seq<char>, Seq<char>>>,
>;

/// The JSON text that `serde_json::to_vec` writes for a map from string to
/// string whose keys it meets in ascending order, or `None` where it reports
/// an error.
pub uninterp spec fn json_text(fields: Map<Seq<char>, Seq<char>>) -> Option<Seq<u8>>;

/// The siblings of a document, as plain values: each name with its fields.
pub open spec fn document_view(document: Seq<(String, Vec<(String, String)>)>) -> Seq<
    (Seq<char>, Map<Seq<char>, Seq<char>>),
> {
    document.map_values(|e: (String, Vec<(String, String)>)| (e.0@, entry_map(e.1@)))
}

/// Calls `serde_json::from_str` for a `HashMap` from `String` to
/// `HashMap<String, String>` and hands out its entries, each inner map as
/// its entries too. A map holds each key once, so no two of the siblings
/// handed out share their name, and together they describe exactly the map
/// that was read, in whatever order they come; an error of `serde_json` is
/// passed on as it is.
#[verifier::external_body]
pub(crate) fn parse_document(text: &str) -> (parsed: Result<
    Vec<(String, Vec<(String, String)>)>,
    serde_json::Error,
>)
    ensures
        match parsed {
            Ok(document) => {
                &&& json_document(text@) == Some(assoc_map(document_view(document@)))
                &&& keys_distinct(document_view(document@))
            },
            Err(_) => json_document(text@) is None,
        },
{
    match serde_json::from_str::<HashMap<String, HashMap<String, String>>>(text) {
        Ok(document) => Ok(
            document.into_iter().map(|(name, fields)| (name, fields.into_iter().collect())).collect(),
        ),
        Err(e) => Err(e),
    }
}

/// Calls `serde_json::to_vec` on the entries as a `BTreeMap`, which is
/// walked in ascending order of its keys. No two entries may share their
/// key, so that the map holds each entry; an error of `serde_json` is passed
/// on as it is.
#[verifier::external_body]
pub(crate) fn write_string_map(fields: &Vec<(String, String)>) -> (written: Result<
    Vec<u8>,
    serde_json::Error,
>)
    requires
        keys_distinct(entries_view(fields@)),
    ensures
        match written {
            Ok(text) => json_text(entry_map(fields@)) == Some(text@),
            Err(_) => json_text(entry_map(fields@)) is None,
        },
{
    let map: BTreeMap<&str, &str> = fields.iter().map(|(k, v)| (k.as_str(), v.as_str())).collect();
    serde_json::to_vec(&map)
}

/// What a payload decodes to: the record that its fields describe, or the
/// reason why there is none.
pub open spec fn decoded(data: Seq<u8>) -> Result<Record, DecodeError> {
    match json_string_map(data) {
        None => Err(DecodeError::Malformed),
        Some(fields) => match Record::of_fields(fields) {
            Some(record) => Ok(record),
            None => Err(DecodeError::MissingDefault),
        },
    }
}

} // verus!
