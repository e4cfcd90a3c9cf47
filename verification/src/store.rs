//! The documents of the revocation store.
//!
//! The store keeps one JSON document for each subject: the claims of the
//! subject's current refresh token. Of these only the identifier is
//! compared, and a subject has one valid refresh token at a time. Reading
//! and writing the store is the server's work; what a document says is
//! decided here.

use crate::claims::claims_of_json;
use crate::claims::claims_view;
use crate::claims::lemma_payload_round_trip;
use crate::claims::payload_json;
use crate::claims::Claims;
use crate::claims::ClaimsView;
use crate::json;
use crate::json::json_parsed;
use crate::json::json_text;
use crate::rotation::Fetched;
use vstd::prelude::*;

verus! {

/// The key under which the store keeps the record of a subject.
pub open spec fn session_key_spec(subject: Seq<char>) -> Seq<char> {
    "sessions:"@ + subject
}

/// The key under which the store keeps the record of a subject: see
/// [`session_key_spec`].
pub fn session_key(subject: &str) -> (key: String)
    ensures
        key@ == session_key_spec(subject@),
{
    let mut key = "sessions:".to_owned();
    key.append(subject);
    key
}

/// The document that records the given claims: their JSON object as
/// compact text.
pub open spec fn document_spec(record: ClaimsView) -> Seq<char> {
    json_text(payload_json(record))
}

/// The claims that a document records: those that its JSON states. `None`
/// where the text is no JSON or the JSON has not the structure of claims.
pub open spec fn recorded_spec(document: Seq<char>) -> Option<ClaimsView> {
    match json_parsed(document) {
        Some(j) => claims_of_json(j),
        None => None,
    }
}

/// The document that records the given claims: see [`document_spec`].
///
/// The document of valid claims, read again, gives the same claims.
pub fn document(record: &Claims) -> (s: String)
    ensures
        s@ == document_spec(record@),
        record@.valid() ==> recorded_spec(s@) == Some(record@),
{
    proof {
        lemma_payload_round_trip(record@);
    }
    json::render(&record.to_json())
}

/// The claims that a document records: see [`recorded_spec`].
pub fn recorded(document: &str) -> (r: Option<Claims>)
    ensures
        claims_view(r) == recorded_spec(document@),
{
    match json::parse(document) {
        Some(v) => Claims::from_json(&v),
        None => None,
    }
}

/// The record that the store's answer to a read amounts to: the claims of
/// the document that was found; no record where none was found, and none
/// where the document records no claims.
pub open spec fn fetched_spec(answer: Option<Seq<char>>) -> Option<ClaimsView> {
    match answer {
        Some(document) => recorded_spec(document),
        None => None,
    }
}

/// What the machine is told of a read that the store answered with the
/// given document, or with none: see [`fetched_spec`].
pub fn fetched(answer: Option<&str>) -> (r: Fetched)
    ensures
        match r {
            Fetched::Found(c) => fetched_spec(
                match answer {
                    Some(d) => Some(d@),
                    None => None,
                },
            ) == Some(c@),
            Fetched::Missing => fetched_spec(
                match answer {
                    Some(d) => Some(d@),
                    None => None,
                },
            ) is None,
            Fetched::Unavailable => false,
        },
{
    match answer {
        Some(text) => match recorded(text) {
            Some(c) => Fetched::Found(c),
            None => Fetched::Missing,
        },
        None => Fetched::Missing,
    }
}

} // verus!
