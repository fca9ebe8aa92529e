//! Reading JSON: the two places where the catalog service answers in a shape
//! that has to be looked into, the active-status field of a record and the
//! address inside a record's profile.
//!
//! Parsing and member lookup are the work of `serde_json`. Its results are
//! named here and believed; what is done with them is verified.

use crate::machine::ActiveStatus;
use crate::text::text_view;
use vstd::prelude::*;

verus! {

/// A parsed JSON value of `serde_json`. Nothing inside it is visible here.
#[verifier::external_type_specification]
#[verifier::external_body]
pub struct ExValue(serde_json::Value);

/// The error of `serde_json`. Nothing inside it is visible here.
#[verifier::external_type_specification]
#[verifier::external_body]
pub struct ExError(serde_json::Error);

/// The JSON value that `text` spells, if it spells one.
pub uninterp spec fn json_document(text: Seq<char>) -> Option<serde_json::Value>;

/// The member of the JSON object `v` under `key`; none where `v` is no object or
/// has no such member.
pub uninterp spec fn json_member(v: serde_json::Value, key: Seq<char>) -> Option<serde_json::Value>;

/// The characters of `v`, where `v` is a JSON string.
pub uninterp spec fn json_text(v: serde_json::Value) -> Option<Seq<char>>;

/// The truth value of `v`, where `v` is a JSON boolean.
pub uninterp spec fn json_flag(v: serde_json::Value) -> Option<bool>;

/// The number `v` as an `i64`, where `v` is a JSON integer in that range.
pub uninterp spec fn json_integer(v: serde_json::Value) -> Option<i64>;

/// `serde_json::from_str` at `serde_json::Value`: parses a text as one JSON
/// value. The contract claims only that the outcome is a function of the text:
/// the value that the text spells, or an error where it spells none.
#[verifier::external_body]
fn parse_document(text: &str) -> (r: Result<serde_json::Value, serde_json::Error>)
    ensures
        r matches Ok(v) ==> json_document(text@) == Some(v),
        r is Err ==> json_document(text@).is_none(),
{
    serde_json::from_str::<serde_json::Value>(text)
}

/// `serde_json::Value::get` with a string key: the member of an object under
/// that key. The contract names the outcome and claims nothing more.
#[verifier::external_body]
fn member<'a>(v: &'a serde_json::Value, key: &str) -> (r: Option<&'a serde_json::Value>)
    ensures
        r matches Some(m) ==> json_member(*v, key@) == Some(*m),
        r is None ==> json_member(*v, key@).is_none(),
{
    v.get(key)
}

/// `serde_json::Value::as_str`: the text of a JSON string, none for every other
/// value. The contract names the outcome and claims nothing more.
#[verifier::external_body]
fn text_of<'a>(v: &'a serde_json::Value) -> (r: Option<&'a str>)
    ensures
        r matches Some(s) ==> json_text(*v) == Some(s@),
        r is None ==> json_text(*v).is_none(),
{
    v.as_str()
}

/// `serde_json::Value::as_bool`: the truth value of a JSON boolean, none for
/// every other value. The contract names the outcome and claims nothing more.
#[verifier::external_body]
fn flag_of(v: &serde_json::Value) -> (r: Option<bool>)
    ensures
        r == json_flag(*v),
{
    v.as_bool()
}

/// `serde_json::Value::as_i64`: a JSON integer that fits in `i64`, none for every
/// other value. The contract names the outcome and claims nothing more.
#[verifier::external_body]
fn integer_of(v: &serde_json::Value) -> (r: Option<i64>)
    ensures
        r == json_integer(*v),
{
    v.as_i64()
}

/// The active-status field that the JSON value `v` stands for: a boolean, else
/// an integer, else something of no meaning.
pub open spec fn active_status(v: serde_json::Value) -> ActiveStatus {
    match json_flag(v) {
        Some(b) => ActiveStatus::Flag(b),
        None => match json_integer(v) {
            Some(n) => ActiveStatus::Count(n),
            None => ActiveStatus::Other,
        },
    }
}

/// The address in a profile: the string at `info.ip` of the JSON document that
/// `body` spells; none where the body is no JSON, or holds no string there.
pub open spec fn address_in(body: Seq<char>) -> Option<Seq<char>> {
    match json_document(body) {
        Some(doc) => match json_member(doc, "info"@) {
            Some(info) => match json_member(info, "ip"@) {
                Some(ip) => json_text(ip),
                None => None,
            },
            None => None,
        },
        None => None,
    }
}

/// Decodes the active-status field of a record as it came off the wire.
pub fn decode_active(v: &serde_json::Value) -> (r: ActiveStatus)
    ensures
        r == active_status(*v),
{
    match flag_of(v) {
        Some(b) => ActiveStatus::Flag(b),
        None => match integer_of(v) {
            Some(n) => ActiveStatus::Count(n),
            None => ActiveStatus::Other,
        },
    }
}

/// Reads the address out of the body of a profile response.
pub fn profile_ip(body: &str) -> (r: Option<String>)
    ensures
        text_view(r) == address_in(body@),
{
    match parse_document(body) {
        Ok(doc) => match member(&doc, "info") {
            Some(info) => match member(info, "ip") {
                Some(ip) => match text_of(ip) {
                    Some(s) => Some(s.to_owned()),
                    None => None,
                },
                None => None,
            },
            None => None,
        },
        Err(_) => None,
    }
}

} // verus!
