//! JSON values as `serde_json` holds them, seen through contracts.
//!
//! The crate never looks inside a `serde_json::Value` itself. Every value is
//! made and read through the functions below, each of which makes one call
//! into `serde_json` and says over [`json_of`] what that call does. None of
//! those statements is proved: they are read off the source of `serde_json`.

use vstd::prelude::*;

verus! {

/// `serde_json::Value`, carried through verified code as an opaque value.
#[verifier::external_type_specification]
#[verifier::external_body]
pub struct ExJsonValue(serde_json::Value);

/// `serde_json::Map`, the object form of a JSON value while it is filled.
#[verifier::external_type_specification]
#[verifier::external_body]
#[verifier::reject_recursive_types(K)]
#[verifier::reject_recursive_types(V)]
pub struct ExJsonMap<K, V>(serde_json::Map<K, V>);

/// The members of a JSON object while it is filled.
pub type Members = serde_json::Map<String, serde_json::Value>;

/// What a JSON value holds.
pub ghost enum Json {
    /// `null`.
    Null,
    /// `true` or `false`.
    Flag(bool),
    /// A number without fraction or exponent.
    Integer(int),
    /// Any other number.
    Fraction,
    /// A string.
    Text(Seq<char>),
    /// An array.
    List(Seq<Json>),
    /// An object: its members by key.
    Object(Map<Seq<char>, Json>),
}

/// Whether a value is `null`, `true`, `false`, a whole number or a string:
/// neither an array nor an object, and no number with a fraction.
pub open spec fn is_scalar(j: Json) -> bool {
    j is Null || j is Flag || j is Integer || j is Text
}

/// Whether a value is a scalar or an object of scalars.
pub open spec fn is_flat(j: Json) -> bool {
    is_scalar(j) || (j is Object && forall|k: Seq<char>| #[trigger]
        j->Object_0.contains_key(k) ==> is_scalar(j->Object_0[k]))
}

/// Whether a value is an object whose members are scalars or objects of
/// scalars. Such a value holds no array and no number with a fraction, so
/// that what it holds says all there is to say of it.
pub open spec fn is_shallow(j: Json) -> bool {
    j is Object && forall|k: Seq<char>| #[trigger]
        j->Object_0.contains_key(k) ==> is_flat(j->Object_0[k])
}

/// What the given `serde_json::Value` holds.
pub uninterp spec fn json_of(v: serde_json::Value) -> Json;

/// The members that the given `serde_json::Map` holds, by key.
pub uninterp spec fn members_of(m: Members) -> Map<Seq<char>, Json>;

/// The compact text that `serde_json` writes for a shallow value that holds
/// `j`. (Of other values nothing is said through this name: two numbers
/// with a fraction hold the same here and are written differently.)
pub uninterp spec fn json_text(j: Json) -> Seq<char>;

/// What the value holds that `serde_json` reads from a text; `None` where
/// the text is no JSON.
pub uninterp spec fn json_parsed(text: Seq<char>) -> Option<Json>;

/// `serde_json::Value::Null`: the value that holds `null`.
#[verifier::external_body]
pub(crate) fn null() -> (v: serde_json::Value)
    ensures
        json_of(v) == Json::Null,
{
    serde_json::Value::Null
}

/// `serde_json::Value::from` on a `u64`: the value that holds that number.
#[verifier::external_body]
pub(crate) fn number(n: u64) -> (v: serde_json::Value)
    ensures
        json_of(v) == Json::Integer(n as int),
{
    serde_json::Value::from(n)
}

/// `serde_json::Value::from` on a `&str`: the value that holds that string.
#[verifier::external_body]
pub(crate) fn text(s: &str) -> (v: serde_json::Value)
    ensures
        json_of(v) == Json::Text(s@),
{
    serde_json::Value::from(s)
}

/// `serde_json::Map::new`: a map without members.
#[verifier::external_body]
pub(crate) fn members() -> (m: Members)
    ensures
        members_of(m) == (Map::<Seq<char>, Json>::empty()),
{
    serde_json::Map::new()
}

/// `serde_json::Map::insert`: the member under `key` becomes `value`, and
/// the other members stay.
#[verifier::external_body]
pub(crate) fn put(m: &mut Members, key: &str, value: serde_json::Value)
    ensures
        members_of(*final(m)) == members_of(*old(m)).insert(key@, json_of(value)),
{
    m.insert(key.to_owned(), value);
}

/// `serde_json::Value::Object`: the object with the members of `m`.
#[verifier::external_body]
pub(crate) fn object(m: Members) -> (v: serde_json::Value)
    ensures
        json_of(v) == Json::Object(members_of(m)),
{
    serde_json::Value::Object(m)
}

/// `serde_json::Value::get` with a string key: the member of an object under
/// that key; `None` for a key that the object lacks and for a value that is
/// no object.
#[verifier::external_body]
pub(crate) fn member<'a>(v: &'a serde_json::Value, key: &str) -> (r: Option<&'a serde_json::Value>)
    ensures
        match json_of(*v) {
            Json::Object(m) if m.contains_key(key@) => r is Some && json_of(*r->Some_0) == m[key@],
            _ => r is None,
        },
{
    v.get(key)
}

/// `serde_json::Value::as_str`: the string that the value holds, if it holds
/// one.
#[verifier::external_body]
pub(crate) fn as_text<'a>(v: &'a serde_json::Value) -> (r: Option<&'a str>)
    ensures
        match json_of(*v) {
            Json::Text(s) => r is Some && r->Some_0@ == s,
            _ => r is None,
        },
{
    v.as_str()
}

/// `serde_json::Value::as_u64`: the number that the value holds, if it holds
/// a whole number that a `u64` can hold.
#[verifier::external_body]
pub(crate) fn as_number(v: &serde_json::Value) -> (r: Option<u64>)
    ensures
        match json_of(*v) {
            Json::Integer(n) if 0 <= n <= u64::MAX => r == Some(n as u64),
            _ => r is None,
        },
{
    v.as_u64()
}

/// `serde_json::Value::is_null`: whether the value holds `null`.
#[verifier::external_body]
pub(crate) fn is_null(v: &serde_json::Value) -> (b: bool)
    ensures
        b == (json_of(*v) is Null),
{
    v.is_null()
}

/// `serde_json::Value::to_string`: the compact JSON text of the value.
///
/// Claims of a shallow value only: that the text is [`json_text`] of what
/// the value holds, and that the text, read again by `serde_json::from_str`,
/// gives a value that holds the same. (Of a value with a fraction the first
/// would not hold, of a value that is nested deeply the second: reading
/// stops at a depth.)
#[verifier::external_body]
pub(crate) fn render(v: &serde_json::Value) -> (s: String)
    ensures
        is_shallow(json_of(*v)) ==> s@ == json_text(json_of(*v)),
        is_shallow(json_of(*v)) ==> json_parsed(s@) == Some(json_of(*v)),
{
    v.to_string()
}

/// `serde_json::from_str` into a `serde_json::Value`: the value that the
/// text states, or `None` where the text is no JSON.
#[verifier::external_body]
pub(crate) fn parse(text: &str) -> (r: Option<serde_json::Value>)
    ensures
        r is Some ==> json_parsed(text@) == Some(json_of(r->Some_0)),
        r is None ==> json_parsed(text@) is None,
{
    serde_json::from_str::<serde_json::Value>(text).ok()
}

} // verus!
