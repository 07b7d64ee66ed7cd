//! JSON documents, as `serde_json` reads, holds and writes them.
//!
//! Nothing in this file is proved: each function states what the called
//! function of `serde_json` does, over a mathematical picture of a document.

use vstd::prelude::*;

verus! {

/// What a JSON document holds.
pub enum Tree {
    Null,
    Bool(bool),
    /// A number that was written without fraction or exponent and fits in 64
    /// bits, signed or unsigned.
    Integer(int),
    /// Any other number, by the text that stands for it.
    Fraction(Seq<char>),
    Text(Seq<char>),
    List(Seq<Tree>),
    /// An object: at most one member under each key.
    Object(Map<Seq<char>, Tree>),
}

#[verifier::external_type_specification]
#[verifier::external_body]
pub struct ExValue(serde_json::Value);

#[verifier::external_type_specification]
#[verifier::external_body]
pub struct ExError(serde_json::Error);

/// What a `serde_json::Value` holds.
pub uninterp spec fn json_tree(v: serde_json::Value) -> Tree;

/// What `serde_json::from_slice` reads from a byte string as a `Value`; `None`
/// where it refuses the bytes.
///
/// This is what the parser reads, not the JSON grammar alone: built with its
/// support for raw values, it reads an object whose first key is its
/// raw-value token as the document that the string under that key spells.
pub uninterp spec fn json_parse(bytes: Seq<u8>) -> Option<Tree>;

/// The bytes that `serde_json::to_vec` writes for a document; `None` where it
/// fails.
pub uninterp spec fn json_print(t: Tree) -> Option<Seq<u8>>;

/// `Display` of `serde_json::Error`, through `to_string`: the text of the
/// error. Nothing is claimed of it.
#[verifier::external_body]
pub(crate) fn error_text(e: &serde_json::Error) -> (r: String) {
    e.to_string()
}

/// `serde_json::from_slice::<Value>`: the document that the bytes spell, or
/// the parser's error.
#[verifier::external_body]
pub(crate) fn parse_value(bytes: &[u8]) -> (r: Result<serde_json::Value, serde_json::Error>)
    ensures
        match r {
            Ok(v) => json_parse(bytes@) == Some(json_tree(v)),
            Err(_) => json_parse(bytes@) is None,
        },
{
    serde_json::from_slice::<serde_json::Value>(bytes)
}

/// `serde_json::to_vec` on a `Value`: the bytes written for the document, or
/// the serializer's error.
#[verifier::external_body]
pub(crate) fn print_value(v: &serde_json::Value) -> (r: Result<Vec<u8>, serde_json::Error>)
    ensures
        match r {
            Ok(b) => json_print(json_tree(*v)) == Some(b@),
            Err(_) => json_print(json_tree(*v)) is None,
        },
{
    serde_json::to_vec(v)
}

/// `Value::get` with a string index: the member under `key` where the value
/// is an object that has one, else `None`.
#[verifier::external_body]
pub(crate) fn member<'a>(v: &'a serde_json::Value, key: &str) -> (r: Option<&'a serde_json::Value>)
    ensures
        match json_tree(*v) {
            Tree::Object(m) => if m.contains_key(key@) {
                r matches Some(x) && json_tree(*x) == m[key@]
            } else {
                r is None
            },
            _ => r is None,
        },
{
    v.get(key)
}

/// `Value::as_i64`: the number where the value is an integer that fits in
/// `i64`, else `None`.
#[verifier::external_body]
pub(crate) fn as_integer(v: &serde_json::Value) -> (r: Option<i64>)
    ensures
        match json_tree(*v) {
            Tree::Integer(i) => if i <= i64::MAX {
                r matches Some(x) && x == i
            } else {
                r is None
            },
            _ => r is None,
        },
{
    v.as_i64()
}

/// `Value::as_str`: the text where the value is a string, else `None`.
#[verifier::external_body]
pub(crate) fn as_text<'a>(v: &'a serde_json::Value) -> (r: Option<&'a str>)
    ensures
        match json_tree(*v) {
            Tree::Text(s) => r matches Some(x) && x@ == s,
            _ => r is None,
        },
{
    v.as_str()
}

/// `Value::is_null`.
#[verifier::external_body]
pub(crate) fn is_null(v: &serde_json::Value) -> (r: bool)
    ensures
        r == (json_tree(*v) is Null),
{
    v.is_null()
}

/// The variant `Value::Null`.
#[verifier::external_body]
pub(crate) fn null_value() -> (r: serde_json::Value)
    ensures
        json_tree(r) == Tree::Null,
{
    serde_json::Value::Null
}

/// `Value::from` on an `i64`: the number, as an integer.
#[verifier::external_body]
pub(crate) fn integer_value(i: i64) -> (r: serde_json::Value)
    ensures
        json_tree(r) == Tree::Integer(i as int),
{
    serde_json::Value::from(i)
}

/// `Value::from` on a `&str`: a string with the same text.
#[verifier::external_body]
pub(crate) fn text_value(s: &str) -> (r: serde_json::Value)
    ensures
        json_tree(r) == Tree::Text(s@),
{
    serde_json::Value::from(s)
}

/// `Map::new` inside `Value::Object`: an object without members.
#[verifier::external_body]
pub(crate) fn empty_object() -> (r: serde_json::Value)
    ensures
        json_tree(r) == Tree::Object(Map::empty()),
{
    serde_json::Value::Object(serde_json::Map::new())
}

/// `Map::insert` on the map of an object: afterwards the object holds `val`
/// under `key`, in place of what it held there, and its other members as
/// before.
#[verifier::external_body]
pub(crate) fn set_member(obj: &mut serde_json::Value, key: &str, val: serde_json::Value)
    requires
        json_tree(*old(obj)) is Object,
    ensures
        json_tree(*final(obj)) == Tree::Object(
            json_tree(*old(obj))->Object_0.insert(key@, json_tree(val)),
        ),
{
    if let serde_json::Value::Object(m) = obj {
        m.insert(key.to_owned(), val);
    }
}

} // verus!
