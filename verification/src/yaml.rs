//! The trusted boundary to the document parser. The serde_yaml crate turns
//! the raw text into a tree of `serde_yaml::Value` nodes; this module gives
//! that tree a mathematical shape (`YamlNode`) and wraps the handful of
//! accessor calls the schema walker needs, each with a contract over that
//! shape. Everything above this module is verified against these contracts.

use vstd::prelude::*;

verus! {

#[verifier::external_type_specification]
#[verifier::external_body]
pub struct ExValue(serde_yaml::Value);

/// The mathematical shape of one parsed document node. Tags are unwrapped,
/// as every accessor of the outside crate unwraps them. An integer that fits
/// `i64` is `Int`; any other number is `Num` with its decimal display text.
/// A mapping is modelled by its string-keyed entries, the only ones the
/// walker can reach.
pub enum YamlNode {
    Null,
    Bool(bool),
    Int(i64),
    Num(Seq<char>),
    Str(Seq<char>),
    List(Seq<YamlNode>),
    Mapping(Map<Seq<char>, YamlNode>),
}

/// What parsing a document text yields: the shape of its value tree, or
/// nothing when the text is not a valid document. Parsing is a pure function
/// of the text.
pub uninterp spec fn yaml_doc(s: Seq<char>) -> Option<YamlNode>;

/// The shape of one parsed node.
pub uninterp spec fn yaml_shape(v: serde_yaml::Value) -> YamlNode;

/// Relies on serde_yaml::from_str::<Value>: parses the whole document text
/// into a value tree, failing exactly on text that is not a valid document.
#[verifier::external_body]
pub(crate) fn parse_document(s: &str) -> (r: Option<serde_yaml::Value>)
    ensures
        r is Some <==> yaml_doc(s@) is Some,
        r is Some ==> yaml_shape(r->Some_0) == yaml_doc(s@)->Some_0,
{
    serde_yaml::from_str::<serde_yaml::Value>(s).ok()
}

/// Relies on serde_yaml::Value::get with a string index: on a mapping it
/// looks the key up; on any other node it returns nothing.
#[verifier::external_body]
pub(crate) fn get_field<'a>(v: &'a serde_yaml::Value, key: &str) -> (r: Option<
    &'a serde_yaml::Value,
>)
    ensures
        match yaml_shape(*v) {
            YamlNode::Mapping(m) => {
                &&& r is Some <==> m.contains_key(key@)
                &&& r is Some ==> yaml_shape(*r->Some_0) == m[key@]
            },
            _ => r is None,
        },
{
    v.get(key)
}

/// Relies on serde_yaml::Value::as_str: the string of a string node, and
/// nothing for every other node.
#[verifier::external_body]
pub(crate) fn value_as_str(v: &serde_yaml::Value) -> (r: Option<String>)
    ensures
        match yaml_shape(*v) {
            YamlNode::Str(t) => r is Some && r->Some_0@ == t,
            _ => r is None,
        },
{
    match v.as_str() {
        Some(s) => Some(s.to_owned()),
        None => None,
    }
}

/// Relies on serde_yaml::Value::as_i64: the value of an integer node that
/// fits `i64`, and nothing for every other node.
#[verifier::external_body]
pub(crate) fn value_as_i64(v: &serde_yaml::Value) -> (r: Option<i64>)
    ensures
        match yaml_shape(*v) {
            YamlNode::Int(i) => r == Some(i),
            _ => r is None,
        },
{
    v.as_i64()
}

/// Relies on serde_yaml::Value::as_bool: the value of a boolean node, and
/// nothing for every other node.
#[verifier::external_body]
pub(crate) fn value_as_bool(v: &serde_yaml::Value) -> (r: Option<bool>)
    ensures
        match yaml_shape(*v) {
            YamlNode::Bool(b) => r == Some(b),
            _ => r is None,
        },
{
    v.as_bool()
}

/// Relies on serde_yaml::Value::is_null: whether the node is a null.
#[verifier::external_body]
pub(crate) fn value_is_null(v: &serde_yaml::Value) -> (r: bool)
    ensures
        r == (yaml_shape(*v) is Null),
{
    v.is_null()
}

/// Relies on the display form of serde_yaml::Number: the decimal text of any
/// number node, and nothing for every other node. Tags are unwrapped here by
/// hand, the way the crate's own accessors unwrap them.
#[verifier::external_body]
pub(crate) fn value_number_text(v: &serde_yaml::Value) -> (r: Option<String>)
    ensures
        match yaml_shape(*v) {
            YamlNode::Int(_) => r is Some,
            YamlNode::Num(t) => r is Some && r->Some_0@ == t,
            _ => r is None,
        },
{
    let mut cur = v;
    while let serde_yaml::Value::Tagged(tag) = cur {
        cur = &tag.value;
    }
    match cur {
        serde_yaml::Value::Number(n) => Some(n.to_string()),
        _ => None,
    }
}

/// Relies on serde_yaml::Value::as_sequence: the elements of a sequence
/// node, and nothing for every other node.
#[verifier::external_body]
pub(crate) fn value_as_sequence<'a>(v: &'a serde_yaml::Value) -> (r: Option<
    &'a Vec<serde_yaml::Value>,
>)
    ensures
        match yaml_shape(*v) {
            YamlNode::List(items) => {
                &&& r is Some
                &&& r->Some_0@.len() == items.len()
                &&& forall|k: int|
                    0 <= k < items.len() ==> yaml_shape(#[trigger] r->Some_0@[k]) == items[k]
            },
            _ => r is None,
        },
{
    v.as_sequence()
}

} // verus!
