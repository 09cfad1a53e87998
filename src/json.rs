//! A one-level view of JSON values, and text conversion.
//!
//! `serde_json::Value` is opaque to the verifier: everything the library reads
//! from a value or builds into one goes through `Node`, which holds the variant
//! of a value and its direct children.
use vstd::prelude::*;
use vstd::string::*;

verus! {

#[verifier::external_type_specification]
#[verifier::external_body]
pub struct ExValue(serde_json::Value);

#[verifier::external_type_specification]
#[verifier::external_body]
pub struct ExNumber(serde_json::Number);

#[verifier::external_type_specification]
#[verifier::external_body]
pub struct ExJsonError(serde_json::Error);

/// The variant of a JSON value with its direct children.
pub ghost enum Shape {
    Null,
    Bool(bool),
    Number(serde_json::Number),
    Text(Seq<char>),
    Array(Seq<serde_json::Value>),
    Object(Map<Seq<char>, serde_json::Value>),
}

/// What a JSON value is, one level deep.
pub uninterp spec fn shape_of(v: serde_json::Value) -> Shape;

/// The text of a JSON value in compact form.
pub uninterp spec fn json_text(v: serde_json::Value) -> Seq<char>;

/// The value that a JSON text parses to, if it is well-formed.
pub uninterp spec fn parsed_json(text: Seq<char>) -> Option<serde_json::Value>;

/// One level of a JSON value, as the library builds and reads it.
#[derive(Debug)]
pub enum Node {
    Null,
    Bool(bool),
    Number(serde_json::Number),
    Text(String),
    Array(Vec<serde_json::Value>),
    Object(Vec<(String, serde_json::Value)>),
}

/// The map that a list of object entries describes; a later entry replaces an
/// earlier one with the same key.
pub open spec fn entries_map(es: Seq<(String, serde_json::Value)>) -> Map<Seq<char>, serde_json::Value>
    decreases es.len(),
{
    if es.len() == 0 {
        Map::empty()
    } else {
        entries_map(es.drop_last()).insert(es.last().0@, es.last().1)
    }
}

impl Node {
    pub open spec fn spec_shape(self) -> Shape {
        match self {
            Node::Null => Shape::Null,
            Node::Bool(b) => Shape::Bool(b),
            Node::Number(n) => Shape::Number(n),
            Node::Text(s) => Shape::Text(s@),
            Node::Array(a) => Shape::Array(a@),
            Node::Object(es) => Shape::Object(entries_map(es@)),
        }
    }
}

/// No two entries of an object share a key.
pub open spec fn distinct_keys(es: Seq<(String, serde_json::Value)>) -> bool {
    forall|i: int, j: int| 0 <= i < j < es.len() ==> es[i].0@ != es[j].0@
}

/// Whether a node is an object whose entries share a key.
pub open spec fn repeats_keys(n: Node) -> bool {
    match n {
        Node::Object(es) => !distinct_keys(es@),
        _ => false,
    }
}

/// Relies on the variants of `serde_json::Value` and on `Map`'s `FromIterator`,
/// which keeps every entry when the keys are distinct: builds a value from
/// its variant and children.
#[verifier::external_body]
pub fn fold(n: Node) -> (v: serde_json::Value)
    ensures
        !repeats_keys(n) ==> shape_of(v) == n.spec_shape(),
{
    match n {
        Node::Null => serde_json::Value::Null,
        Node::Bool(b) => serde_json::Value::Bool(b),
        Node::Number(x) => serde_json::Value::Number(x),
        Node::Text(s) => serde_json::Value::String(s),
        Node::Array(a) => serde_json::Value::Array(a),
        Node::Object(es) => serde_json::Value::Object(es.into_iter().collect()),
    }
}

/// Relies on `Value::clone` and the variants of `serde_json::Value`: takes a
/// value apart into its variant and children (an object's entries come once per key).
#[verifier::external_body]
pub fn unfold(v: &serde_json::Value) -> (n: Node)
    ensures
        n.spec_shape() == shape_of(*v),
{
    match v.clone() {
        serde_json::Value::Null => Node::Null,
        serde_json::Value::Bool(b) => Node::Bool(b),
        serde_json::Value::Number(x) => Node::Number(x),
        serde_json::Value::String(s) => Node::Text(s),
        serde_json::Value::Array(a) => Node::Array(a),
        serde_json::Value::Object(m) => Node::Object(m.into_iter().collect()),
    }
}

/// Relies on `Value`'s `Display`, which writes the compact JSON text.
#[verifier::external_body]
pub fn to_json_text(v: &serde_json::Value) -> (r: String)
    ensures
        r@ == json_text(*v),
{
    v.to_string()
}

/// Relies on `serde_json::from_str`: the outcome depends on the text alone.
#[verifier::external_body]
pub fn parse_json_text(text: &str) -> (r: Result<serde_json::Value, serde_json::Error>)
    ensures
        r is Ok <==> parsed_json(text@) is Some,
        r is Ok ==> parsed_json(text@) == Some(r->Ok_0),
{
    serde_json::from_str(text)
}

/// Relies on `serde::de::Error::custom` for `serde_json::Error`: an error
/// that carries a message about the shape of the input.
#[verifier::external_body]
pub fn shape_error(msg: &str) -> (r: serde_json::Error) {
    <serde_json::Error as serde::de::Error>::custom(msg)
}

/// Whether `s` holds exactly the characters of `lit`.
pub fn text_is(s: &String, lit: &str) -> (r: bool)
    ensures
        r == (s@ == lit@),
{
    let l = String::from_str(lit);
    s.eq(&l)
}

/// Entries at or after `i` that do not have `key` leave its lookup to the
/// entries before `i`.
proof fn lemma_lookup_prefix(es: Seq<(String, serde_json::Value)>, key: Seq<char>, i: int)
    requires
        0 <= i <= es.len(),
        forall|j: int| i <= j < es.len() ==> es[j].0@ != key,
    ensures
        entries_map(es).contains_key(key) == entries_map(es.subrange(0, i)).contains_key(key),
        entries_map(es).contains_key(key) ==> entries_map(es)[key] == entries_map(
            es.subrange(0, i),
        )[key],
    decreases es.len(),
{
    if es.len() > i {
        lemma_lookup_prefix(es.drop_last(), key, i);
        assert(es.drop_last().subrange(0, i) =~= es.subrange(0, i));
    } else {
        assert(es.subrange(0, i) =~= es);
    }
}

/// The value under `key` in a list of object entries, as `entries_map` reads it.
pub fn field<'a>(es: &'a Vec<(String, serde_json::Value)>, key: &str) -> (r: Option<&'a serde_json::Value>)
    ensures
        r is Some <==> entries_map(es@).contains_key(key@),
        r is Some ==> *r->Some_0 == entries_map(es@)[key@],
{
    let mut i: usize = es.len();
    while i > 0
        invariant
            i <= es@.len(),
            forall|j: int| i <= j < es@.len() ==> es@[j].0@ != key@,
        decreases i,
    {
        if text_is(&es[i - 1].0, key) {
            proof {
                lemma_lookup_prefix(es@, key@, i as int);
                assert(es@.subrange(0, i as int).drop_last() =~= es@.subrange(0, i - 1));
            }
            return Some(&es[i - 1].1);
        }
        i = i - 1;
    }
    proof {
        lemma_lookup_prefix(es@, key@, 0);
    }
    None
}


/// The unsigned integer that a JSON number holds, if it holds one.
pub uninterp spec fn number_u64(n: serde_json::Number) -> Option<u64>;

/// The signed integer that a JSON number holds, if it holds one.
pub uninterp spec fn number_i64(n: serde_json::Number) -> Option<i64>;

/// Relies on `serde_json::Number::as_u64`: the value when the number is an
/// integer that fits in `u64`.
#[verifier::external_body]
pub fn number_as_u64(n: &serde_json::Number) -> (r: Option<u64>)
    ensures
        r == number_u64(*n),
{
    n.as_u64()
}

/// Relies on `serde_json::Number::as_i64`: the value when the number is an
/// integer that fits in `i64`.
#[verifier::external_body]
pub fn number_as_i64(n: &serde_json::Number) -> (r: Option<i64>)
    ensures
        r == number_i64(*n),
{
    n.as_i64()
}

} // verus!
