use vstd::prelude::*;

verus! {

broadcast use vstd::seq::axiom_seq_index_decreases;

/// A JSON document, held entirely in the library's own types so that the
/// logic that builds and reads documents can be verified.  A number is held
/// as its decimal text, which is how it is written on the wire.
#[derive(Debug)]
pub enum JsonNode {
    Null,
    Bool(bool),
    Num(String),
    Str(String),
    Arr(Vec<JsonNode>),
    Obj(Vec<(String, JsonNode)>),
}

/// The mathematical model of a JSON document: what a `JsonNode` holds, with
/// every string read as its sequence of characters.
pub enum JsonRep {
    Null,
    Bool(bool),
    Num(Seq<char>),
    Str(Seq<char>),
    Arr(Seq<JsonRep>),
    Obj(Seq<(Seq<char>, JsonRep)>),
}

/// The model of a node.
pub open spec fn rep_of(n: JsonNode) -> JsonRep
    decreases n, 1int,
{
    match n {
        JsonNode::Null => JsonRep::Null,
        JsonNode::Bool(b) => JsonRep::Bool(b),
        JsonNode::Num(s) => JsonRep::Num(s@),
        JsonNode::Str(s) => JsonRep::Str(s@),
        JsonNode::Arr(items) => JsonRep::Arr(arr_rep(items@)),
        JsonNode::Obj(entries) => JsonRep::Obj(entries_rep(entries@)),
    }
}

/// The model of an array's item list.
pub open spec fn arr_rep(items: Seq<JsonNode>) -> Seq<JsonRep>
    decreases items, 0int,
{
    Seq::new(
        items.len(),
        |i: int|
            if 0 <= i < items.len() {
                rep_of(items[i])
            } else {
                JsonRep::Null
            },
    )
}

/// The model of an object's entry list.
pub open spec fn entries_rep(entries: Seq<(String, JsonNode)>) -> Seq<(Seq<char>, JsonRep)>
    decreases entries, 0int,
{
    Seq::new(
        entries.len(),
        |i: int|
            if 0 <= i < entries.len() {
                (entries[i].0@, rep_of(entries[i].1))
            } else {
                (Seq::empty(), JsonRep::Null)
            },
    )
}

impl View for JsonNode {
    type V = JsonRep;

    open spec fn view(&self) -> JsonRep {
        rep_of(*self)
    }
}

/// The first value bound to `key` among `entries`, looking from entry `i` on.
pub open spec fn rep_lookup_from(
    entries: Seq<(Seq<char>, JsonRep)>,
    key: Seq<char>,
    i: int,
) -> Option<JsonRep>
    decreases entries.len() - i,
{
    if i < 0 || i >= entries.len() {
        None
    } else if entries[i].0 == key {
        Some(entries[i].1)
    } else {
        rep_lookup_from(entries, key, i + 1)
    }
}

/// The first value bound to `key` among `entries`.
pub open spec fn rep_lookup(entries: Seq<(Seq<char>, JsonRep)>, key: Seq<char>) -> Option<
    JsonRep,
> {
    rep_lookup_from(entries, key, 0)
}

/// The field named `key` of an object node, if the node is an object and has
/// the field.
pub open spec fn rep_field(rep: JsonRep, key: Seq<char>) -> Option<JsonRep> {
    match rep {
        JsonRep::Obj(entries) => rep_lookup(entries, key),
        _ => None,
    }
}

/// String equality, stated over the character sequences.
pub fn str_eq(a: &str, b: &str) -> (r: bool)
    ensures
        r == (a@ == b@),
{
    let oa: String = a.to_owned();
    let ob: String = b.to_owned();
    oa.eq(&ob)
}

/// Looks a key up in an object's entry list: the first binding wins.
pub fn entries_lookup<'a>(entries: &'a Vec<(String, JsonNode)>, key: &str) -> (r: Option<
    &'a JsonNode,
>)
    ensures
        match r {
            Some(n) => rep_lookup(entries_rep(entries@), key@) == Some(rep_of(*n)),
            None => rep_lookup(entries_rep(entries@), key@) is None,
        },
{
    let n = entries.len();
    let mut i: usize = 0;
    while i < n
        invariant
            n == entries@.len(),
            i <= n,
            rep_lookup(entries_rep(entries@), key@) == rep_lookup_from(
                entries_rep(entries@),
                key@,
                i as int,
            ),
        decreases n - i,
    {
        if str_eq(entries[i].0.as_str(), key) {
            return Some(&entries[i].1);
        }
        i = i + 1;
    }
    None
}

/// Looks a field up on a node: `None` unless the node is an object with the
/// field.
pub fn node_field<'a>(node: &'a JsonNode, key: &str) -> (r: Option<&'a JsonNode>)
    ensures
        match r {
            Some(n) => rep_field(node@, key@) == Some(rep_of(*n)),
            None => rep_field(node@, key@) is None,
        },
{
    match node {
        JsonNode::Obj(entries) => entries_lookup(entries, key),
        _ => None,
    }
}

#[verifier::external_type_specification]
#[verifier::external_body]
pub struct ExValue(serde_json::Value);

/// The document held by a `serde_json::Value`, with a number read as its
/// decimal text.
pub uninterp spec fn value_doc_of(v: serde_json::Value) -> JsonRep;

/// What `serde_json::from_str::<serde_json::Value>` yields on a text: the
/// document it parses, or `None` where the text is not well-formed JSON.
pub uninterp spec fn json_doc_of(s: Seq<char>) -> Option<JsonRep>;

/// The document that serde_json's value constructors build for a wanted
/// document: object entries come out of its map sorted by key, a repeated key
/// keeps the last binding, and a number that cannot be read back from its
/// text becomes null.
pub uninterp spec fn built_doc_of(rep: JsonRep) -> JsonRep;

/// The text that `serde_json::Value::to_string` writes for a value holding a
/// given document.
pub uninterp spec fn text_of_doc(rep: JsonRep) -> Seq<char>;

/// Relies on serde_json::from_str::<serde_json::Value>: parses a JSON text
/// into a value, failing exactly on malformed JSON.
#[verifier::external_body]
fn parse_json_value(text: &str) -> (r: Option<serde_json::Value>)
    ensures
        match r {
            Some(v) => json_doc_of(text@) == Some(value_doc_of(v)),
            None => json_doc_of(text@) is None,
        },
{
    serde_json::from_str::<serde_json::Value>(text).ok()
}

/// Relies on serde_json::Value's public variants: reads a value into the
/// library's own type, arm for arm; a number becomes its decimal text.
#[verifier::external_body]
fn node_of_value(v: &serde_json::Value) -> (r: JsonNode)
    ensures
        rep_of(r) == value_doc_of(*v),
{
    match v {
        serde_json::Value::Null => JsonNode::Null,
        serde_json::Value::Bool(b) => JsonNode::Bool(*b),
        serde_json::Value::Number(x) => JsonNode::Num(x.to_string()),
        serde_json::Value::String(s) => JsonNode::Str(s.clone()),
        serde_json::Value::Array(a) => JsonNode::Arr(a.iter().map(node_of_value).collect()),
        serde_json::Value::Object(m) => JsonNode::Obj(
            m.iter().map(|(k, x)| (k.clone(), node_of_value(x))).collect(),
        ),
    }
}

/// Relies on serde_json::Value's public variants, Map's FromIterator and
/// Number's FromStr: builds a value holding the node's document, arm for arm.
#[verifier::external_body]
fn value_of_node(n: &JsonNode) -> (r: serde_json::Value)
    ensures
        value_doc_of(r) == built_doc_of(rep_of(*n)),
{
    match n {
        JsonNode::Null => serde_json::Value::Null,
        JsonNode::Bool(b) => serde_json::Value::Bool(*b),
        JsonNode::Num(s) => s.parse().map_or(serde_json::Value::Null, serde_json::Value::Number),
        JsonNode::Str(s) => serde_json::Value::String(s.clone()),
        JsonNode::Arr(items) => serde_json::Value::Array(items.iter().map(value_of_node).collect()),
        JsonNode::Obj(entries) => serde_json::Value::Object(
            entries.iter().map(|(k, x)| (k.clone(), value_of_node(x))).collect(),
        ),
    }
}

/// Relies on serde_json::Value::to_string: writes the value as compact JSON
/// text, a function of the document the value holds.
#[verifier::external_body]
fn value_to_text(v: &serde_json::Value) -> (r: String)
    ensures
        r@ == text_of_doc(value_doc_of(*v)),
{
    v.to_string()
}

/// Parses a JSON text into a node of the library's own type, failing exactly
/// on malformed JSON.
pub fn parse_json(text: &str) -> (r: Option<JsonNode>)
    ensures
        match r {
            Some(n) => json_doc_of(text@) == Some(n@),
            None => json_doc_of(text@) is None,
        },
{
    match parse_json_value(text) {
        Some(v) => Some(node_of_value(&v)),
        None => None,
    }
}

/// Writes a node as compact JSON text.
pub fn node_to_json(n: &JsonNode) -> (r: String)
    ensures
        r@ == text_of_doc(built_doc_of(n@)),
{
    let v = value_of_node(n);
    value_to_text(&v)
}

} // verus!
