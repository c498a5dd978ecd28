//! The payload adapter: conversion between `serde_json::Value`, the external
//! dynamic representation, and the library's `StructuredValue`.
use vstd::prelude::*;

use crate::value::{keys_distinct, Json, StructuredValue};

verus! {

/// serde_json's number, carried through unread.
#[verifier::external_type_specification]
#[verifier::external_body]
pub struct ExNumber(serde_json::Number);

/// serde_json's dynamic value, seen through `json_of`.
#[verifier::external_type_specification]
#[verifier::external_body]
pub struct ExValue(serde_json::Value);

/// The tree that a `serde_json::Value` holds, with each object's entries in
/// the order in which its map yields them.
pub uninterp spec fn json_of(v: serde_json::Value) -> Json;

/// The failure of the payload adapter, with a human-readable cause.
#[derive(Debug, PartialEq, Eq)]
pub struct ConversionError {
    pub cause: String,
}

/// One level of a `serde_json::Value`, its children left as they are.
enum Node {
    Null,
    Bool(bool),
    Number(serde_json::Number),
    String(String),
    Array(Vec<serde_json::Value>),
    Object(Vec<(String, serde_json::Value)>),
}

spec fn node_json(n: Node) -> Json {
    match n {
        Node::Null => Json::Null,
        Node::Bool(b) => Json::Bool(b),
        Node::Number(x) => Json::Number(x),
        Node::String(s) => Json::Str(s@),
        Node::Array(items) => Json::Array(items@.map_values(|c: serde_json::Value| json_of(c))),
        Node::Object(entries) => Json::Object(
            entries@.map_values(|e: (String, serde_json::Value)| (e.0@, json_of(e.1))),
        ),
    }
}

/// Relies on the variants of `serde_json::Value` and on
/// `serde_json::Map::into_iter`, which yields each key once, in the map's
/// order (insertion order, as the `preserve_order` feature keeps it).
#[verifier::external_body]
fn into_node(v: serde_json::Value) -> (r: Node)
    ensures
        node_json(r) == json_of(v),
        r is Object ==> keys_distinct(node_json(r)->Object_0),
{
    match v {
        serde_json::Value::Null => Node::Null,
        serde_json::Value::Bool(b) => Node::Bool(b),
        serde_json::Value::Number(n) => Node::Number(n),
        serde_json::Value::String(s) => Node::String(s),
        serde_json::Value::Array(a) => Node::Array(a),
        serde_json::Value::Object(m) => Node::Object(m.into_iter().collect()),
    }
}

/// Relies on the variants of `serde_json::Value` and on
/// `serde_json::Map`'s `FromIterator`, which, with the `preserve_order`
/// feature, keeps entries with distinct keys in the order given.
#[verifier::external_body]
fn from_node(n: Node) -> (r: serde_json::Value)
    requires
        n is Object ==> keys_distinct(node_json(n)->Object_0),
    ensures
        json_of(r) == node_json(n),
{
    match n {
        Node::Null => serde_json::Value::Null,
        Node::Bool(b) => serde_json::Value::Bool(b),
        Node::Number(x) => serde_json::Value::Number(x),
        Node::String(s) => serde_json::Value::String(s),
        Node::Array(a) => serde_json::Value::Array(a),
        Node::Object(e) => serde_json::Value::Object(e.into_iter().collect()),
    }
}

/// The elements of `v` in reverse order, so that popping yields them first to last.
fn reversed<T>(v: Vec<T>) -> (r: Vec<T>)
    ensures
        r@.len() == v@.len(),
        forall|i: int| 0 <= i < r@.len() ==> r@[i] == v@[r@.len() - 1 - i],
{
    let ghost orig = v@;
    let mut v = v;
    let mut r: Vec<T> = Vec::new();
    while v.len() > 0
        invariant
            v@.len() + r@.len() == orig.len(),
            v@ == orig.subrange(0, v@.len() as int),
            forall|i: int| 0 <= i < r@.len() ==> r@[i] == orig[orig.len() - 1 - i],
        decreases v.len(),
    {
        let x = v.pop().unwrap();
        r.push(x);
    }
    r
}

/// Converts a `serde_json::Value` into a structured value of the same shape.
/// Every such value is representable, so the conversion cannot fail; its
/// result has distinct keys in every object.
pub fn decode(v: serde_json::Value) -> (r: StructuredValue)
    ensures
        r@ == json_of(v),
        r@.wf(),
    decreases json_of(v),
{
    let ghost whole = json_of(v);
    match into_node(v) {
        Node::Null => StructuredValue::Null,
        Node::Bool(b) => StructuredValue::Bool(b),
        Node::Number(n) => StructuredValue::Number(n),
        Node::String(s) => StructuredValue::String(s),
        Node::Array(items) => {
            let ghost orig = items@;
            let ghost kids = whole->Array_0;
            let mut rest = reversed(items);
            let mut out: Vec<StructuredValue> = Vec::new();
            while rest.len() > 0
                invariant
                    out@.len() + rest@.len() == orig.len(),
                    kids == orig.map_values(|c: serde_json::Value| json_of(c)),
                    whole == json_of(v),
                    whole == Json::Array(kids),
                    forall|i: int| 0 <= i < rest@.len() ==> rest@[i] == orig[orig.len() - 1 - i],
                    forall|i: int|
                        0 <= i < out@.len() ==> (#[trigger] out@[i])@ == kids[i] && out@[i]@.wf(),
                decreases rest@.len(),
            {
                let c = rest.pop().unwrap();
                proof {
                    let k = out@.len() as int;
                    assert(kids[k] == json_of(c));
                    assert(decreases_to!(whole => whole->Array_0));
                    assert(decreases_to!(kids => kids[k]));
                    assert(decreases_to!(whole => json_of(c)));
                }
                let d = decode(c);
                out.push(d);
            }
            let r = StructuredValue::Array(out);
            assert(r@->Array_0 =~= kids);
            r
        },
        Node::Object(entries) => {
            let ghost orig = entries@;
            let ghost kids = whole->Object_0;
            let mut rest = reversed(entries);
            let mut out: Vec<(String, StructuredValue)> = Vec::new();
            while rest.len() > 0
                invariant
                    out@.len() + rest@.len() == orig.len(),
                    kids == orig.map_values(
                        |e: (String, serde_json::Value)| (e.0@, json_of(e.1)),
                    ),
                    whole == json_of(v),
                    whole == Json::Object(kids),
                    keys_distinct(kids),
                    forall|i: int| 0 <= i < rest@.len() ==> rest@[i] == orig[orig.len() - 1 - i],
                    forall|i: int|
                        0 <= i < out@.len() ==> (#[trigger] out@[i]).0@ == kids[i].0
                            && out@[i].1@ == kids[i].1 && out@[i].1@.wf(),
                decreases rest@.len(),
            {
                let (key, c) = rest.pop().unwrap();
                proof {
                    let k = out@.len() as int;
                    assert(kids[k] == (key@, json_of(c)));
                    assert(decreases_to!(whole => whole->Object_0));
                    assert(decreases_to!(kids => kids[k]));
                    assert(decreases_to!(kids[k] => kids[k].1));
                    assert(decreases_to!(whole => json_of(c)));
                }
                let d = decode(c);
                out.push((key, d));
            }
            let r = StructuredValue::Object(out);
            assert(r@->Object_0 =~= kids);
            r
        },
    }
}

/// The position of the first entry whose key an earlier entry already has.
fn repeated_key(entries: &Vec<(String, StructuredValue)>) -> (r: Option<usize>)
    ensures
        r is None <==> forall|a: int, b: int|
            0 <= a < b < entries@.len() ==> #[trigger] entries@[a].0@ != #[trigger] entries@[b].0@,
        r matches Some(b) ==> b < entries@.len(),
{
    let n = entries.len();
    let mut b: usize = 0;
    while b < n
        invariant
            n == entries@.len(),
            b <= n,
            forall|x: int, y: int|
                0 <= x < y < b ==> #[trigger] entries@[x].0@ != #[trigger] entries@[y].0@,
        decreases n - b,
    {
        let mut a: usize = 0;
        while a < b
            invariant
                n == entries@.len(),
                a <= b < n,
                forall|x: int| 0 <= x < a ==> #[trigger] entries@[x].0@ != entries@[b as int].0@,
            decreases b - a,
        {
            if entries[a].0 == entries[b].0 {
                return Some(b);
            }
            a = a + 1;
        }
        b = b + 1;
    }
    None
}

/// Converts a structured value into a `serde_json::Value` of the same shape.
/// Fails exactly when some object of the value repeats a key, which a
/// `serde_json::Map` cannot hold.
pub fn encode(v: StructuredValue) -> (r: Result<serde_json::Value, ConversionError>)
    ensures
        r is Ok <==> v@.wf(),
        r matches Ok(j) ==> json_of(j) == v@,
    decreases v,
{
    let ghost whole = v@;
    match v {
        StructuredValue::Null => Ok(from_node(Node::Null)),
        StructuredValue::Bool(b) => Ok(from_node(Node::Bool(b))),
        StructuredValue::Number(n) => Ok(from_node(Node::Number(n))),
        StructuredValue::String(s) => Ok(from_node(Node::String(s))),
        StructuredValue::Array(items) => {
            let ghost orig = items;
            let mut rest = reversed(items);
            let mut out: Vec<serde_json::Value> = Vec::new();
            while rest.len() > 0
                invariant
                    out@.len() + rest@.len() == orig@.len(),
                    v == StructuredValue::Array(orig),
                    whole == v@,
                    forall|i: int| 0 <= i < rest@.len() ==> rest@[i] == orig@[orig@.len() - 1 - i],
                    forall|i: int|
                        0 <= i < out@.len() ==> json_of(#[trigger] out@[i]) == whole->Array_0[i]
                            && whole->Array_0[i].wf(),
                decreases rest@.len(),
            {
                let c = rest.pop().unwrap();
                let ghost k = out@.len() as int;
                proof {
                    assert(decreases_to!(v => orig));
                    assert(decreases_to!(orig => orig[k]));
                }
                match encode(c) {
                    Ok(j) => out.push(j),
                    Err(e) => {
                        assert(whole->Array_0[k] == c@);
                        return Err(e);
                    },
                }
            }
            assert(whole->Array_0 =~= out@.map_values(|c: serde_json::Value| json_of(c)));
            Ok(from_node(Node::Array(out)))
        },
        StructuredValue::Object(entries) => {
            if let Some(b) = repeated_key(&entries) {
                proof {
                    let (x, y) = choose|x: int, y: int|
                        0 <= x < y < entries@.len() && entries@[x].0@ == entries@[y].0@;
                    assert(whole->Object_0[x].0 == whole->Object_0[y].0);
                }
                let cause = "duplicate key in object: ".to_owned().concat(entries[b].0.as_str());
                return Err(ConversionError { cause });
            }
            let ghost orig = entries;
            assert(keys_distinct(whole->Object_0));
            let mut rest = reversed(entries);
            let mut out: Vec<(String, serde_json::Value)> = Vec::new();
            while rest.len() > 0
                invariant
                    out@.len() + rest@.len() == orig@.len(),
                    v == StructuredValue::Object(orig),
                    whole == v@,
                    keys_distinct(whole->Object_0),
                    forall|i: int| 0 <= i < rest@.len() ==> rest@[i] == orig@[orig@.len() - 1 - i],
                    forall|i: int|
                        0 <= i < out@.len() ==> (#[trigger] out@[i]).0@ == whole->Object_0[i].0
                            && json_of(out@[i].1) == whole->Object_0[i].1
                            && whole->Object_0[i].1.wf(),
                decreases rest@.len(),
            {
                let (key, c) = rest.pop().unwrap();
                let ghost k = out@.len() as int;
                proof {
                    assert(decreases_to!(v => orig));
                    assert(decreases_to!(orig => orig[k]));
                    assert(decreases_to!(orig[k] => orig[k].1));
                }
                match encode(c) {
                    Ok(j) => out.push((key, j)),
                    Err(e) => {
                        assert(whole->Object_0[k].1 == c@);
                        return Err(e);
                    },
                }
            }
            assert(whole->Object_0 =~= out@.map_values(
                |e: (String, serde_json::Value)| (e.0@, json_of(e.1)),
            ));
            Ok(from_node(Node::Object(out)))
        },
    }
}

/// Decoding what `encode` produced gives back the value that was encoded:
/// for `v` whose objects repeat no key, `encode(v)` yields `j` with
/// `json_of(j) == v@`, and `decode(j)` yields `w` with `w@ == json_of(j)`.
pub proof fn lemma_round_trip(v: StructuredValue, j: serde_json::Value, w: StructuredValue)
    requires
        v@.wf(),
        json_of(j) == v@,
        w@ == json_of(j),
    ensures
        w@ == v@,
{
}

} // verus!
