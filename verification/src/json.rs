//! Small JSON objects.

use vstd::prelude::*;
use vstd::string::*;

use crate::model::{Fault, FaultKind, Text};

verus! {

/// A value of a field.
#[derive(Debug)]
pub enum Json {
    Number(u64),
    Text(String),
    Flag(bool),
    Pairs(Vec<(u64, u64)>),
}

/// What a value holds.
pub enum JsonView {
    Number(u64),
    Text(Seq<char>),
    Flag(bool),
    Pairs(Seq<(u64, u64)>),
}

impl View for Json {
    type V = JsonView;

    open spec fn view(&self) -> JsonView {
        match self {
            Json::Number(n) => JsonView::Number(*n),
            Json::Text(text) => JsonView::Text(text@),
            Json::Flag(flag) => JsonView::Flag(*flag),
            Json::Pairs(pairs) => JsonView::Pairs(pairs@),
        }
    }
}

/// What the fields of an object hold.
pub open spec fn fields_view(fields: Seq<(&'static str, Json)>) -> Seq<(Seq<char>, JsonView)> {
    Seq::new(fields.len(), |i: int| (fields[i].0@, fields[i].1@))
}

/// The bytes that an object with these fields is written as.
pub uninterp spec fn json_bytes(fields: Seq<(Seq<char>, JsonView)>) -> Seq<u8>;

/// Writes an object with the given fields: `serde_json::to_vec` on a
/// `serde_json::Map`. What it writes depends on the fields alone, and it never fails:
/// the keys are texts, and neither the values nor a vector that is written to refuse.
#[verifier::external_body]
fn to_vec(fields: &Vec<(&'static str, Json)>) -> (r: Result<Vec<u8>, String>)
    ensures
        r is Ok && r->Ok_0@ == json_bytes(fields_view(fields@)),
{
    let mut map = serde_json::Map::new();
    for (name, value) in fields {
        let value: serde_json::Value = match value {
            Json::Number(n) => (*n).into(),
            Json::Text(text) => text.as_str().into(),
            Json::Flag(flag) => (*flag).into(),
            Json::Pairs(pairs) => pairs.iter().map(|pair| vec![pair.0, pair.1]).collect(),
        };
        map.insert(name.to_string(), value);
    }
    serde_json::to_vec(&map).map_err(|error| error.to_string())
}

/// Writes an object with the given fields.
pub fn object(fields: &Vec<(&'static str, Json)>) -> (r: Result<Vec<u8>, Fault>)
    ensures
        r matches Ok(bytes) && bytes@ == json_bytes(fields_view(fields@)),
{
    match to_vec(fields) {
        Ok(bytes) => Ok(bytes),
        Err(text) => Err(Fault { kind: FaultKind::Other, os_code: None, text: Text::Given(text) }),
    }
}

} // verus!
