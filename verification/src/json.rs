//! The library's model of a JSON document, the one trusted call that parses
//! JSON text into it, and the verified decode of the upstream response shape.
//!
//! Decoding policy: the fields the pages consume must be present with the
//! expected types or the whole decode fails; every other field is ignored.

use vstd::prelude::*;
use crate::github::{Item, ItemView, Root, RootView};

verus! {

/// A JSON document as plain values. Object fields carry their keys in order;
/// a number that is not an integer in range is kept only as [`JVal::NumOther`]
/// (no field the decode consumes may be one).
pub enum JVal {
    Null,
    Bool(bool),
    Int(i64),
    NumOther,
    Str(String),
    Arr(Vec<JVal>),
    Obj(Vec<(String, JVal)>),
}

/// What parsing a given JSON text yields: the document on success, the parser's
/// diagnostic text on failure. Parsing is a function of the text alone.
pub uninterp spec fn json_doc(s: Seq<char>) -> Result<JVal, Seq<char>>;

/// Relies on `serde_json::from_str::<serde_json::Value>`: parses JSON text
/// into a document tree, or reports why it is not valid JSON. The result
/// depends on the text alone; [`jval_from_serde`] converts it to [`JVal`].
#[verifier::external_body]
fn parse_json(s: &str) -> (r: Result<JVal, String>)
    ensures
        match r {
            Ok(v) => json_doc(s@) == Result::<JVal, Seq<char>>::Ok(v),
            Err(e) => json_doc(s@) == Result::<JVal, Seq<char>>::Err(e@),
        },
{
    match serde_json::from_str::<serde_json::Value>(s) {
        Ok(v) => Ok(jval_from_serde(v)),
        Err(e) => Err(e.to_string()),
    }
}

/// Declaration of the parser's document type, so that the converter below can
/// take it; the library never looks inside a value of it.
#[verifier::external_type_specification]
#[verifier::external_body]
pub struct ExValue(serde_json::Value);

/// Relies on `serde_json::Value` and `serde_json::Number::as_i64`: converts
/// the parser's tree into [`JVal`], variant for variant, keys and order kept.
#[verifier::external_body]
fn jval_from_serde(v: serde_json::Value) -> JVal {
    match v {
        serde_json::Value::Null => JVal::Null,
        serde_json::Value::Bool(b) => JVal::Bool(b),
        serde_json::Value::Number(n) => match n.as_i64() {
            Some(i) => JVal::Int(i),
            None => JVal::NumOther,
        },
        serde_json::Value::String(s) => JVal::Str(s),
        serde_json::Value::Array(a) => JVal::Arr(a.into_iter().map(jval_from_serde).collect()),
        serde_json::Value::Object(m) => JVal::Obj(
            m.into_iter().map(|(k, w)| (k, jval_from_serde(w))).collect(),
        ),
    }
}

/// The first field of `fields` named `key`, if any.
pub open spec fn spec_lookup(fields: Seq<(String, JVal)>, key: Seq<char>) -> Option<JVal>
    decreases fields.len(),
{
    if fields.len() == 0 {
        None
    } else if fields[0].0@ == key {
        Some(fields[0].1)
    } else {
        spec_lookup(fields.drop_first(), key)
    }
}

/// How one entry of the upstream reply decodes: an object whose `id` is an
/// integer and whose `title` and `html_url` are strings; `html_url` becomes
/// the entry's canonical link. Anything else fails.
pub open spec fn spec_decode_item(v: JVal) -> Option<ItemView> {
    match v {
        JVal::Obj(fields) => match spec_lookup(fields@, "id"@) {
            Some(JVal::Int(id)) => match spec_lookup(fields@, "title"@) {
                Some(JVal::Str(title)) => match spec_lookup(fields@, "html_url"@) {
                    Some(JVal::Str(url)) => Some(
                        ItemView { id: id as int, title: title@, url: url@ },
                    ),
                    _ => None,
                },
                _ => None,
            },
            _ => None,
        },
        _ => None,
    }
}

/// How a sequence of entries decodes: every element must decode, in order;
/// one failure fails the whole sequence (no partial recovery).
pub open spec fn spec_decode_items(elems: Seq<JVal>) -> Option<Seq<ItemView>>
    decreases elems.len(),
{
    if elems.len() == 0 {
        Some(Seq::empty())
    } else {
        match (spec_decode_items(elems.drop_last()), spec_decode_item(elems.last())) {
            (Some(rest), Some(iv)) => Some(rest.push(iv)),
            _ => None,
        }
    }
}

/// How a whole upstream reply decodes: an object whose `total_count` is an
/// integer and whose `items` is an array of decodable entries. Every other
/// field is ignored.
pub open spec fn spec_decode_root(v: JVal) -> Option<RootView> {
    match v {
        JVal::Obj(fields) => match spec_lookup(fields@, "total_count"@) {
            Some(JVal::Int(tc)) => match spec_lookup(fields@, "items"@) {
                Some(JVal::Arr(elems)) => match spec_decode_items(elems@) {
                    Some(ivs) => Some(RootView { total_count: tc as int, items: ivs }),
                    None => None,
                },
                _ => None,
            },
            _ => None,
        },
        _ => None,
    }
}

fn lookup_field<'a>(fields: &'a Vec<(String, JVal)>, key: &String) -> (r: Option<&'a JVal>)
    ensures
        match r {
            Some(jv) => spec_lookup(fields@, key@) == Some(*jv),
            None => spec_lookup(fields@, key@) is None,
        },
{
    let n = fields.len();
    let mut i: usize = 0;
    proof {
        assert(fields@.skip(0) =~= fields@);
    }
    while i < n
        invariant
            i <= n,
            n == fields@.len(),
            spec_lookup(fields@, key@) == spec_lookup(fields@.skip(i as int), key@),
        decreases n - i,
    {
        let pair = &fields[i];
        if pair.0 == *key {
            proof {
                assert(fields@.skip(i as int)[0] == fields@[i as int]);
            }
            return Some(&pair.1);
        }
        proof {
            assert(fields@.skip(i as int)[0] == fields@[i as int]);
            assert(fields@.skip(i as int).drop_first() =~= fields@.skip(i + 1 as int));
        }
        i = i + 1;
    }
    proof {
        assert(fields@.skip(i as int) =~= Seq::<(String, JVal)>::empty());
    }
    None
}

fn decode_item(v: &JVal) -> (r: Option<Item>)
    ensures
        match r {
            Some(it) => spec_decode_item(*v) == Some(it@),
            None => spec_decode_item(*v) is None,
        },
{
    match v {
        JVal::Obj(fields) => {
            let id_field = lookup_field(fields, &String::from_str("id"));
            let title_field = lookup_field(fields, &String::from_str("title"));
            let url_field = lookup_field(fields, &String::from_str("html_url"));
            match (id_field, title_field, url_field) {
                (Some(JVal::Int(id)), Some(JVal::Str(title)), Some(JVal::Str(url))) => Some(
                    Item { id: *id, title: title.clone(), url: url.clone() },
                ),
                _ => None,
            }
        },
        _ => None,
    }
}

proof fn lemma_decode_items_none(elems: Seq<JVal>, j: int)
    requires
        0 <= j <= elems.len(),
        spec_decode_items(elems.take(j)) is None,
    ensures
        spec_decode_items(elems) is None,
    decreases elems.len() - j,
{
    if j < elems.len() {
        assert(elems.take(j + 1).drop_last() =~= elems.take(j));
        lemma_decode_items_none(elems, j + 1);
    } else {
        assert(elems.take(j) =~= elems);
    }
}

/// Decodes a parsed document against the expected reply shape, exactly
/// [`spec_decode_root`]: `Some` with the model if and only if the shape
/// matches.
pub fn decode_root(v: &JVal) -> (r: Option<Root>)
    ensures
        match r {
            Some(root) => spec_decode_root(*v) == Some(root@),
            None => spec_decode_root(*v) is None,
        },
{
    match v {
        JVal::Obj(fields) => {
            let tc_field = lookup_field(fields, &String::from_str("total_count"));
            let items_field = lookup_field(fields, &String::from_str("items"));
            match (tc_field, items_field) {
                (Some(JVal::Int(tc)), Some(JVal::Arr(elems))) => {
                    let n = elems.len();
                    let mut out: Vec<Item> = Vec::new();
                    let mut i: usize = 0;
                    while i < n
                        invariant
                            i <= n,
                            n == elems@.len(),
                            *v == JVal::Obj(*fields),
                            spec_lookup(fields@, "total_count"@) == Some(JVal::Int(*tc)),
                            spec_lookup(fields@, "items"@) == Some(JVal::Arr(*elems)),
                            spec_decode_items(elems@.take(i as int)) == Some(
                                out@.map_values(|it: Item| it@),
                            ),
                        decreases n - i,
                    {
                        proof {
                            assert(elems@.take(i + 1 as int).drop_last() =~= elems@.take(i as int));
                            assert(elems@.take(i + 1 as int).last() == elems@[i as int]);
                        }
                        match decode_item(&elems[i]) {
                            None => {
                                proof {
                                    lemma_decode_items_none(elems@, i + 1 as int);
                                }
                                return None;
                            },
                            Some(it) => {
                                let ghost prev = out@;
                                out.push(it);
                                proof {
                                    assert(out@.map_values(|x: Item| x@) =~= prev.map_values(
                                        |x: Item| x@,
                                    ).push(it@));
                                }
                            },
                        }
                        i = i + 1;
                    }
                    proof {
                        assert(elems@.take(n as int) =~= elems@);
                    }
                    Some(Root { total_count: *tc, items: out })
                },
                _ => None,
            }
        },
        _ => None,
    }
}

/// Parses JSON text and decodes it against the reply shape. `Err` carries the
/// parser's diagnostic when the text is not JSON, and `None` inside `Ok` is a
/// shape mismatch of valid JSON.
pub fn decode_reply(body: &str) -> (r: Result<Option<Root>, String>)
    ensures
        match r {
            Ok(Some(root)) => json_doc(body@) matches Ok(v) && spec_decode_root(v) == Some(root@),
            Ok(None) => json_doc(body@) matches Ok(v) && spec_decode_root(v) is None,
            Err(e) => json_doc(body@) matches Err(m) && m == e@,
        },
{
    match parse_json(body) {
        Ok(v) => Ok(decode_root(&v)),
        Err(e) => Err(e),
    }
}

} // verus!
