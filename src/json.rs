//! JSON documents as plain values, and the redaction of secrets in them.

use vstd::prelude::*;
use crate::redact::{is_secret_key, lemma_empty_key_not_secret, marker, should_redact_key};

verus! {

#[verifier::external_type_specification]
#[verifier::external_body]
pub struct ExNumber(serde_json::Number);

#[verifier::external_type_specification]
#[verifier::external_body]
pub struct ExValue(serde_json::Value);

/// A JSON document. Object members come in the order in which serde_json
/// holds them: sorted by key, a repeated key keeping its last value.
pub enum JsonValue {
    Null,
    Bool(bool),
    Number(serde_json::Number),
    String(String),
    Array(Vec<JsonValue>),
    /// Members as parallel lists of keys and values.
    Object { keys: Vec<String>, values: Vec<JsonValue> },
}

/// The characters of each key.
pub open spec fn key_views(keys: Seq<String>) -> Seq<Seq<char>> {
    keys.map_values(|k: String| k@)
}

/// The mathematical value of a JSON document.
pub enum JsonModel {
    Null,
    Bool(bool),
    Number(serde_json::Number),
    Str(Seq<char>),
    Array(Seq<JsonModel>),
    /// Member keys and member values, position by position.
    Object { keys: Seq<Seq<char>>, values: Seq<JsonModel> },
}

impl View for JsonValue {
    type V = JsonModel;

    open spec fn view(&self) -> JsonModel
        decreases self,
    {
        match self {
            JsonValue::Null => JsonModel::Null,
            JsonValue::Bool(b) => JsonModel::Bool(*b),
            JsonValue::Number(n) => JsonModel::Number(*n),
            JsonValue::String(s) => JsonModel::Str(s@),
            JsonValue::Array(items) => JsonModel::Array(
                Seq::new(
                    items.len() as nat,
                    |i: int|
                        if 0 <= i < items.len() {
                            items[i].view()
                        } else {
                            JsonModel::Null
                        },
                ),
            ),
            JsonValue::Object { keys, values } => JsonModel::Object {
                keys: key_views(keys@),
                values: Seq::new(
                    values.len() as nat,
                    |i: int|
                        if 0 <= i < values.len() {
                            values[i].view()
                        } else {
                            JsonModel::Null
                        },
                ),
            },
        }
    }
}


/// The key at position `i`, or the empty key past the end of `keys`.
pub open spec fn key_at(keys: Seq<Seq<char>>, i: int) -> Seq<char> {
    if 0 <= i < keys.len() {
        keys[i]
    } else {
        Seq::empty()
    }
}

/// What an object member's value becomes under redaction.
pub open spec fn member_redaction(key: Seq<char>, value: JsonModel) -> JsonModel
    decreases value, 1nat,
{
    if is_secret_key(key) {
        JsonModel::Str(marker())
    } else {
        redaction(value)
    }
}

/// `m` with the value of every object member whose key names a secret
/// replaced by the marker, at any depth; everything else as it was.
pub open spec fn redaction(m: JsonModel) -> JsonModel
    decreases m, 0nat,
{
    match m {
        JsonModel::Array(items) => JsonModel::Array(
            Seq::new(
                items.len(),
                |i: int|
                    if 0 <= i < items.len() {
                        redaction(items[i])
                    } else {
                        JsonModel::Null
                    },
            ),
        ),
        JsonModel::Object { keys, values } => JsonModel::Object {
            keys,
            values: Seq::new(
                values.len(),
                |i: int|
                    if 0 <= i < values.len() {
                        member_redaction(key_at(keys, i), values[i])
                    } else {
                        JsonModel::Null
                    },
            ),
        },
        _ => m,
    }
}

/// Redacts the secrets of a JSON document.
pub fn redact_json_value(value: JsonValue) -> (r: JsonValue)
    ensures
        r@ == redaction(value@),
    decreases value,
{
    let ghost whole = value;
    match value {
        JsonValue::Array(items) => {
            let ghost src = items@;
            let ghost vec_items = items;
            let mut out: Vec<JsonValue> = Vec::new();
            for item in it: items.into_iter()
                invariant
                    it.seq() == src,
                    src == vec_items@,
                    whole == JsonValue::Array(vec_items),
                    whole == value,
                    out.len() == it.index(),
                    forall|j: int| 0 <= j < out.len() ==> #[trigger] out@[j]@ == redaction(src[j]@),
            {
                assert(it.seq()[it.index() as int] == item);
                proof {
                    assert(it.index() < src.len());
                    assert(whole == JsonValue::Array(vec_items));
                    assert(decreases_to!(whole => whole->Array_0));
                    vstd::std_specs::vec::axiom_vec_index_decreases(vec_items, it.index() as int);
                    assert(decreases_to!(whole => item));
                }
                let red = redact_json_value(item);
                out.push(red);
            }
            assert(out.len() == src.len());
            let r = JsonValue::Array(out);
            assert(r@ == redaction(whole@)) by {
                assert forall|j: int| 0 <= j < out.len() implies #[trigger] out[j]@ == redaction(
                    vec_items[j]@,
                ) by {
                    assert(out@[j]@ == redaction(src[j]@));
                }
                let rs = r@->Array_0;
                let ws = redaction(whole@)->Array_0;
                let vs = whole@->Array_0;
                assert(rs.len() == out.len());
                assert(vs.len() == src.len());
                assert(ws.len() == vs.len());
                assert forall|j: int| 0 <= j < rs.len() implies rs[j] == ws[j] by {
                    assert(rs[j] == out[j]@);
                    assert(vs[j] == vec_items[j]@);
                    assert(ws[j] == redaction(vs[j]));
                }
                assert(rs =~= ws);
            }
            r
        },
        JsonValue::Object { keys, values } => {
            let ghost src = values@;
            let ghost vec_values = values;
            let mut out: Vec<JsonValue> = Vec::new();
            let mut idx: usize = 0;
            let n = values.len();
            for item in it: values.into_iter()
                invariant
                    it.seq() == src,
                    src == vec_values@,
                    whole == (JsonValue::Object { keys, values: vec_values }),
                    whole == value,
                    idx == it.index(),
                    n == src.len(),
                    out.len() == it.index(),
                    forall|j: int|
                        0 <= j < out.len() ==> #[trigger] out@[j]@ == member_redaction(
                            key_at(key_views(keys@), j),
                            src[j]@,
                        ),
            {
                assert(it.seq()[it.index() as int] == item);
                proof {
                    assert(it.index() < src.len());
                    assert(decreases_to!(whole => whole->values));
                    vstd::std_specs::vec::axiom_vec_index_decreases(vec_values, it.index() as int);
                    assert(decreases_to!(whole => item));
                }
                assert(key_at(key_views(keys@), idx as int) == if idx < keys.len() {
                    keys@[idx as int]@
                } else {
                    Seq::<char>::empty()
                });
                let ghost key = key_at(key_views(keys@), idx as int);
                if idx < keys.len() && should_redact_key(keys[idx].as_str()) {
                    let nv = JsonValue::String(String::from_str("<redacted>"));
                    assert(nv@ == JsonModel::Str(marker()));
                    assert(member_redaction(key, src[idx as int]@) == JsonModel::Str(marker()));
                    out.push(nv);
                } else {
                    let red = redact_json_value(item);
                    proof {
                        lemma_empty_key_not_secret();
                    }
                    assert(member_redaction(key, src[idx as int]@) == redaction(src[idx as int]@));
                    out.push(red);
                }
                assert(out@[idx as int]@ == member_redaction(key, src[idx as int]@));
                idx += 1;
            }
            assert(out.len() == src.len());
            let ghost ks = keys;
            let r = JsonValue::Object { keys, values: out };
            assert(r@ == redaction(whole@)) by {
                let rv = r@->values;
                let wv = redaction(whole@)->values;
                assert(rv.len() == out.len());
                assert(wv.len() == src.len());
                assert forall|j: int| 0 <= j < rv.len() implies rv[j] == wv[j] by {
                    assert(rv[j] == out[j]@);
                }
                assert(rv =~= wv);
            }
            r
        },
        other => other,
    }
}



/// The document that a byte string holds, if it holds exactly one.
pub uninterp spec fn parsed_json(b: Seq<u8>) -> Option<JsonModel>;

/// The compact JSON text of a document.
pub uninterp spec fn json_text(m: JsonModel) -> Seq<char>;

/// Converts a `serde_json::Value` into a document, member for member.
#[verifier::external_body]
fn from_serde(v: serde_json::Value) -> JsonValue {
    match v {
        serde_json::Value::Null => JsonValue::Null,
        serde_json::Value::Bool(b) => JsonValue::Bool(b),
        serde_json::Value::Number(n) => JsonValue::Number(n),
        serde_json::Value::String(s) => JsonValue::String(s),
        serde_json::Value::Array(a) => JsonValue::Array(a.into_iter().map(from_serde).collect()),
        serde_json::Value::Object(m) => {
            let (keys, values) = m.into_iter().map(|(k, v)| (k, from_serde(v))).unzip();
            JsonValue::Object { keys, values }
        },
    }
}

/// Converts a document into a `serde_json::Value`, member for member.
#[verifier::external_body]
fn to_serde(v: &JsonValue) -> serde_json::Value {
    match v {
        JsonValue::Null => serde_json::Value::Null,
        JsonValue::Bool(b) => serde_json::Value::Bool(*b),
        JsonValue::Number(n) => serde_json::Value::Number(n.clone()),
        JsonValue::String(s) => serde_json::Value::String(s.clone()),
        JsonValue::Array(a) => serde_json::Value::Array(a.iter().map(to_serde).collect()),
        JsonValue::Object { keys, values } => serde_json::Value::Object(
            keys.iter().cloned().zip(values.iter().map(to_serde)).collect(),
        ),
    }
}

/// Relies on `serde_json::from_slice` into a `serde_json::Value`: whether the
/// bytes hold one JSON document, and which, depends on the bytes alone.
#[verifier::external_body]
pub(crate) fn parse_json(bytes: &[u8]) -> (r: Option<JsonValue>)
    ensures
        match r {
            Some(v) => parsed_json(bytes@) == Some(v@),
            None => parsed_json(bytes@) is None,
        },
{
    serde_json::from_slice::<serde_json::Value>(bytes).ok().map(from_serde)
}

/// Relies on `serde_json::to_string` of a `serde_json::Value`: the compact
/// text depends on the document alone, and writing a `Value` (string keys,
/// into memory) does not fail.
#[verifier::external_body]
pub(crate) fn to_json_text(v: &JsonValue) -> (r: Option<String>)
    ensures
        r is Some,
        r matches Some(t) ==> t@ == json_text(v@),
{
    serde_json::to_string(&to_serde(v)).ok()
}


/// Every member of `m`, at any depth, whose key names a secret holds the
/// marker and nothing else.
pub open spec fn secrets_hidden(m: JsonModel) -> bool
    decreases m,
{
    match m {
        JsonModel::Array(items) => forall|i: int|
            0 <= i < items.len() ==> secrets_hidden(#[trigger] items[i]),
        JsonModel::Object { keys, values } => forall|i: int|
            0 <= i < values.len() ==> if is_secret_key(key_at(keys, i)) {
                #[trigger] values[i] == JsonModel::Str(marker())
            } else {
                secrets_hidden(values[i])
            },
        _ => true,
    }
}

/// Redaction leaves no secret value behind: in the redacted document every
/// member whose key names a secret, at any depth, holds only the marker.
pub proof fn lemma_redaction_hides_secrets(m: JsonModel)
    ensures
        secrets_hidden(redaction(m)),
    decreases m,
{
    match m {
        JsonModel::Array(items) => {
            let r = redaction(m);
            assert(r->Array_0.len() == items.len());
            assert forall|i: int| 0 <= i < r->Array_0.len() implies #[trigger] secrets_hidden(
                r->Array_0[i],
            ) by {
                assert(r->Array_0[i] == redaction(items[i]));
                lemma_redaction_hides_secrets(items[i]);
            }
            lemma_hidden_array(r->Array_0);
        },
        JsonModel::Object { keys, values } => {
            let r = redaction(m);
            assert forall|i: int| 0 <= i < values.len() implies if is_secret_key(
                key_at(keys, i),
            ) {
                #[trigger] r->values[i] == JsonModel::Str(marker())
            } else {
                secrets_hidden(r->values[i])
            } by {
                assert(r->values[i] == member_redaction(key_at(keys, i), values[i]));
                if !is_secret_key(key_at(keys, i)) {
                    lemma_redaction_hides_secrets(values[i]);
                }
            }
            assert(r->keys == keys);
            assert(r->values.len() == values.len());
        },
        _ => {},
    }
}

/// Redacting twice is redacting once.
pub proof fn lemma_redaction_idempotent(m: JsonModel)
    ensures
        redaction(redaction(m)) == redaction(m),
    decreases m,
{
    match m {
        JsonModel::Array(items) => {
            let r = redaction(m);
            let rr = redaction(r);
            assert forall|i: int| 0 <= i < items.len() implies #[trigger] rr->Array_0[i]
                == r->Array_0[i] by {
                lemma_redaction_idempotent(items[i]);
            }
            assert(rr->Array_0 =~= r->Array_0);
        },
        JsonModel::Object { keys, values } => {
            let r = redaction(m);
            let rr = redaction(r);
            assert forall|i: int| 0 <= i < values.len() implies #[trigger] rr->values[i]
                == r->values[i] by {
                assert(r->keys == keys);
                assert(r->values[i] == member_redaction(key_at(keys, i), values[i]));
                assert(rr->values[i] == member_redaction(key_at(keys, i), r->values[i]));
                if !is_secret_key(key_at(keys, i)) {
                    lemma_redaction_idempotent(values[i]);
                }
            }
            assert(rr->values =~= r->values);
        },
        _ => {},
    }
}


proof fn lemma_hidden_array(s: Seq<JsonModel>)
    requires
        forall|i: int| 0 <= i < s.len() ==> secrets_hidden(#[trigger] s[i]),
    ensures
        secrets_hidden(JsonModel::Array(s)),
{
}

} // verus!
