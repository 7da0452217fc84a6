//! The pipeline's model of a JSON document.
//!
//! The AI backend answers in JSON. A document is held as a tree of plain
//! values; a number is kept as its decimal literal, exactly as the parser
//! rendered it, and is interpreted by the verified fixed-point reader in
//! `numbers`. Parsing text into the tree is the one trusted step, named
//! `json_of`; everything that walks the tree is verified.

use vstd::prelude::*;
use vstd::utf8::encode_utf8_decode_utf8;

verus! {

/// A parsed JSON document.
///
/// `Num` carries the number's decimal literal; `Obj` keeps fields in parse
/// order with unique names.
#[derive(Debug, PartialEq)]
pub enum JsonValue {
    Null,
    Bool(bool),
    Num(String),
    Str(String),
    Arr(Vec<JsonValue>),
    Obj(Vec<(String, JsonValue)>),
}

/// What parsing a text as JSON yields: `None` when the text is not valid
/// JSON, otherwise the document tree. The result depends on the text alone.
pub uninterp spec fn json_of(text: Seq<char>) -> Option<JsonValue>;

/// Relies on serde_json::from_str::<serde_json::Value>: `Some` exactly when
/// the text is valid JSON, and then the parsed tree, converted field for
/// field by `of_serde`; a deterministic function of the text.
#[verifier::external_body]
pub fn parse_json(text: &str) -> (r: Option<JsonValue>)
    ensures
        r == json_of(text@),
{
    serde_json::from_str::<serde_json::Value>(text).ok().map(of_serde)
}

#[verifier::external_type_specification]
#[verifier::external_body]
pub struct ExSerdeValue(serde_json::Value);

/// Relies on serde_json::Value: converts its tree into [`JsonValue`], one
/// arm per variant, moving fields; a number becomes its rendered literal
/// (serde_json's `Display`, a function of the value alone).
#[verifier::external_body]
fn of_serde(v: serde_json::Value) -> JsonValue {
    match v {
        serde_json::Value::Null => JsonValue::Null,
        serde_json::Value::Bool(b) => JsonValue::Bool(b),
        serde_json::Value::Number(n) => JsonValue::Num(n.to_string()),
        serde_json::Value::String(s) => JsonValue::Str(s),
        serde_json::Value::Array(a) => JsonValue::Arr(a.into_iter().map(of_serde).collect()),
        serde_json::Value::Object(m) => JsonValue::Obj(
            m.into_iter().map(|f| (f.0, of_serde(f.1))).collect(),
        ),
    }
}

/// String equality by byte comparison, proved to agree with view equality.
pub fn str_eq(a: &str, b: &str) -> (r: bool)
    ensures
        r == (a@ == b@),
{
    let ab = a.as_bytes();
    let bb = b.as_bytes();
    proof {
        encode_utf8_decode_utf8(a@);
        encode_utf8_decode_utf8(b@);
    }
    if ab.len() != bb.len() {
        return false;
    }
    let n = ab.len();
    for i in 0..n
        invariant
            ab@ == vstd::utf8::encode_utf8(a@),
            bb@ == vstd::utf8::encode_utf8(b@),
            n == ab@.len(),
            n == bb@.len(),
            forall|j: int| 0 <= j < i ==> ab@[j] == bb@[j],
            vstd::utf8::decode_utf8(ab@) == a@,
            vstd::utf8::decode_utf8(bb@) == b@,
    {
        if ab[i] != bb[i] {
            return false;
        }
    }
    proof {
        assert(ab@ =~= bb@);
    }
    true
}

/// The first field of an object with the given name, if any.
pub open spec fn spec_obj_get(fields: Seq<(String, JsonValue)>, key: Seq<char>) -> Option<
    JsonValue,
>
    decreases fields.len(),
{
    if fields.len() == 0 {
        None
    } else if fields.first().0@ == key {
        Some(fields.first().1)
    } else {
        spec_obj_get(fields.drop_first(), key)
    }
}

impl JsonValue {
    /// Field lookup on an object; `None` on a missing field or on any
    /// non-object value.
    pub open spec fn spec_get(self, key: Seq<char>) -> Option<JsonValue> {
        match self {
            JsonValue::Obj(fields) => spec_obj_get(fields@, key),
            _ => None,
        }
    }

    /// Looks a field up by name.
    pub fn get<'a>(&'a self, key: &str) -> (r: Option<&'a JsonValue>)
        ensures
            match r {
                Some(v) => self.spec_get(key@) == Some(*v),
                None => self.spec_get(key@) is None,
            },
    {
        match self {
            JsonValue::Obj(fields) => {
                let n = fields.len();
                assert(fields@.skip(0) =~= fields@);
                for i in 0..n
                    invariant
                        n == fields@.len(),
                        self.spec_get(key@) == spec_obj_get(fields@, key@),
                        spec_obj_get(fields@, key@) == spec_obj_get(
                            fields@.skip(i as int),
                            key@,
                        ),
                {
                    proof {
                        assert(fields@.skip(i as int).first() == fields@[i as int]);
                        assert(fields@.skip(i as int).drop_first() =~= fields@.skip(
                            i as int + 1,
                        ));
                    }
                    if str_eq(fields[i].0.as_str(), key) {
                        proof {
                            assert(fields@.skip(i as int).first().0@ == key@);
                            assert(spec_obj_get(fields@, key@) == Some(fields@[i as int].1));
                        }
                        return Some(&fields[i].1);
                    }
                }
                assert(fields@.skip(n as int) =~= Seq::<(String, JsonValue)>::empty());
                None
            },
            _ => None,
        }
    }
}

} // verus!
