use vstd::prelude::*;

verus! {

/// A parsed JSON document, held as plain values so that the strict decode
/// into the quote shape can be stated and checked field by field. A number
/// that does not fit a signed 64-bit integer (including every non-integer
/// number) is kept only as `OtherNum`: no field of the quote shape accepts
/// such a value, so its magnitude is never needed.
pub enum JsonValue {
    Null,
    Bool(bool),
    Int(i64),
    OtherNum,
    Str(String),
    Arr(Vec<JsonValue>),
    Obj(Vec<(String, JsonValue)>),
}

#[verifier::external_type_specification]
#[verifier::external_body]
pub struct ExSerdeJsonValue(serde_json::Value);

/// The document that `serde_json` parses out of the given text, or `None`
/// where the text is not valid JSON; a function of the text alone.
pub uninterp spec fn json_of(s: Seq<char>) -> Option<serde_json::Value>;

/// Relies on serde_json::from_str::<serde_json::Value>: parses the body text
/// into a generic JSON document, whose value and validity depend on the text
/// alone; on failure the error's rendering is passed along as the cause.
#[verifier::external_body]
pub fn json_parse(s: &str) -> (r: Result<serde_json::Value, String>)
    ensures
        r is Ok <==> json_of(s@) is Some,
        r is Ok ==> r->Ok_0 == json_of(s@)->0,
{
    serde_json::from_str::<serde_json::Value>(s).map_err(|e| e.to_string())
}

/// The plain-value rendering of a `serde_json` document: the same tree, with
/// every number that fits a signed 64-bit integer kept exactly and every
/// other number collapsed to `OtherNum`; a function of the document alone.
pub uninterp spec fn tree_of(v: serde_json::Value) -> JsonValue;

/// Relies on serde_json::Value's variants and serde_json::Number::as_i64:
/// each variant is mapped to the matching `JsonValue` variant, object keys
/// and order as the document iterates them.
#[verifier::external_body]
pub fn json_tree(v: &serde_json::Value) -> (r: JsonValue)
    ensures
        r == tree_of(*v),
{
    match v {
        serde_json::Value::Null => JsonValue::Null,
        serde_json::Value::Bool(b) => JsonValue::Bool(*b),
        serde_json::Value::Number(n) => match n.as_i64() {
            Some(i) => JsonValue::Int(i),
            None => JsonValue::OtherNum,
        },
        serde_json::Value::String(s) => JsonValue::Str(s.clone()),
        serde_json::Value::Array(a) => JsonValue::Arr(a.iter().map(json_tree).collect()),
        serde_json::Value::Object(m) => JsonValue::Obj(
            m.iter().map(|(k, x)| (k.clone(), json_tree(x))).collect(),
        ),
    }
}

/// The value under the first occurrence of key `k` among an object's fields,
/// or `None` where no field carries that key.
pub open spec fn j_lookup(fs: Seq<(String, JsonValue)>, k: Seq<char>) -> Option<JsonValue>
    decreases fs.len(),
{
    if fs.len() == 0 {
        None
    } else if fs[0].0@ == k {
        Some(fs[0].1)
    } else {
        j_lookup(fs.drop_first(), k)
    }
}

/// Looks a key up among an object's fields, exactly as `j_lookup` reads.
pub fn obj_get<'a>(fs: &'a Vec<(String, JsonValue)>, k: &String) -> (r: Option<&'a JsonValue>)
    ensures
        match r {
            Some(v) => j_lookup(fs@, k@) == Some(*v),
            None => j_lookup(fs@, k@) is None,
        },
{
    proof {
        assert(fs@.skip(0) =~= fs@);
    }
    let mut i: usize = 0;
    while i < fs.len()
        invariant
            0 <= i <= fs.len(),
            j_lookup(fs@, k@) == j_lookup(fs@.skip(i as int), k@),
        decreases fs.len() - i,
    {
        proof {
            assert(fs@.skip(i as int)[0] == fs@[i as int]);
            assert(fs@.skip(i as int).drop_first() =~= fs@.skip(i + 1));
        }
        if fs[i].0.eq(k) {
            return Some(&fs[i].1);
        }
        i = i + 1;
    }
    None
}

} // verus!
