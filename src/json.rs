use vstd::prelude::*;

verus! {

/// A parsed JSON value, as the library reads it.
///
/// A number keeps its integer value when it is an integer that fits in an
/// `i64`, and `None` otherwise (a fraction, an exponent, or a larger integer).
/// An object keeps its members in the order the parser gives them.
#[derive(Debug)]
pub enum JsonValue {
    Null,
    Bool(bool),
    Number(Option<i64>),
    Str(String),
    Array(Vec<JsonValue>),
    Object(Vec<(String, JsonValue)>),
}

#[verifier::external_type_specification]
#[verifier::external_body]
pub struct ExValue(serde_json::Value);

/// The JSON value that `bytes` hold, or `None` where they are not JSON.
pub uninterp spec fn json_document(bytes: Seq<u8>) -> Option<JsonValue>;

/// Relies on serde_json::from_slice into `serde_json::Value`: the outcome depends
/// on the bytes alone.
#[verifier::external_body]
pub(crate) fn parse_json(bytes: &[u8]) -> (r: Option<JsonValue>)
    ensures
        r == json_document(bytes@),
{
    serde_json::from_slice::<serde_json::Value>(bytes).ok().map(|v| tree_of(&v))
}

/// Relies on the variants of `serde_json::Value` and on `Number::as_i64`: copies a
/// parsed value into the library's own tree, one node for one node.
#[verifier::external_body]
pub(crate) fn tree_of(v: &serde_json::Value) -> JsonValue {
    match v {
        serde_json::Value::Null => JsonValue::Null,
        serde_json::Value::Bool(b) => JsonValue::Bool(*b),
        serde_json::Value::Number(n) => JsonValue::Number(n.as_i64()),
        serde_json::Value::String(s) => JsonValue::Str(s.clone()),
        serde_json::Value::Array(a) => JsonValue::Array(a.iter().map(tree_of).collect()),
        serde_json::Value::Object(m) => JsonValue::Object(
            m.iter().map(|(k, x)| (k.clone(), tree_of(x))).collect(),
        ),
    }
}

/// The value of the first member of `fields` from position `i` on whose key is `name`.
pub open spec fn member_from(fields: Seq<(String, JsonValue)>, name: Seq<char>, i: int) -> Option<
    JsonValue,
>
    decreases fields.len() - i,
{
    if i < 0 || i >= fields.len() {
        None
    } else if fields[i].0@ == name {
        Some(fields[i].1)
    } else {
        member_from(fields, name, i + 1)
    }
}

/// The value of the member named `name`, if the object has one.
pub open spec fn member(fields: Seq<(String, JsonValue)>, name: Seq<char>) -> Option<JsonValue> {
    member_from(fields, name, 0)
}

/// Finds the member named `name` in an object's members.
pub fn find_member<'a>(fields: &'a Vec<(String, JsonValue)>, name: &str) -> (r: Option<
    &'a JsonValue,
>)
    ensures
        match r {
            Some(v) => member(fields@, name@) == Some(*v),
            None => member(fields@, name@) is None,
        },
{
    let key = String::from_str(name);
    let mut i: usize = 0;
    while i < fields.len()
        invariant
            0 <= i <= fields@.len(),
            key@ == name@,
            member(fields@, name@) == member_from(fields@, name@, i as int),
        decreases fields.len() - i,
    {
        if fields[i].0 == key {
            return Some(&fields[i].1);
        }
        i = i + 1;
    }
    None
}

/// In an object of one member, a lookup finds that member or nothing.
pub proof fn lemma_single_member(f: Seq<(String, JsonValue)>, name: Seq<char>)
    requires
        f.len() == 1,
    ensures
        member(f, name) == (if f[0].0@ == name {
            Some(f[0].1)
        } else {
            None::<JsonValue>
        }),
{
    reveal_with_fuel(member_from, 2);
}

/// A name that no member from position `i` on carries is not found from there.
pub proof fn lemma_absent_member(f: Seq<(String, JsonValue)>, name: Seq<char>, i: int)
    requires
        0 <= i,
        forall|j: int| i <= j < f.len() ==> (#[trigger] f[j]).0@ != name,
    ensures
        member_from(f, name, i) is None,
    decreases f.len() - i,
{
    if i < f.len() {
        lemma_absent_member(f, name, i + 1);
    }
}

} // verus!
