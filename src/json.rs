//! A JSON document as a tree of plain values, and typed reads out of it.
use vstd::prelude::*;

verus! {

/// A JSON number, by the form it was written in. A number with a fraction or
/// an exponent, or one outside the range of the integer forms, is `Float`;
/// its value is not kept, since no model of this library reads one.
#[derive(Debug, PartialEq, Eq, Structural)]
pub enum JsonNumber {
    PosInt(u64),
    NegInt(i64),
    Float,
}

/// A parsed JSON document. An object keeps its members as key/value pairs.
#[derive(Debug)]
pub enum JsonValue {
    Null,
    Bool(bool),
    Number(JsonNumber),
    Str(String),
    Array(Vec<JsonValue>),
    Object(Vec<(String, JsonValue)>),
}

/// A document as `serde_json` parses it; only carried from the parser into
/// `from_serde`.
#[verifier::external_type_specification]
#[verifier::external_body]
pub struct ExSerdeValue(serde_json::Value);

/// The document that a JSON text denotes, or `None` where the bytes are not
/// one JSON text.
pub uninterp spec fn json_text_value(text: Seq<u8>) -> Option<JsonValue>;

/// Moves a parsed `serde_json::Value` into a `JsonValue`, node by node.
/// Relies on `serde_json::Number::as_u64` and `as_i64` to tell its three
/// internal forms apart.
#[verifier::external_body]
fn from_serde(v: serde_json::Value) -> JsonValue {
    match v {
        serde_json::Value::Null => JsonValue::Null,
        serde_json::Value::Bool(b) => JsonValue::Bool(b),
        serde_json::Value::Number(n) => JsonValue::Number(match (n.as_u64(), n.as_i64()) {
            (Some(u), _) => JsonNumber::PosInt(u),
            (None, Some(i)) => JsonNumber::NegInt(i),
            (None, None) => JsonNumber::Float,
        }),
        serde_json::Value::String(s) => JsonValue::Str(s),
        serde_json::Value::Array(a) => JsonValue::Array(a.into_iter().map(from_serde).collect()),
        serde_json::Value::Object(m) => JsonValue::Object(m.into_iter().map(|(k, x)| (k, from_serde(x))).collect()),
    }
}

/// Relies on `serde_json::from_slice` into `serde_json::Value`: it either
/// parses the whole of `text` as one JSON document or reports why not.
#[verifier::external_body]
pub(crate) fn parse_json(text: &[u8]) -> (r: Result<JsonValue, String>)
    ensures
        match r {
            Ok(v) => json_text_value(text@) == Some(v),
            Err(_) => json_text_value(text@) is None,
        },
{
    match serde_json::from_slice::<serde_json::Value>(text) {
        Ok(v) => Ok(from_serde(v)),
        Err(e) => Err(e.to_string()),
    }
}

/// The value of the first member named `key`.
pub open spec fn lookup(entries: Seq<(String, JsonValue)>, key: Seq<char>) -> Option<JsonValue>
    decreases entries.len(),
{
    if entries.len() == 0 {
        None
    } else if entries[0].0@ == key {
        Some(entries[0].1)
    } else {
        lookup(entries.drop_first(), key)
    }
}

/// The member `key` of `v`; `None` where `v` is no object or has no such member.
pub open spec fn member(v: JsonValue, key: Seq<char>) -> Option<JsonValue> {
    match v {
        JsonValue::Object(entries) => lookup(entries@, key),
        _ => None,
    }
}

/// A required string.
pub open spec fn string_of(m: Option<JsonValue>) -> Option<String> {
    match m {
        Some(JsonValue::Str(s)) => Some(s),
        _ => None,
    }
}

/// An optional string: absent and `null` both read as `None`.
pub open spec fn opt_string_of(m: Option<JsonValue>) -> Option<Option<String>> {
    match m {
        None => Some(None),
        Some(JsonValue::Null) => Some(None),
        Some(JsonValue::Str(s)) => Some(Some(s)),
        _ => None,
    }
}

/// A required boolean.
pub open spec fn bool_of(m: Option<JsonValue>) -> Option<bool> {
    match m {
        Some(JsonValue::Bool(b)) => Some(b),
        _ => None,
    }
}

/// An optional boolean: absent and `null` both read as `None`.
pub open spec fn opt_bool_of(m: Option<JsonValue>) -> Option<Option<bool>> {
    match m {
        None => Some(None),
        Some(JsonValue::Null) => Some(None),
        Some(JsonValue::Bool(b)) => Some(Some(b)),
        _ => None,
    }
}

/// A required non-negative integer no larger than `max`.
pub open spec fn uint_of(m: Option<JsonValue>, max: int) -> Option<int> {
    match m {
        Some(JsonValue::Number(JsonNumber::PosInt(n))) => if n <= max {
            Some(n as int)
        } else {
            None
        },
        _ => None,
    }
}

/// A required integer within `[min, max]`.
pub open spec fn int_of(m: Option<JsonValue>, min: int, max: int) -> Option<int> {
    match m {
        Some(JsonValue::Number(JsonNumber::PosInt(n))) => if n <= max {
            Some(n as int)
        } else {
            None
        },
        Some(JsonValue::Number(JsonNumber::NegInt(n))) => if min <= n {
            Some(n as int)
        } else {
            None
        },
        _ => None,
    }
}

/// The member `key` of `v`, by reference.
pub fn get<'a>(v: &'a JsonValue, key: &str) -> (r: Option<&'a JsonValue>)
    ensures
        match r {
            Some(x) => member(*v, key@) == Some(*x),
            None => member(*v, key@) is None,
        },
{
    match v {
        JsonValue::Object(entries) => {
            let k = key.to_owned();
            let mut i: usize = 0;
            assert(entries@.subrange(0, entries@.len() as int) =~= entries@);
            while i < entries.len()
                invariant
                    i <= entries@.len(),
                    k@ == key@,
                    member(*v, key@) == lookup(entries@, key@),
                    lookup(entries@, key@) == lookup(entries@.subrange(i as int, entries@.len() as int), key@),
                decreases entries@.len() - i,
            {
                let ghost rest = entries@.subrange(i as int, entries@.len() as int);
                assert(rest.drop_first() =~= entries@.subrange(i + 1, entries@.len() as int));
                assert(rest[0] == entries@[i as int]);
                if entries[i].0 == k {
                    return Some(&entries[i].1);
                }
                i = i + 1;
            }
            None
        },
        _ => None,
    }
}

/// Whether `s` spells `t`.
pub fn text_is(s: &String, t: &str) -> (r: bool)
    ensures
        r == (s@ == t@),
{
    let owned = t.to_owned();
    *s == owned
}

/// Reads the required string member `key` of `v`.
pub fn read_string(v: &JsonValue, key: &str) -> (r: Option<String>)
    ensures
        r == string_of(member(*v, key@)),
{
    match get(v, key) {
        Some(JsonValue::Str(s)) => Some(s.clone()),
        _ => None,
    }
}

/// Reads the optional string member `key` of `v`.
pub fn read_opt_string(v: &JsonValue, key: &str) -> (r: Option<Option<String>>)
    ensures
        r == opt_string_of(member(*v, key@)),
{
    match get(v, key) {
        None => Some(None),
        Some(JsonValue::Null) => Some(None),
        Some(JsonValue::Str(s)) => Some(Some(s.clone())),
        _ => None,
    }
}

/// Reads the required boolean member `key` of `v`.
pub fn read_bool(v: &JsonValue, key: &str) -> (r: Option<bool>)
    ensures
        r == bool_of(member(*v, key@)),
{
    match get(v, key) {
        Some(JsonValue::Bool(b)) => Some(*b),
        _ => None,
    }
}

/// Reads the optional boolean member `key` of `v`.
pub fn read_opt_bool(v: &JsonValue, key: &str) -> (r: Option<Option<bool>>)
    ensures
        r == opt_bool_of(member(*v, key@)),
{
    match get(v, key) {
        None => Some(None),
        Some(JsonValue::Null) => Some(None),
        Some(JsonValue::Bool(b)) => Some(Some(*b)),
        _ => None,
    }
}

/// Reads the required member `key` of `v` as a `u64`.
pub fn read_u64(v: &JsonValue, key: &str) -> (r: Option<u64>)
    ensures
        match uint_of(member(*v, key@), u64::MAX as int) {
            Some(n) => r == Some(n as u64),
            None => r is None,
        },
{
    match get(v, key) {
        Some(JsonValue::Number(JsonNumber::PosInt(n))) => Some(*n),
        _ => None,
    }
}

/// Reads the required member `key` of `v` as a `usize`.
pub fn read_usize(v: &JsonValue, key: &str) -> (r: Option<usize>)
    ensures
        match uint_of(member(*v, key@), usize::MAX as int) {
            Some(n) => r == Some(n as usize),
            None => r is None,
        },
{
    match get(v, key) {
        Some(JsonValue::Number(JsonNumber::PosInt(n))) => if *n <= usize::MAX as u64 {
            Some(*n as usize)
        } else {
            None
        },
        _ => None,
    }
}

/// Reads the required member `key` of `v` as a `u16`.
pub fn read_u16(v: &JsonValue, key: &str) -> (r: Option<u16>)
    ensures
        match uint_of(member(*v, key@), u16::MAX as int) {
            Some(n) => r == Some(n as u16),
            None => r is None,
        },
{
    match get(v, key) {
        Some(JsonValue::Number(JsonNumber::PosInt(n))) => if *n <= u16::MAX as u64 {
            Some(*n as u16)
        } else {
            None
        },
        _ => None,
    }
}

/// Reads the required member `key` of `v` as a `u8`.
pub fn read_u8(v: &JsonValue, key: &str) -> (r: Option<u8>)
    ensures
        match uint_of(member(*v, key@), u8::MAX as int) {
            Some(n) => r == Some(n as u8),
            None => r is None,
        },
{
    match get(v, key) {
        Some(JsonValue::Number(JsonNumber::PosInt(n))) => if *n <= u8::MAX as u64 {
            Some(*n as u8)
        } else {
            None
        },
        _ => None,
    }
}

/// Reads the required member `key` of `v` as an `i32`.
pub fn read_i32(v: &JsonValue, key: &str) -> (r: Option<i32>)
    ensures
        match int_of(member(*v, key@), i32::MIN as int, i32::MAX as int) {
            Some(n) => r == Some(n as i32),
            None => r is None,
        },
{
    match get(v, key) {
        Some(JsonValue::Number(JsonNumber::PosInt(n))) => if *n <= i32::MAX as u64 {
            Some(*n as i32)
        } else {
            None
        },
        Some(JsonValue::Number(JsonNumber::NegInt(n))) => if *n >= i32::MIN as i64 {
            Some(*n as i32)
        } else {
            None
        },
        _ => None,
    }
}

/// Whether none of the first `k` entries is named `key`.
pub open spec fn absent_before(entries: Seq<(String, JsonValue)>, k: int, key: Seq<char>) -> bool
    decreases k,
{
    if k <= 0 {
        true
    } else {
        entries[k - 1].0@ != key && absent_before(entries, k - 1, key)
    }
}

/// Whether each of the first `k` entries differs from `key` in its length
/// or its first character.
pub open spec fn distinct_before(entries: Seq<(String, JsonValue)>, k: int, key: Seq<char>) -> bool
    decreases k,
{
    if k <= 0 {
        true
    } else {
        (entries[k - 1].0@.len() != key.len() || entries[k - 1].0@[0] != key[0])
            && distinct_before(entries, k - 1, key)
    }
}

pub proof fn lemma_distinct_absent(entries: Seq<(String, JsonValue)>, k: int, key: Seq<char>)
    requires
        distinct_before(entries, k, key),
    ensures
        absent_before(entries, k, key),
    decreases k,
{
    if k > 0 {
        lemma_distinct_absent(entries, k - 1, key);
    }
}

proof fn lemma_absent_shift(entries: Seq<(String, JsonValue)>, k: int, key: Seq<char>)
    requires
        0 < k <= entries.len(),
        absent_before(entries, k, key),
    ensures
        entries[0].0@ != key,
        absent_before(entries.drop_first(), k - 1, key),
    decreases k,
{
    if k > 1 {
        lemma_absent_shift(entries, k - 1, key);
        assert(entries.drop_first()[k - 2] == entries[k - 1]);
    }
}

/// The member `key` of an object whose `k`-th entry is the first to carry
/// that name is that entry's value.
pub proof fn lemma_lookup_first(entries: Seq<(String, JsonValue)>, k: int, key: Seq<char>)
    requires
        0 <= k < entries.len(),
        entries[k].0@ == key,
        absent_before(entries, k, key),
    ensures
        lookup(entries, key) == Some(entries[k].1),
    decreases k,
{
    if k > 0 {
        lemma_absent_shift(entries, k, key);
        assert(entries.drop_first()[k - 1] == entries[k]);
        lemma_lookup_first(entries.drop_first(), k - 1, key);
    }
}

/// As `lemma_lookup_first`, where the earlier entries' names differ from
/// `key` in length or in their first character.
pub proof fn lemma_lookup_distinct(entries: Seq<(String, JsonValue)>, k: int, key: Seq<char>)
    requires
        0 <= k < entries.len(),
        entries[k].0@ == key,
        distinct_before(entries, k, key),
    ensures
        lookup(entries, key) == Some(entries[k].1),
{
    lemma_distinct_absent(entries, k, key);
    lemma_lookup_first(entries, k, key);
}

/// `null` for `None`, the string for `Some`.
pub fn opt_string_to_json(o: &Option<String>) -> (r: JsonValue)
    ensures
        opt_string_of(Some(r)) == Some(*o),
{
    match o {
        None => JsonValue::Null,
        Some(s) => JsonValue::Str(s.clone()),
    }
}

} // verus!
