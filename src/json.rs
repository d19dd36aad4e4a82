use vstd::prelude::*;
use serde_json::Value;
use crate::error::{LoadError, malformed, malformed_at};

verus! {

/// A JSON number: a non-negative integer, a negative integer, or any other
/// number as the decimal text that serde_json prints for it (`0.50` is
/// kept as `0.5`).
#[derive(Clone, Debug, PartialEq, Eq)]
pub enum Num {
    Unsigned(u64),
    Negative(i64),
    Real(String),
}

/// A JSON value. The members of an object are kept in the order the parser
/// hands them out, each key once.
#[derive(Debug)]
pub enum Json {
    Null,
    Bool(bool),
    Number(Num),
    Str(String),
    Array(Vec<Json>),
    Object(Vec<(String, Json)>),
}

impl Num {
    /// A copy of this number.
    pub fn duplicate(&self) -> (r: Num)
        ensures
            r == *self,
    {
        match self {
            Num::Unsigned(u) => Num::Unsigned(*u),
            Num::Negative(i) => Num::Negative(*i),
            Num::Real(s) => Num::Real(s.clone()),
        }
    }
}

/// The value that JSON text denotes, or `None` where the text is not JSON.
pub uninterp spec fn json_text(text: Seq<char>) -> Option<Json>;

/// Relies on serde_json::from_str::<serde_json::Value>: parses JSON text into
/// serde_json's value tree, which is then copied node for node into `Json`.
#[verifier::external_body]
pub(crate) fn parse_json(text: &str) -> (r: Option<Json>)
    ensures
        r == json_text(text@),
{
    serde_json::from_str::<serde_json::Value>(text).ok().map(|v| json_of_value(&v))
}

impl Json {
    /// Parses JSON text; `None` where the text is not JSON.
    pub fn parse(text: &str) -> (r: Option<Json>)
        ensures
            r == json_text(text@),
    {
        parse_json(text)
    }
}

/// serde_json's value tree, which only the conversion into `Json` handles.
#[verifier::external_type_specification]
#[verifier::external_body]
pub struct ExValue(Value);

/// Copies serde_json's value tree into `Json`, one node for each node; part
/// of the conversion of `parse_json`'s result.
#[verifier::external_body]
fn json_of_value(v: &Value) -> Json {
    match v {
        Value::Null => Json::Null,
        Value::Bool(b) => Json::Bool(*b),
        Value::Number(n) => Json::Number(n.as_u64().map(Num::Unsigned).or(n.as_i64().map(Num::Negative))
            .unwrap_or_else(|| Num::Real(n.to_string()))),
        Value::String(s) => Json::Str(s.clone()),
        Value::Array(a) => Json::Array(a.iter().map(json_of_value).collect()),
        Value::Object(o) => Json::Object(o.iter().map(|(k, x)| (k.clone(), json_of_value(x))).collect()),
    }
}

/// The value of the first member of `m` at or after index `i` whose key is `key`.
pub open spec fn field_from(m: Seq<(String, Json)>, key: Seq<char>, i: int) -> Option<Json>
    decreases m.len() - i,
{
    if i < 0 || i >= m.len() {
        None
    } else if m[i].0@ == key {
        Some(m[i].1)
    } else {
        field_from(m, key, i + 1)
    }
}

/// The value of the member of the object members `m` whose key is `key`.
pub open spec fn field(m: Seq<(String, Json)>, key: Seq<char>) -> Option<Json> {
    field_from(m, key, 0)
}

/// Looks up the member `key` of the object members `m`.
pub fn get_field<'a>(m: &'a Vec<(String, Json)>, key: &str) -> (r: Option<&'a Json>)
    ensures
        r matches Some(v) ==> field(m@, key@) == Some(*v),
        r is None ==> field(m@, key@) is None,
{
    let k = key.to_owned();
    let mut i: usize = 0;
    while i < m.len()
        invariant
            i <= m@.len(),
            k@ == key@,
            field_from(m@, key@, 0) == field_from(m@, key@, i as int),
        decreases m@.len() - i,
    {
        if m[i].0 == k {
            return Some(&m[i].1);
        }
        i = i + 1;
    }
    None
}


/// The `u32` that `j` holds, if it is an integer in range.
pub open spec fn u32_of(j: Json) -> Option<u32> {
    match j {
        Json::Number(Num::Unsigned(u)) => if u <= u32::MAX as u64 {
            Some(u as u32)
        } else {
            None
        },
        _ => None,
    }
}

pub open spec fn u32_at(m: Seq<(String, Json)>, key: Seq<char>) -> Option<u32> {
    match field(m, key) {
        Some(j) => u32_of(j),
        None => None,
    }
}

pub open spec fn bool_at(m: Seq<(String, Json)>, key: Seq<char>) -> Option<bool> {
    match field(m, key) {
        Some(Json::Bool(b)) => Some(b),
        _ => None,
    }
}

pub open spec fn str_at(m: Seq<(String, Json)>, key: Seq<char>) -> Option<String> {
    match field(m, key) {
        Some(Json::Str(s)) => Some(s),
        _ => None,
    }
}

pub open spec fn num_at(m: Seq<(String, Json)>, key: Seq<char>) -> Option<Num> {
    match field(m, key) {
        Some(Json::Number(n)) => Some(n),
        _ => None,
    }
}

/// An optional `u32` member: absent and `null` give `Some(None)`; a value
/// that is no `u32` gives `None`.
pub open spec fn opt_u32_at(m: Seq<(String, Json)>, key: Seq<char>) -> Option<Option<u32>> {
    match field(m, key) {
        None => Some(None),
        Some(Json::Null) => Some(None),
        Some(j) => match u32_of(j) {
            Some(v) => Some(Some(v)),
            None => None,
        },
    }
}

/// An optional `bool` member, read as `opt_u32_at` reads a `u32`.
pub open spec fn opt_bool_at(m: Seq<(String, Json)>, key: Seq<char>) -> Option<Option<bool>> {
    match field(m, key) {
        None => Some(None),
        Some(Json::Null) => Some(None),
        Some(Json::Bool(b)) => Some(Some(b)),
        Some(_) => None,
    }
}

/// `r` is the value that `expected` announces for the member `key`, or the
/// error that reports `key` where `expected` is `None`.
pub open spec fn decoded_as<T>(r: Result<T, LoadError>, expected: Option<T>, key: Seq<char>) -> bool {
    match r {
        Ok(v) => expected == Some(v),
        Err(e) => expected is None && malformed_at(e, key),
    }
}

/// Reads the `u32` that `j` holds.
pub fn u32_value(j: &Json) -> (r: Option<u32>)
    ensures
        r == u32_of(*j),
{
    match j {
        Json::Number(Num::Unsigned(u)) => {
            if *u <= u32::MAX as u64 {
                Some(*u as u32)
            } else {
                None
            }
        },
        _ => None,
    }
}

pub fn read_u32(m: &Vec<(String, Json)>, key: &str) -> (r: Result<u32, LoadError>)
    ensures
        decoded_as(r, u32_at(m@, key@), key@),
{
    match get_field(m, key) {
        Some(Json::Number(Num::Unsigned(u))) => {
            if *u <= u32::MAX as u64 {
                Ok(*u as u32)
            } else {
                Err(malformed(key))
            }
        },
        _ => Err(malformed(key)),
    }
}

pub fn read_bool(m: &Vec<(String, Json)>, key: &str) -> (r: Result<bool, LoadError>)
    ensures
        decoded_as(r, bool_at(m@, key@), key@),
{
    match get_field(m, key) {
        Some(Json::Bool(b)) => Ok(*b),
        _ => Err(malformed(key)),
    }
}

pub fn read_string(m: &Vec<(String, Json)>, key: &str) -> (r: Result<String, LoadError>)
    ensures
        decoded_as(r, str_at(m@, key@), key@),
{
    match get_field(m, key) {
        Some(Json::Str(s)) => Ok(s.clone()),
        _ => Err(malformed(key)),
    }
}

pub fn read_num(m: &Vec<(String, Json)>, key: &str) -> (r: Result<Num, LoadError>)
    ensures
        decoded_as(r, num_at(m@, key@), key@),
{
    match get_field(m, key) {
        Some(Json::Number(n)) => Ok(n.duplicate()),
        _ => Err(malformed(key)),
    }
}

pub fn read_opt_u32(m: &Vec<(String, Json)>, key: &str) -> (r: Result<Option<u32>, LoadError>)
    ensures
        decoded_as(r, opt_u32_at(m@, key@), key@),
{
    match get_field(m, key) {
        None => Ok(None),
        Some(Json::Null) => Ok(None),
        Some(Json::Number(Num::Unsigned(u))) => {
            if *u <= u32::MAX as u64 {
                Ok(Some(*u as u32))
            } else {
                Err(malformed(key))
            }
        },
        Some(_) => Err(malformed(key)),
    }
}

pub fn read_opt_bool(m: &Vec<(String, Json)>, key: &str) -> (r: Result<Option<bool>, LoadError>)
    ensures
        decoded_as(r, opt_bool_at(m@, key@), key@),
{
    match get_field(m, key) {
        None => Ok(None),
        Some(Json::Null) => Ok(None),
        Some(Json::Bool(b)) => Ok(Some(*b)),
        Some(_) => Err(malformed(key)),
    }
}

/// A bag of string properties: key and value pairs, in the order of the
/// object they were read from, each key once (a JSON object's keys are
/// distinct). A `Vec` rather than a map keyed by `String`, about whose
/// lookups nothing could be proved.
pub type Properties = Vec<(String, String)>;

/// `j` is an object whose members all hold strings.
pub open spec fn bag_fits(j: Json) -> bool {
    match j {
        Json::Object(m) => forall|i: int| 0 <= i < m@.len() ==> (#[trigger] m@[i]).1 is Str,
        _ => false,
    }
}

/// `b` holds the members of the object `j`, in order, each value as its string.
pub open spec fn bag_of(j: Json, b: Seq<(String, String)>) -> bool {
    match j {
        Json::Object(m) => m@.len() == b.len() && forall|i: int|
            0 <= i < m@.len() ==> (#[trigger] m@[i]).0 == b[i].0 && m@[i].1 == Json::Str(b[i].1),
        _ => false,
    }
}

/// Reads a bag of string properties out of an object of strings.
pub fn decode_bag(j: &Json) -> (r: Option<Properties>)
    ensures
        r is Some <==> bag_fits(*j),
        r matches Some(b) ==> bag_of(*j, b@),
{
    match j {
        Json::Object(m) => {
            let mut b: Properties = Vec::new();
            let mut i: usize = 0;
            while i < m.len()
                invariant
                    i <= m@.len(),
                    b@.len() == i,
                    forall|k: int| 0 <= k < i ==> (#[trigger] m@[k]).0 == b@[k].0 && m@[k].1 == Json::Str(b@[k].1),
                    forall|k: int| 0 <= k < i ==> (#[trigger] m@[k]).1 is Str,
                    *j == Json::Object(*m),
                decreases m@.len() - i,
            {
                match &m[i].1 {
                    Json::Str(s) => {
                        b.push((m[i].0.clone(), s.clone()));
                    },
                    _ => {
                        assert(!(m@[i as int].1 is Str));
                        return None;
                    },
                }
                i = i + 1;
            }
            Some(b)
        },
        _ => None,
    }
}

/// An optional bag member: absent and `null` give `Some(None)`; a value that
/// is no object of strings gives `None`.
pub open spec fn opt_bag_fits(m: Seq<(String, Json)>, key: Seq<char>) -> bool {
    match field(m, key) {
        None => true,
        Some(Json::Null) => true,
        Some(j) => bag_fits(j),
    }
}

pub open spec fn opt_bag_of(m: Seq<(String, Json)>, key: Seq<char>, b: Option<Properties>) -> bool {
    match field(m, key) {
        None => b is None,
        Some(Json::Null) => b is None,
        Some(j) => b matches Some(v) && bag_of(j, v@),
    }
}

pub fn read_opt_bag(m: &Vec<(String, Json)>, key: &str) -> (r: Result<Option<Properties>, LoadError>)
    ensures
        r is Ok <==> opt_bag_fits(m@, key@),
        r matches Ok(b) ==> opt_bag_of(m@, key@, b),
        r matches Err(e) ==> malformed_at(e, key@),
{
    match get_field(m, key) {
        None => Ok(None),
        Some(Json::Null) => Ok(None),
        Some(j) => match decode_bag(j) {
            Some(b) => Ok(Some(b)),
            None => Err(malformed(key)),
        },
    }
}

} // verus!
