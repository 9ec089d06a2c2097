use crate::capcode::{capcode_name, capcode_of, Capcode};
use crate::document::{find_entry, lemma_lookup_push, lookup, JsonValue};
use vstd::prelude::*;

verus! {

/// Why a document could not be read as a thread.
#[derive(Debug, Clone, PartialEq)]
pub enum DecodeError {
    /// The document, or an item of its `posts` array, is not an object.
    NotAnObject,
    /// The named field is absent where it is required, or holds a value
    /// that the field does not accept.
    InvalidField(String),
}

/// `e` reports the field whose wire key is `key`.
pub open spec fn error_names(e: DecodeError, key: Seq<char>) -> bool {
    match e {
        DecodeError::InvalidField(k) => k@ == key,
        _ => false,
    }
}

/// A required number: present and an unsigned integer.
pub open spec fn required_number(v: Option<JsonValue>) -> Option<u64> {
    match v {
        Some(JsonValue::UInt(n)) => Some(n),
        _ => None,
    }
}

/// A required text: present and a string.
pub open spec fn required_text(v: Option<JsonValue>) -> Option<String> {
    match v {
        Some(JsonValue::Str(s)) => Some(s),
        _ => None,
    }
}

/// An optional number: absent or null reads as `None`; the outer `None`
/// means the value is not accepted.
pub open spec fn optional_number(v: Option<JsonValue>) -> Option<Option<u64>> {
    match v {
        None => Some(None),
        Some(JsonValue::Null) => Some(None),
        Some(JsonValue::UInt(n)) => Some(Some(n)),
        _ => None,
    }
}

/// An optional small number, which must fit in a byte.
pub open spec fn optional_flag(v: Option<JsonValue>) -> Option<Option<u8>> {
    match v {
        None => Some(None),
        Some(JsonValue::Null) => Some(None),
        Some(JsonValue::UInt(n)) => if n <= 255 {
            Some(Some(n as u8))
        } else {
            None
        },
        _ => None,
    }
}

/// An optional text.
pub open spec fn optional_text(v: Option<JsonValue>) -> Option<Option<String>> {
    match v {
        None => Some(None),
        Some(JsonValue::Null) => Some(None),
        Some(JsonValue::Str(s)) => Some(Some(s)),
        _ => None,
    }
}

/// An optional capcode: a string that is the wire name of one.
pub open spec fn optional_capcode(v: Option<JsonValue>) -> Option<Option<Capcode>> {
    match v {
        None => Some(None),
        Some(JsonValue::Null) => Some(None),
        Some(JsonValue::Str(s)) => match capcode_of(s@) {
            Some(c) => Some(Some(c)),
            None => None,
        },
        _ => None,
    }
}

/// The entry value of an optional number.
pub open spec fn number_value(n: Option<u64>) -> Option<JsonValue> {
    match n {
        Some(n) => Some(JsonValue::UInt(n)),
        None => None,
    }
}

/// The entry value of an optional byte-sized number.
pub open spec fn flag_value(n: Option<u8>) -> Option<JsonValue> {
    match n {
        Some(n) => Some(JsonValue::UInt(n as u64)),
        None => None,
    }
}

/// The entry value of an optional text.
pub open spec fn text_value(s: Option<String>) -> Option<JsonValue> {
    match s {
        Some(s) => Some(JsonValue::Str(s)),
        None => None,
    }
}

/// `v` is the entry value of an optional capcode: its wire name, or nothing.
pub open spec fn encodes_capcode(c: Option<Capcode>, v: Option<JsonValue>) -> bool {
    match c {
        Some(c) => v matches Some(JsonValue::Str(s)) && s@ == capcode_name(c),
        None => v is None,
    }
}

/// `b` carries the same field as `a`: absent where `a` is absent or null,
/// the same text where `a` is a string, and the same value otherwise.
pub open spec fn same_field(a: Option<JsonValue>, b: Option<JsonValue>) -> bool {
    match a {
        None => b is None,
        Some(JsonValue::Null) => b is None,
        Some(JsonValue::Str(s)) => b matches Some(JsonValue::Str(t)) && t@ == s@,
        Some(v) => b == Some(v),
    }
}

fn invalid(key: &str) -> (e: DecodeError)
    ensures
        error_names(e, key@),
{
    DecodeError::InvalidField(key.to_owned())
}

pub(crate) fn read_required_number(o: &Vec<(String, JsonValue)>, key: &str) -> (r: Result<u64, DecodeError>)
    ensures
        r matches Ok(n) ==> required_number(lookup(o@, key@)) == Some(n),
        r matches Err(e) ==> required_number(lookup(o@, key@)) is None
            && error_names(e, key@),
{
    match find_entry(o, key) {
        Some(i) => match &o[i].1 {
            JsonValue::UInt(n) => Ok(*n),
            _ => Err(invalid(key)),
        },
        None => Err(invalid(key)),
    }
}

pub(crate) fn read_required_text(o: &Vec<(String, JsonValue)>, key: &str) -> (r: Result<String, DecodeError>)
    ensures
        r matches Ok(s) ==> required_text(lookup(o@, key@)) == Some(s),
        r matches Err(e) ==> required_text(lookup(o@, key@)) is None
            && error_names(e, key@),
{
    match find_entry(o, key) {
        Some(i) => match &o[i].1 {
            JsonValue::Str(s) => Ok(s.clone()),
            _ => Err(invalid(key)),
        },
        None => Err(invalid(key)),
    }
}

pub(crate) fn read_optional_number(o: &Vec<(String, JsonValue)>, key: &str) -> (r: Result<Option<u64>, DecodeError>)
    ensures
        r matches Ok(n) ==> optional_number(lookup(o@, key@)) == Some(n),
        r matches Err(e) ==> optional_number(lookup(o@, key@)) is None
            && error_names(e, key@),
{
    match find_entry(o, key) {
        Some(i) => match &o[i].1 {
            JsonValue::Null => Ok(None),
            JsonValue::UInt(n) => Ok(Some(*n)),
            _ => Err(invalid(key)),
        },
        None => Ok(None),
    }
}

pub(crate) fn read_optional_flag(o: &Vec<(String, JsonValue)>, key: &str) -> (r: Result<Option<u8>, DecodeError>)
    ensures
        r matches Ok(n) ==> optional_flag(lookup(o@, key@)) == Some(n),
        r matches Err(e) ==> optional_flag(lookup(o@, key@)) is None
            && error_names(e, key@),
{
    match find_entry(o, key) {
        Some(i) => match &o[i].1 {
            JsonValue::Null => Ok(None),
            JsonValue::UInt(n) => if *n <= 255 {
                Ok(Some(*n as u8))
            } else {
                Err(invalid(key))
            },
            _ => Err(invalid(key)),
        },
        None => Ok(None),
    }
}

pub(crate) fn read_optional_text(o: &Vec<(String, JsonValue)>, key: &str) -> (r: Result<Option<String>, DecodeError>)
    ensures
        r matches Ok(s) ==> optional_text(lookup(o@, key@)) == Some(s),
        r matches Err(e) ==> optional_text(lookup(o@, key@)) is None
            && error_names(e, key@),
{
    match find_entry(o, key) {
        Some(i) => match &o[i].1 {
            JsonValue::Null => Ok(None),
            JsonValue::Str(s) => Ok(Some(s.clone())),
            _ => Err(invalid(key)),
        },
        None => Ok(None),
    }
}

pub(crate) fn read_optional_capcode(o: &Vec<(String, JsonValue)>, key: &str) -> (r: Result<Option<Capcode>, DecodeError>)
    ensures
        r matches Ok(c) ==> optional_capcode(lookup(o@, key@)) == Some(c),
        r matches Err(e) ==> optional_capcode(lookup(o@, key@)) is None
            && error_names(e, key@),
{
    match find_entry(o, key) {
        Some(i) => match &o[i].1 {
            JsonValue::Null => Ok(None),
            JsonValue::Str(s) => match Capcode::from_name(s) {
                Some(c) => Ok(Some(c)),
                None => Err(invalid(key)),
            },
            _ => Err(invalid(key)),
        },
        None => Ok(None),
    }
}

pub(crate) fn number_json(n: Option<u64>) -> (r: Option<JsonValue>)
    ensures
        r == number_value(n),
{
    match n {
        Some(n) => Some(JsonValue::UInt(n)),
        None => None,
    }
}

pub(crate) fn flag_json(n: Option<u8>) -> (r: Option<JsonValue>)
    ensures
        r == flag_value(n),
{
    match n {
        Some(n) => Some(JsonValue::UInt(n as u64)),
        None => None,
    }
}

pub(crate) fn text_json(s: &Option<String>) -> (r: Option<JsonValue>)
    ensures
        r == text_value(*s),
{
    match s {
        Some(s) => Some(JsonValue::Str(s.clone())),
        None => None,
    }
}

pub(crate) fn capcode_json(c: Option<Capcode>) -> (r: Option<JsonValue>)
    ensures
        encodes_capcode(c, r),
{
    match c {
        Some(c) => Some(JsonValue::Str(c.name())),
        None => None,
    }
}

/// Appends `key: v` to an object's entries when `v` is present.
pub(crate) fn push_entry(r: &mut Vec<(String, JsonValue)>, key: &str, v: Option<JsonValue>)
    ensures
        forall|k: Seq<char>|
            #[trigger] lookup(final(r)@, k) == (if lookup(old(r)@, k) is Some {
                lookup(old(r)@, k)
            } else if k == key@ {
                v
            } else {
                None
            }),
{
    match v {
        Some(v) => {
            let ghost before = r@;
            let ghost gv = v;
            let e = (key.to_owned(), v);
            let ghost ge = e;
            r.push(e);
            proof {
                assert forall|k: Seq<char>| #[trigger] lookup(r@, k) == (if lookup(before, k) is Some {
                    lookup(before, k)
                } else if k == key@ {
                    Some(gv)
                } else {
                    None
                }) by {
                    lemma_lookup_push(before, ge, k);
                }
            }
        },
        None => {},
    }
}

} // verus!
