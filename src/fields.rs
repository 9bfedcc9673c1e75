//! Decoding of single fields of a document: text, small integers, decimal
//! numbers and enumerated values, each with the path it is reported under.
use vstd::prelude::*;
use crate::document::{lookup, lookup_spec, Doc};
use crate::error::{ConvertError, ErrorKind, Fault};
use crate::schema::{DamageType, SkillCategory, Unit};
use vstd::string::*;

verus! {

/// A decoding outcome, with the value and the error seen through their views.
pub open spec fn result_view<T: View>(r: Result<T, ConvertError>) -> Result<T::V, Fault> {
    match r {
        Ok(v) => Ok(v@),
        Err(e) => Err(e@),
    }
}

/// A decoding outcome whose value is a plain value, with the error seen
/// through its view.
pub open spec fn plain_result<T>(r: Result<T, ConvertError>) -> Result<T, Fault> {
    match r {
        Ok(v) => Ok(v),
        Err(e) => Err(e@),
    }
}

/// The path of member `key` below `prefix`.
pub open spec fn dot(prefix: Seq<char>, key: Seq<char>) -> Seq<char> {
    prefix + "."@ + key
}

/// Builds the path of member `key` below `prefix`.
pub fn dotted(prefix: &str, key: &str) -> (r: String)
    ensures
        r@ == dot(prefix@, key@),
{
    let mut s = String::from_str(prefix);
    s.append(".");
    s.append(key);
    s
}

pub open spec fn is_digit(c: char) -> bool {
    '0' <= c <= '9'
}

/// The number that a string of decimal digits denotes.
pub open spec fn digits_value(s: Seq<char>) -> int
    decreases s.len(),
{
    if s.len() == 0 {
        0
    } else {
        digits_value(s.drop_last()) * 10 + ((s.last() as u32) - ('0' as u32))
    }
}

/// The byte that `s` writes in decimal, if it is one: one or more digits
/// whose value is at most 255.
pub open spec fn byte_of(s: Seq<char>) -> Option<u8> {
    if s.len() > 0 && (forall|i: int| 0 <= i < s.len() ==> is_digit(#[trigger] s[i]))
        && digits_value(s) <= 255 {
        Some(digits_value(s) as u8)
    } else {
        None
    }
}

/// Reads a byte written in decimal digits.
pub fn parse_byte(s: &str) -> (r: Option<u8>)
    ensures
        r == byte_of(s@),
{
    let n = s.unicode_len();
    if n == 0 {
        return None;
    }
    let mut acc: u32 = 0;
    let mut i: usize = 0;
    while i < n
        invariant
            n == s@.len(),
            i <= n,
            forall|j: int| 0 <= j < i ==> is_digit(#[trigger] s@[j]),
            digits_value(s@.take(i as int)) >= 0,
            acc == if digits_value(s@.take(i as int)) < 256 {
                digits_value(s@.take(i as int))
            } else {
                256
            },
        decreases n - i,
    {
        let c = s.get_char(i);
        if !('0' <= c && c <= '9') {
            return None;
        }
        assert(s@.take(i + 1).drop_last() =~= s@.take(i as int));
        assert(s@.take(i + 1).last() == c);
        let d: u32 = (c as u32) - ('0' as u32);
        let next: u32 = acc * 10 + d;
        acc = if next < 256 {
            next
        } else {
            256
        };
        i += 1;
    }
    assert(s@.take(n as int) =~= s@);
    if acc < 256 {
        Some(acc as u8)
    } else {
        None
    }
}

/// A required text field.
pub open spec fn text_spec(d: Option<Doc>, path: Seq<char>) -> Result<Seq<char>, Fault> {
    match d {
        None => Err((ErrorKind::MissingRequiredField, path)),
        Some(Doc::Text(s)) => Ok(s@),
        Some(_) => Err((ErrorKind::TypeMismatch, path)),
    }
}

/// A required byte field, written as a number.
pub open spec fn byte_spec(d: Option<Doc>, path: Seq<char>) -> Result<u8, Fault> {
    match d {
        None => Err((ErrorKind::MissingRequiredField, path)),
        Some(Doc::Number(s)) => match byte_of(s@) {
            Some(b) => Ok(b),
            None => Err((ErrorKind::InvalidNumericValue, path)),
        },
        Some(_) => Err((ErrorKind::TypeMismatch, path)),
    }
}

/// A required decimal number field, kept as its text.
pub open spec fn real_spec(d: Option<Doc>, path: Seq<char>) -> Result<Seq<char>, Fault> {
    match d {
        None => Err((ErrorKind::MissingRequiredField, path)),
        Some(Doc::Number(s)) => Ok(s@),
        Some(_) => Err((ErrorKind::TypeMismatch, path)),
    }
}

/// A required skill category, written as its wire string.
pub open spec fn category_spec(d: Option<Doc>, path: Seq<char>) -> Result<SkillCategory, Fault> {
    match d {
        None => Err((ErrorKind::MissingRequiredField, path)),
        Some(Doc::Text(s)) => match SkillCategory::from_wire_spec(s@) {
            Some(c) => Ok(c),
            None => Err((ErrorKind::InvalidEnumValue, path)),
        },
        Some(_) => Err((ErrorKind::TypeMismatch, path)),
    }
}

/// A required damage type, written as its wire string.
pub open spec fn damage_type_spec(d: Option<Doc>, path: Seq<char>) -> Result<DamageType, Fault> {
    match d {
        None => Err((ErrorKind::MissingRequiredField, path)),
        Some(Doc::Text(s)) => match DamageType::from_wire_spec(s@) {
            Some(c) => Ok(c),
            None => Err((ErrorKind::InvalidEnumValue, path)),
        },
        Some(_) => Err((ErrorKind::TypeMismatch, path)),
    }
}

/// An optional unit: absent or null means none.
pub open spec fn unit_spec(d: Option<Doc>, path: Seq<char>) -> Result<Option<Unit>, Fault> {
    match d {
        None => Ok(None),
        Some(Doc::Null) => Ok(None),
        Some(Doc::Text(s)) => match Unit::from_wire_spec(s@) {
            Some(u) => Ok(Some(u)),
            None => Err((ErrorKind::InvalidEnumValue, path)),
        },
        Some(_) => Err((ErrorKind::TypeMismatch, path)),
    }
}

pub fn read_text(fields: &Vec<(String, Doc)>, key: &str, path: &str) -> (r: Result<String, ConvertError>)
    ensures
        result_view(r) == text_spec(lookup_spec(fields@, key@), path@),
{
    match lookup(fields, key) {
        None => Err(ConvertError::new(ErrorKind::MissingRequiredField, path)),
        Some(Doc::Text(s)) => Ok(s.clone()),
        Some(_) => Err(ConvertError::new(ErrorKind::TypeMismatch, path)),
    }
}

pub fn read_byte(fields: &Vec<(String, Doc)>, key: &str, path: &str) -> (r: Result<u8, ConvertError>)
    ensures
        plain_result(r) == byte_spec(lookup_spec(fields@, key@), path@),
{
    match lookup(fields, key) {
        None => Err(ConvertError::new(ErrorKind::MissingRequiredField, path)),
        Some(Doc::Number(s)) => match parse_byte(s.as_str()) {
            Some(b) => Ok(b),
            None => Err(ConvertError::new(ErrorKind::InvalidNumericValue, path)),
        },
        Some(_) => Err(ConvertError::new(ErrorKind::TypeMismatch, path)),
    }
}

pub fn read_real(fields: &Vec<(String, Doc)>, key: &str, path: &str) -> (r: Result<String, ConvertError>)
    ensures
        result_view(r) == real_spec(lookup_spec(fields@, key@), path@),
{
    match lookup(fields, key) {
        None => Err(ConvertError::new(ErrorKind::MissingRequiredField, path)),
        Some(Doc::Number(s)) => Ok(s.clone()),
        Some(_) => Err(ConvertError::new(ErrorKind::TypeMismatch, path)),
    }
}

pub fn read_category(fields: &Vec<(String, Doc)>, key: &str, path: &str) -> (r: Result<SkillCategory, ConvertError>)
    ensures
        plain_result(r) == category_spec(lookup_spec(fields@, key@), path@),
{
    match lookup(fields, key) {
        None => Err(ConvertError::new(ErrorKind::MissingRequiredField, path)),
        Some(Doc::Text(s)) => match SkillCategory::from_wire(s.as_str()) {
            Some(c) => Ok(c),
            None => Err(ConvertError::new(ErrorKind::InvalidEnumValue, path)),
        },
        Some(_) => Err(ConvertError::new(ErrorKind::TypeMismatch, path)),
    }
}

pub fn read_damage_type(fields: &Vec<(String, Doc)>, key: &str, path: &str) -> (r: Result<DamageType, ConvertError>)
    ensures
        plain_result(r) == damage_type_spec(lookup_spec(fields@, key@), path@),
{
    match lookup(fields, key) {
        None => Err(ConvertError::new(ErrorKind::MissingRequiredField, path)),
        Some(Doc::Text(s)) => match DamageType::from_wire(s.as_str()) {
            Some(c) => Ok(c),
            None => Err(ConvertError::new(ErrorKind::InvalidEnumValue, path)),
        },
        Some(_) => Err(ConvertError::new(ErrorKind::TypeMismatch, path)),
    }
}

pub fn read_unit(fields: &Vec<(String, Doc)>, key: &str, path: &str) -> (r: Result<Option<Unit>, ConvertError>)
    ensures
        plain_result(r) == unit_spec(lookup_spec(fields@, key@), path@),
{
    match lookup(fields, key) {
        None => Ok(None),
        Some(Doc::Null) => Ok(None),
        Some(Doc::Text(s)) => match Unit::from_wire(s.as_str()) {
            Some(u) => Ok(Some(u)),
            None => Err(ConvertError::new(ErrorKind::InvalidEnumValue, path)),
        },
        Some(_) => Err(ConvertError::new(ErrorKind::TypeMismatch, path)),
    }
}

} // verus!
