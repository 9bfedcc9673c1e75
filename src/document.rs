//! A nested key/value document, as read from a structured text format.
use vstd::prelude::*;
use crate::text::text_eq;

verus! {

/// A node of a nested document. Numbers keep their text; object members
/// are held in the order the document's reader hands them over, and lookup
/// takes the first member of a name.
#[derive(Debug)]
pub enum Doc {
    Null,
    Bool(bool),
    Number(String),
    Text(String),
    List(Vec<Doc>),
    Object(Vec<(String, Doc)>),
}

/// The value of the first member of `fields` named `key`, if any.
pub open spec fn lookup_spec(fields: Seq<(String, Doc)>, key: Seq<char>) -> Option<Doc>
    decreases fields.len(),
{
    if fields.len() == 0 {
        None
    } else if fields[0].0@ == key {
        Some(fields[0].1)
    } else {
        lookup_spec(fields.drop_first(), key)
    }
}

/// Finds the first member of `fields` named `key`.
pub fn lookup<'a>(fields: &'a Vec<(String, Doc)>, key: &str) -> (r: Option<&'a Doc>)
    ensures
        match r {
            Some(d) => lookup_spec(fields@, key@) == Some(*d),
            None => lookup_spec(fields@, key@) is None,
        },
{
    let n = fields.len();
    let mut i: usize = 0;
    assert(fields@.subrange(0, n as int) =~= fields@);
    while i < n
        invariant
            n == fields@.len(),
            i <= n,
            lookup_spec(fields@, key@) == lookup_spec(fields@.subrange(i as int, n as int), key@),
        decreases n - i,
    {
        assert(fields@.subrange(i as int, n as int).drop_first() =~= fields@.subrange(
            i + 1,
            n as int,
        ));
        if text_eq(fields[i].0.as_str(), key) {
            return Some(&fields[i].1);
        }
        i += 1;
    }
    None
}

} // verus!
