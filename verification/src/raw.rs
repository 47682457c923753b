//! The generic key-value view of a raw document record. A record arrives as
//! an ordered list of named fields whose values are loosely typed; the node
//! classifier decides from the *presence* of marker fields which node shape
//! the record encodes, and the decoders read the field values. Any value
//! shape the decoders cannot read is represented as `Other`, so that a
//! mistyped field fails a decode exactly as the field kind demands.

use vstd::prelude::*;

use crate::parsing::str_eq;

verus! {

/// A field value inside a nested sub-record (a mastery effect or the
/// expansion-jewel payload).
pub enum RawLeaf {
    Num(u64),
    Str(String),
    StrList(Vec<String>),
    /// Any value of a shape no sub-record decoder reads.
    Other,
}

/// A nested sub-record: named leaf fields, in document order.
pub struct SubRecord {
    pub fields: Vec<(String, RawLeaf)>,
}

/// One element of a list-valued field of a raw record.
pub enum RawItem {
    Str(String),
    Obj(SubRecord),
    /// Any element of a shape no decoder reads.
    Other,
}

/// A field value of a raw record.
pub enum RawValue {
    Bool(bool),
    Num(u64),
    Str(String),
    List(Vec<RawItem>),
    Obj(SubRecord),
    /// Any value of a shape no decoder reads.
    Other,
}

/// One raw record: named fields, in document order.
pub struct RawRecord {
    pub fields: Vec<(String, RawValue)>,
}

/// The value of the first field named `key`, if any.
pub open spec fn assoc_find<V>(fields: Seq<(String, V)>, key: Seq<char>) -> Option<V>
    decreases fields.len(),
{
    if fields.len() == 0 {
        None
    } else if fields[0].0@ == key {
        Some(fields[0].1)
    } else {
        assoc_find(fields.drop_first(), key)
    }
}

/// Whether the record has a field named `key` at all: how a marker field is
/// tested.
pub open spec fn has_key<V>(fields: Seq<(String, V)>, key: Seq<char>) -> bool {
    assoc_find(fields, key) is Some
}

proof fn lemma_assoc_find_from<V>(fields: Seq<(String, V)>, key: Seq<char>, i: int)
    requires
        0 <= i <= fields.len(),
        forall|j: int| 0 <= j < i ==> (#[trigger] fields[j]).0@ != key,
    ensures
        assoc_find(fields, key) == assoc_find(fields.skip(i), key),
    decreases i,
{
    if i > 0 {
        lemma_assoc_find_from(fields, key, i - 1);
        assert(fields.skip(i - 1)[0] == fields[i - 1]);
        assert(fields[i - 1].0@ != key);
        assert(fields.skip(i - 1).drop_first() =~= fields.skip(i));
        assert(assoc_find(fields.skip(i - 1), key) == assoc_find(fields.skip(i), key));
    } else {
        assert(fields.skip(0) =~= fields);
    }
}

/// Look a field up by name, scanning the fields in document order.
pub fn assoc_get<'a, V>(fields: &'a Vec<(String, V)>, key: &str) -> (r: Option<&'a V>)
    ensures
        r matches Some(v) ==> assoc_find(fields@, key@) == Some(*v),
        r is None ==> assoc_find(fields@, key@) is None,
{
    let mut i: usize = 0;
    while i < fields.len()
        invariant
            0 <= i <= fields@.len(),
            forall|j: int| 0 <= j < i ==> (#[trigger] fields@[j]).0@ != key@,
        decreases fields@.len() - i,
    {
        let pair = &fields[i];
        if str_eq(pair.0.as_str(), key) {
            proof {
                lemma_assoc_find_from(fields@, key@, i as int);
                assert(fields@.skip(i as int)[0] == fields@[i as int]);
            }
            return Some(&pair.1);
        }
        i += 1;
    }
    proof {
        lemma_assoc_find_from(fields@, key@, fields@.len() as int);
        assert(fields@.skip(fields@.len() as int) =~= Seq::<(String, V)>::empty());
    }
    None
}

/// Whether the record has a field named `key`.
pub fn has_field<V>(fields: &Vec<(String, V)>, key: &str) -> (r: bool)
    ensures
        r == has_key(fields@, key@),
{
    match assoc_get(fields, key) {
        Some(_) => true,
        None => false,
    }
}

} // verus!
