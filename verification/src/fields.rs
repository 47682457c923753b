//! Readers for the field kinds a raw record's decoders use. Each kind has a
//! spec function giving the exact outcome — the decoded value, a `Shape`
//! failure (field missing, or typed in a way the kind rejects at the record
//! level), or a fatal `Coercion` failure (a textual numeric or text-array
//! field whose coercion failed) — and an executable reader proved against
//! it.

use vstd::prelude::*;

use crate::error::DecodeFailure;
use crate::node::view_opt_str;
use crate::parsing::{
    all_parse_u32, from_string_array_to_box, from_string_array_to_u32_box, join_strs,
    parse_u32, parse_u32_spec, parsed_u32s,
};
use crate::raw::{assoc_find, assoc_get, RawItem, RawLeaf, RawRecord, RawValue, SubRecord};

verus! {

/// Whether every element of a list field is a plain string.
pub open spec fn items_all_str(items: Seq<RawItem>) -> bool {
    forall|i: int| 0 <= i < items.len() ==> (#[trigger] items[i]) is Str
}

/// The strings of an all-string list field.
pub open spec fn items_strs(items: Seq<RawItem>) -> Seq<String> {
    Seq::new(items.len(), |i: int| items[i]->Str_0)
}

/// A required unsigned 32-bit field, encoded as a plain number.
pub open spec fn spec_u32(rec: RawRecord, key: Seq<char>) -> Result<u32, DecodeFailure> {
    match assoc_find(rec.fields@, key) {
        Some(RawValue::Num(n)) => if n <= u32::MAX {
            Ok(n as u32)
        } else {
            Err(DecodeFailure::Shape)
        },
        Some(_) => Err(DecodeFailure::Shape),
        None => Err(DecodeFailure::Shape),
    }
}

/// A required unsigned 8-bit field, encoded as a plain number.
pub open spec fn spec_u8(rec: RawRecord, key: Seq<char>) -> Result<u8, DecodeFailure> {
    match assoc_find(rec.fields@, key) {
        Some(RawValue::Num(n)) => if n <= u8::MAX {
            Ok(n as u8)
        } else {
            Err(DecodeFailure::Shape)
        },
        Some(_) => Err(DecodeFailure::Shape),
        None => Err(DecodeFailure::Shape),
    }
}

/// An optional unsigned 8-bit field, zero when absent.
pub open spec fn spec_u8_default(rec: RawRecord, key: Seq<char>) -> Result<u8, DecodeFailure> {
    match assoc_find(rec.fields@, key) {
        Some(RawValue::Num(n)) => if n <= u8::MAX {
            Ok(n as u8)
        } else {
            Err(DecodeFailure::Shape)
        },
        Some(_) => Err(DecodeFailure::Shape),
        None => Ok(0),
    }
}

/// An optional boolean field, false when absent.
pub open spec fn spec_bool_default(rec: RawRecord, key: Seq<char>) -> Result<bool, DecodeFailure> {
    match assoc_find(rec.fields@, key) {
        Some(RawValue::Bool(b)) => Ok(b),
        Some(_) => Err(DecodeFailure::Shape),
        None => Ok(false),
    }
}

/// A required plain text field.
pub open spec fn spec_str(rec: RawRecord, key: Seq<char>) -> Result<Seq<char>, DecodeFailure> {
    match assoc_find(rec.fields@, key) {
        Some(RawValue::Str(s)) => Ok(s@),
        Some(_) => Err(DecodeFailure::Shape),
        None => Err(DecodeFailure::Shape),
    }
}

/// A required text-array field, coerced to one concatenated text value. A
/// present field of any other shape fails the coercion, fatally.
pub open spec fn spec_str_join(rec: RawRecord, key: Seq<char>) -> Result<Seq<char>, DecodeFailure> {
    match assoc_find(rec.fields@, key) {
        Some(RawValue::List(items)) => if items_all_str(items@) {
            Ok(join_strs(items_strs(items@)))
        } else {
            Err(DecodeFailure::Coercion)
        },
        Some(_) => Err(DecodeFailure::Coercion),
        None => Err(DecodeFailure::Shape),
    }
}

/// An optional text-array field: absent, or an empty array, signals
/// "absent"; a present field of any other shape fails the coercion.
pub open spec fn spec_str_join_opt(rec: RawRecord, key: Seq<char>) -> Result<
    Option<Seq<char>>,
    DecodeFailure,
> {
    match assoc_find(rec.fields@, key) {
        Some(RawValue::List(items)) => if items_all_str(items@) {
            if items@.len() == 0 {
                Ok(None)
            } else {
                Ok(Some(join_strs(items_strs(items@))))
            }
        } else {
            Err(DecodeFailure::Coercion)
        },
        Some(_) => Err(DecodeFailure::Coercion),
        None => Ok(None),
    }
}

/// A required array of stringified node ids. A present field that is not an
/// all-string array, or any element that fails to parse, fails the
/// coercion, fatally.
pub open spec fn spec_u32_list(rec: RawRecord, key: Seq<char>) -> Result<Seq<u32>, DecodeFailure> {
    match assoc_find(rec.fields@, key) {
        Some(RawValue::List(items)) => if items_all_str(items@) {
            if all_parse_u32(items_strs(items@)) {
                Ok(parsed_u32s(items_strs(items@)))
            } else {
                Err(DecodeFailure::Coercion)
            }
        } else {
            Err(DecodeFailure::Coercion)
        },
        Some(_) => Err(DecodeFailure::Coercion),
        None => Err(DecodeFailure::Shape),
    }
}

/// A required unsigned 32-bit leaf field of a sub-record, plain number.
pub open spec fn spec_leaf_u32(sub: SubRecord, key: Seq<char>) -> Result<u32, DecodeFailure> {
    match assoc_find(sub.fields@, key) {
        Some(RawLeaf::Num(n)) => if n <= u32::MAX {
            Ok(n as u32)
        } else {
            Err(DecodeFailure::Shape)
        },
        Some(_) => Err(DecodeFailure::Shape),
        None => Err(DecodeFailure::Shape),
    }
}

/// A required unsigned 8-bit leaf field of a sub-record, plain number.
pub open spec fn spec_leaf_u8(sub: SubRecord, key: Seq<char>) -> Result<u8, DecodeFailure> {
    match assoc_find(sub.fields@, key) {
        Some(RawLeaf::Num(n)) => if n <= u8::MAX {
            Ok(n as u8)
        } else {
            Err(DecodeFailure::Shape)
        },
        Some(_) => Err(DecodeFailure::Shape),
        None => Err(DecodeFailure::Shape),
    }
}

/// A required text-array leaf field of a sub-record, coerced to one text.
pub open spec fn spec_leaf_str_join(sub: SubRecord, key: Seq<char>) -> Result<
    Seq<char>,
    DecodeFailure,
> {
    match assoc_find(sub.fields@, key) {
        Some(RawLeaf::StrList(items)) => Ok(join_strs(items@)),
        Some(_) => Err(DecodeFailure::Coercion),
        None => Err(DecodeFailure::Shape),
    }
}

/// An optional text-array leaf field of a sub-record.
pub open spec fn spec_leaf_str_join_opt(sub: SubRecord, key: Seq<char>) -> Result<
    Option<Seq<char>>,
    DecodeFailure,
> {
    match assoc_find(sub.fields@, key) {
        Some(RawLeaf::StrList(items)) => if items@.len() == 0 {
            Ok(None)
        } else {
            Ok(Some(join_strs(items@)))
        },
        Some(_) => Err(DecodeFailure::Coercion),
        None => Ok(None),
    }
}

/// A required stringified unsigned integer leaf field of a sub-record. Any
/// present value that is not a parsable string fails the coercion, fatally.
pub open spec fn spec_leaf_u32_str(sub: SubRecord, key: Seq<char>) -> Result<u32, DecodeFailure> {
    match assoc_find(sub.fields@, key) {
        Some(RawLeaf::Str(s)) => match parse_u32_spec(s@) {
            Some(v) => Ok(v),
            None => Err(DecodeFailure::Coercion),
        },
        Some(_) => Err(DecodeFailure::Coercion),
        None => Err(DecodeFailure::Shape),
    }
}

/// An optional stringified unsigned integer leaf field: absent, or the
/// empty string, signals "absent"; anything else must parse, fatally
/// otherwise.
pub open spec fn spec_leaf_u32_str_opt(sub: SubRecord, key: Seq<char>) -> Result<
    Option<u32>,
    DecodeFailure,
> {
    match assoc_find(sub.fields@, key) {
        Some(RawLeaf::Str(s)) => if s@.len() == 0 {
            Ok(None)
        } else {
            match parse_u32_spec(s@) {
                Some(v) => Ok(Some(v)),
                None => Err(DecodeFailure::Coercion),
            }
        },
        Some(_) => Err(DecodeFailure::Coercion),
        None => Ok(None),
    }
}

pub(crate) fn get_u32(rec: &RawRecord, key: &str) -> (r: Result<u32, DecodeFailure>)
    ensures
        r == spec_u32(*rec, key@),
{
    match assoc_get(&rec.fields, key) {
        Some(v) => match v {
            RawValue::Num(n) => if *n <= u32::MAX as u64 {
                Ok(*n as u32)
            } else {
                Err(DecodeFailure::Shape)
            },
            _ => Err(DecodeFailure::Shape),
        },
        None => Err(DecodeFailure::Shape),
    }
}

pub(crate) fn get_u8(rec: &RawRecord, key: &str) -> (r: Result<u8, DecodeFailure>)
    ensures
        r == spec_u8(*rec, key@),
{
    match assoc_get(&rec.fields, key) {
        Some(v) => match v {
            RawValue::Num(n) => if *n <= u8::MAX as u64 {
                Ok(*n as u8)
            } else {
                Err(DecodeFailure::Shape)
            },
            _ => Err(DecodeFailure::Shape),
        },
        None => Err(DecodeFailure::Shape),
    }
}

pub(crate) fn get_u8_default(rec: &RawRecord, key: &str) -> (r: Result<u8, DecodeFailure>)
    ensures
        r == spec_u8_default(*rec, key@),
{
    match assoc_get(&rec.fields, key) {
        Some(v) => match v {
            RawValue::Num(n) => if *n <= u8::MAX as u64 {
                Ok(*n as u8)
            } else {
                Err(DecodeFailure::Shape)
            },
            _ => Err(DecodeFailure::Shape),
        },
        None => Ok(0),
    }
}

pub(crate) fn get_bool_default(rec: &RawRecord, key: &str) -> (r: Result<bool, DecodeFailure>)
    ensures
        r == spec_bool_default(*rec, key@),
{
    match assoc_get(&rec.fields, key) {
        Some(v) => match v {
            RawValue::Bool(b) => Ok(*b),
            _ => Err(DecodeFailure::Shape),
        },
        None => Ok(false),
    }
}

pub(crate) fn get_str(rec: &RawRecord, key: &str) -> (r: Result<String, DecodeFailure>)
    ensures
        r is Ok <==> spec_str(*rec, key@) is Ok,
        r is Ok ==> r->Ok_0@ == spec_str(*rec, key@)->Ok_0,
        r is Err ==> r->Err_0 == spec_str(*rec, key@)->Err_0,
{
    match assoc_get(&rec.fields, key) {
        Some(v) => match v {
            RawValue::Str(s) => Ok(s.clone()),
            _ => Err(DecodeFailure::Shape),
        },
        None => Err(DecodeFailure::Shape),
    }
}

/// The strings of an all-string list field, or `None` on any element of
/// another shape.
pub(crate) fn items_to_strings(items: &Vec<RawItem>) -> (r: Option<Vec<String>>)
    ensures
        r is Some <==> items_all_str(items@),
        r matches Some(v) ==> v@ == items_strs(items@),
{
    let mut out: Vec<String> = Vec::new();
    let mut i: usize = 0;
    while i < items.len()
        invariant
            0 <= i <= items@.len(),
            out@.len() == i,
            forall|j: int| 0 <= j < i ==> (#[trigger] items@[j]) is Str,
            forall|j: int| 0 <= j < i ==> out@[j] == (#[trigger] items@[j])->Str_0,
        decreases items@.len() - i,
    {
        match &items[i] {
            RawItem::Str(s) => {
                out.push(s.clone());
            },
            _ => {
                return None;
            },
        }
        i += 1;
    }
    proof {
        assert(out@ =~= items_strs(items@));
    }
    Some(out)
}

pub(crate) fn get_str_join(rec: &RawRecord, key: &str) -> (r: Result<String, DecodeFailure>)
    ensures
        r is Ok <==> spec_str_join(*rec, key@) is Ok,
        r is Ok ==> r->Ok_0@ == spec_str_join(*rec, key@)->Ok_0,
        r is Err ==> r->Err_0 == spec_str_join(*rec, key@)->Err_0,
{
    match assoc_get(&rec.fields, key) {
        Some(v) => match v {
            RawValue::List(items) => match items_to_strings(items) {
                Some(strs) => Ok(from_string_array_to_box(&strs)),
                None => Err(DecodeFailure::Coercion),
            },
            _ => Err(DecodeFailure::Coercion),
        },
        None => Err(DecodeFailure::Shape),
    }
}

pub(crate) fn get_str_join_opt(rec: &RawRecord, key: &str) -> (r: Result<
    Option<String>,
    DecodeFailure,
>)
    ensures
        r is Ok <==> spec_str_join_opt(*rec, key@) is Ok,
        r is Ok ==> view_opt_str(r->Ok_0) == spec_str_join_opt(*rec, key@)->Ok_0,
        r is Err ==> r->Err_0 == spec_str_join_opt(*rec, key@)->Err_0,
{
    match assoc_get(&rec.fields, key) {
        Some(v) => match v {
            RawValue::List(items) => match items_to_strings(items) {
                Some(strs) => if strs.len() == 0 {
                    Ok(None)
                } else {
                    Ok(Some(from_string_array_to_box(&strs)))
                },
                None => Err(DecodeFailure::Coercion),
            },
            _ => Err(DecodeFailure::Coercion),
        },
        None => Ok(None),
    }
}

pub(crate) fn get_u32_list(rec: &RawRecord, key: &str) -> (r: Result<Vec<u32>, DecodeFailure>)
    ensures
        r is Ok <==> spec_u32_list(*rec, key@) is Ok,
        r is Ok ==> r->Ok_0@ == spec_u32_list(*rec, key@)->Ok_0,
        r is Err ==> r->Err_0 == spec_u32_list(*rec, key@)->Err_0,
{
    match assoc_get(&rec.fields, key) {
        Some(v) => match v {
            RawValue::List(items) => match items_to_strings(items) {
                Some(strs) => match from_string_array_to_u32_box(&strs) {
                    Ok(ids) => Ok(ids),
                    Err(_) => Err(DecodeFailure::Coercion),
                },
                None => Err(DecodeFailure::Coercion),
            },
            _ => Err(DecodeFailure::Coercion),
        },
        None => Err(DecodeFailure::Shape),
    }
}

pub(crate) fn lget_u32(sub: &SubRecord, key: &str) -> (r: Result<u32, DecodeFailure>)
    ensures
        r == spec_leaf_u32(*sub, key@),
{
    match assoc_get(&sub.fields, key) {
        Some(v) => match v {
            RawLeaf::Num(n) => if *n <= u32::MAX as u64 {
                Ok(*n as u32)
            } else {
                Err(DecodeFailure::Shape)
            },
            _ => Err(DecodeFailure::Shape),
        },
        None => Err(DecodeFailure::Shape),
    }
}

pub(crate) fn lget_u8(sub: &SubRecord, key: &str) -> (r: Result<u8, DecodeFailure>)
    ensures
        r == spec_leaf_u8(*sub, key@),
{
    match assoc_get(&sub.fields, key) {
        Some(v) => match v {
            RawLeaf::Num(n) => if *n <= u8::MAX as u64 {
                Ok(*n as u8)
            } else {
                Err(DecodeFailure::Shape)
            },
            _ => Err(DecodeFailure::Shape),
        },
        None => Err(DecodeFailure::Shape),
    }
}

pub(crate) fn lget_str_join(sub: &SubRecord, key: &str) -> (r: Result<String, DecodeFailure>)
    ensures
        r is Ok <==> spec_leaf_str_join(*sub, key@) is Ok,
        r is Ok ==> r->Ok_0@ == spec_leaf_str_join(*sub, key@)->Ok_0,
        r is Err ==> r->Err_0 == spec_leaf_str_join(*sub, key@)->Err_0,
{
    match assoc_get(&sub.fields, key) {
        Some(v) => match v {
            RawLeaf::StrList(items) => Ok(from_string_array_to_box(items)),
            _ => Err(DecodeFailure::Coercion),
        },
        None => Err(DecodeFailure::Shape),
    }
}

pub(crate) fn lget_str_join_opt(sub: &SubRecord, key: &str) -> (r: Result<
    Option<String>,
    DecodeFailure,
>)
    ensures
        r is Ok <==> spec_leaf_str_join_opt(*sub, key@) is Ok,
        r is Ok ==> view_opt_str(r->Ok_0) == spec_leaf_str_join_opt(*sub, key@)->Ok_0,
        r is Err ==> r->Err_0 == spec_leaf_str_join_opt(*sub, key@)->Err_0,
{
    match assoc_get(&sub.fields, key) {
        Some(v) => match v {
            RawLeaf::StrList(items) => if items.len() == 0 {
                Ok(None)
            } else {
                Ok(Some(from_string_array_to_box(items)))
            },
            _ => Err(DecodeFailure::Coercion),
        },
        None => Ok(None),
    }
}

pub(crate) fn lget_u32_str(sub: &SubRecord, key: &str) -> (r: Result<u32, DecodeFailure>)
    ensures
        r == spec_leaf_u32_str(*sub, key@),
{
    match assoc_get(&sub.fields, key) {
        Some(v) => match v {
            RawLeaf::Str(s) => match parse_u32(s.as_str()) {
                Some(n) => Ok(n),
                None => Err(DecodeFailure::Coercion),
            },
            _ => Err(DecodeFailure::Coercion),
        },
        None => Err(DecodeFailure::Shape),
    }
}

pub(crate) fn lget_u32_str_opt(sub: &SubRecord, key: &str) -> (r: Result<
    Option<u32>,
    DecodeFailure,
>)
    ensures
        r == spec_leaf_u32_str_opt(*sub, key@),
{
    match assoc_get(&sub.fields, key) {
        Some(v) => match v {
            RawLeaf::Str(s) => if s.as_str().is_empty() {
                Ok(None)
            } else {
                match parse_u32(s.as_str()) {
                    Some(n) => Ok(Some(n)),
                    None => Err(DecodeFailure::Coercion),
                }
            },
            _ => Err(DecodeFailure::Coercion),
        },
        None => Ok(None),
    }
}

} // verus!
