//! The numeric coercion layer: conversions from a document field's textual
//! encoding into its semantic type. Every conversion failure is a
//! [`StructuralError`]: a document that miscodes a number is rejected as a
//! whole, never partially loaded.

use vstd::prelude::*;
use vstd::string::StrSliceExecFns;
use vstd::string::StringExecFns;

use crate::data::Group;
use crate::error::StructuralError;
use crate::node::Node;
use crate::table::{dedup_last, dedup_pairs};

verus! {

/// Whether `c` is an ASCII decimal digit.
pub open spec fn is_digit(c: char) -> bool {
    48 <= c as u32 && c as u32 <= 57
}

/// The numeric value of one decimal digit.
pub open spec fn digit_val(c: char) -> nat {
    (c as u32 - 48) as nat
}

/// The value of a digit string, read most-significant-digit first.
pub open spec fn digits_val(s: Seq<char>) -> nat
    decreases s.len(),
{
    if s.len() == 0 {
        0
    } else {
        digits_val(s.drop_last()) * 10 + digit_val(s.last())
    }
}

pub open spec fn all_digits(s: Seq<char>) -> bool {
    forall|i: int| 0 <= i < s.len() ==> is_digit(#[trigger] s[i])
}

/// The digits of a decimal integer encoding: everything after an optional
/// leading plus sign.
pub open spec fn digits_body(s: Seq<char>) -> Seq<char> {
    if s.len() > 0 && s[0] == '+' {
        s.drop_first()
    } else {
        s
    }
}

/// The decimal grammar of an unsigned 32-bit integer: an optional leading
/// plus sign, then one or more decimal digits, whose value fits in `u32`.
pub open spec fn parse_u32_spec(s: Seq<char>) -> Option<u32> {
    let body = digits_body(s);
    if body.len() > 0 && all_digits(body) && digits_val(body) <= u32::MAX {
        Some(digits_val(body) as u32)
    } else {
        None
    }
}

/// Extending a digit string on the right can only grow its value.
proof fn lemma_digits_val_take_le(s: Seq<char>, n: int)
    requires
        0 <= n <= s.len(),
    ensures
        digits_val(s.take(n)) <= digits_val(s),
    decreases s.len() - n,
{
    if n == s.len() {
        assert(s.take(n) =~= s);
    } else {
        assert(s.take(n + 1).drop_last() =~= s.take(n));
        assert(digits_val(s.take(n + 1)) == digits_val(s.take(n)) * 10 + digit_val(s.take(n + 1).last()));
        lemma_digits_val_take_le(s, n + 1);
    }
}

/// Whether two string slices hold the same characters.
pub fn str_eq(a: &str, b: &str) -> (r: bool)
    ensures
        r == (a@ == b@),
{
    let la = a.unicode_len();
    let lb = b.unicode_len();
    if la != lb {
        return false;
    }
    let mut i: usize = 0;
    while i < la
        invariant
            0 <= i <= la,
            la == a@.len(),
            la == b@.len(),
            forall|j: int| 0 <= j < i ==> a@[j] == b@[j],
        decreases la - i,
    {
        if a.get_char(i) != b.get_char(i) {
            return false;
        }
        i += 1;
    }
    proof {
        assert(a@ =~= b@);
    }
    true
}

/// Parse a decimal unsigned integer, as the document's stringified numeric
/// fields encode one.
pub fn parse_u32(s: &str) -> (r: Option<u32>)
    ensures
        r == parse_u32_spec(s@),
{
    let n = s.unicode_len();
    let start: usize = if n > 0 && s.get_char(0) == '+' {
        1
    } else {
        0
    };
    let ghost body = digits_body(s@);
    proof {
        assert(body =~= s@.skip(start as int));
    }
    if start >= n {
        return None;
    }
    let mut i: usize = start;
    let mut val: u64 = 0;
    while i < n
        invariant
            start <= i <= n,
            n == s@.len(),
            start < n,
            body == digits_body(s@),
            body == s@.skip(start as int),
            body.len() == n - start,
            all_digits(body.take(i - start)),
            val == digits_val(body.take(i - start)),
            val <= u32::MAX,
        decreases n - i,
    {
        let c = s.get_char(i);
        let cu = c as u32;
        proof {
            assert(body[i - start] == s@[i as int]);
        }
        if cu < 48 || cu > 57 {
            proof {
                assert(0 <= i - start < body.len());
                assert(!is_digit(body[i - start]));
                assert(!all_digits(body));
                assert(parse_u32_spec(s@) is None);
            }
            return None;
        }
        let d: u64 = (cu - 48) as u64;
        let next: u64 = val * 10 + d;
        proof {
            assert(body.take(i - start + 1).drop_last() =~= body.take(i - start));
            assert(body.take(i - start + 1).last() == body[i - start]);
            assert(digits_val(body.take(i - start + 1)) == digits_val(body.take(i - start)) * 10 + digit_val(body[i - start]));
        }
        if next > u32::MAX as u64 {
            proof {
                assert(digits_val(body.take(i - start + 1)) > u32::MAX);
                lemma_digits_val_take_le(body, i - start + 1);
                assert(digits_val(body) > u32::MAX);
                assert(parse_u32_spec(s@) is None);
            }
            return None;
        }
        val = next;
        i += 1;
    }
    proof {
        assert(body.take(n - start) =~= body);
    }
    Some(val as u32)
}

/// The concatenation of a sequence of strings, in order, with no separator.
pub open spec fn join_strs(items: Seq<String>) -> Seq<char>
    decreases items.len(),
{
    if items.len() == 0 {
        Seq::empty()
    } else {
        join_strs(items.drop_last()) + items.last()@
    }
}

/// Coerce a stringified integer field. Failure to parse is fatal to the
/// whole document load.
pub fn from_string_to_u32(s: &str) -> (r: Result<u32, StructuralError>)
    ensures
        r is Ok <==> parse_u32_spec(s@) is Some,
        r is Ok ==> r->Ok_0 == parse_u32_spec(s@).unwrap(),
        r is Err ==> r->Err_0 == StructuralError::BadNumber,
{
    match parse_u32(s) {
        Some(v) => Ok(v),
        None => Err(StructuralError::BadNumber),
    }
}

/// Coerce an optional stringified integer field: the empty string encodes
/// "absent"; anything else must parse.
pub fn from_string_to_u32_option(s: &str) -> (r: Result<Option<u32>, StructuralError>)
    ensures
        s@.len() == 0 ==> r == Ok::<Option<u32>, StructuralError>(None),
        s@.len() != 0 ==> (r is Ok <==> parse_u32_spec(s@) is Some),
        s@.len() != 0 && r is Ok ==> r->Ok_0 == Some(parse_u32_spec(s@).unwrap()),
        r is Err ==> r->Err_0 == StructuralError::BadNumber,
{
    if s.is_empty() {
        return Ok(None);
    }
    match parse_u32(s) {
        Some(v) => Ok(Some(v)),
        None => Err(StructuralError::BadNumber),
    }
}

/// Coerce a string-array field into one concatenated text value. An empty
/// array yields the empty string.
pub fn from_string_array_to_box(items: &Vec<String>) -> (r: String)
    ensures
        r@ == join_strs(items@),
{
    let mut out = String::new();
    let mut i: usize = 0;
    while i < items.len()
        invariant
            0 <= i <= items@.len(),
            out@ == join_strs(items@.take(i as int)),
        decreases items@.len() - i,
    {
        out.append(items[i].as_str());
        proof {
            assert(items@.take(i + 1).drop_last() =~= items@.take(i as int));
            assert(items@.take(i + 1).last() == items@[i as int]);
        }
        i += 1;
    }
    proof {
        assert(items@.take(items@.len() as int) =~= items@);
    }
    out
}

/// The "optional" variant of the concatenation coercion: an empty array
/// signals "absent" instead of the empty string.
pub fn from_string_array_to_box_option(items: &Vec<String>) -> (r: Option<String>)
    ensures
        items@.len() == 0 ==> r is None,
        items@.len() != 0 ==> (r matches Some(s) && s@ == join_strs(items@)),
{
    if items.len() == 0 {
        None
    } else {
        Some(from_string_array_to_box(items))
    }
}

/// Whether every element of a string array parses as a `u32`.
pub open spec fn all_parse_u32(items: Seq<String>) -> bool {
    forall|i: int| 0 <= i < items.len() ==> parse_u32_spec(#[trigger] items[i]@) is Some
}

/// The parsed values of a string array whose elements all parse.
pub open spec fn parsed_u32s(items: Seq<String>) -> Seq<u32> {
    Seq::new(items.len(), |i: int| parse_u32_spec(items[i]@).unwrap())
}

/// Coerce a string-array field into a list of node ids. Any element that
/// fails to parse is fatal to the whole document load.
pub fn from_string_array_to_u32_box(items: &Vec<String>) -> (r: Result<Vec<u32>, StructuralError>)
    ensures
        r is Ok <==> all_parse_u32(items@),
        r is Ok ==> r->Ok_0@ == parsed_u32s(items@),
        r is Err ==> r->Err_0 == StructuralError::BadNumber,
{
    let mut out: Vec<u32> = Vec::new();
    let mut i: usize = 0;
    while i < items.len()
        invariant
            0 <= i <= items@.len(),
            out@.len() == i,
            forall|j: int| 0 <= j < i ==> parse_u32_spec(#[trigger] items@[j]@) is Some,
            forall|j: int| 0 <= j < i ==> out@[j] == parse_u32_spec(#[trigger] items@[j]@).unwrap(),
        decreases items@.len() - i,
    {
        match parse_u32(items[i].as_str()) {
            Some(v) => {
                out.push(v);
            },
            None => {
                return Err(StructuralError::BadNumber);
            },
        }
        i += 1;
    }
    proof {
        assert(out@ =~= parsed_u32s(items@));
    }
    Ok(out)
}

/// The key grammar of the node table: a decimal unsigned integer, or the
/// one reserved textual key `root`, which maps to the numeric id 0.
pub open spec fn node_key_spec(s: Seq<char>) -> Option<u32> {
    if parse_u32_spec(s) is Some {
        parse_u32_spec(s)
    } else if s == "root"@ {
        Some(0)
    } else {
        None
    }
}

/// Coerce the group table's string keys to numeric ids. Any key that fails
/// to parse is fatal; of entries whose keys collide after coercion, the
/// last wins.
pub fn from_string_key_to_u32_with_group(entries: Vec<(String, Group)>) -> (r: Result<
    Vec<(u32, Group)>,
    StructuralError,
>)
    ensures
        r is Ok <==> (forall|i: int|
            0 <= i < entries@.len() ==> parse_u32_spec(
                (#[trigger] entries@[i]).0@,
            ) is Some),
        r is Ok ==> r->Ok_0@ == dedup_last(
            Seq::new(
                entries@.len(),
                |i: int| (parse_u32_spec(entries@[i].0@).unwrap(), entries@[i].1),
            ),
        ),
        r is Err ==> r->Err_0 == StructuralError::BadKey,
{
    let ghost orig = entries@;
    let mut keys: Vec<u32> = Vec::new();
    let mut i: usize = 0;
    while i < entries.len()
        invariant
            entries@ == orig,
            0 <= i <= orig.len(),
            keys@.len() == i,
            forall|j: int| 0 <= j < i ==> parse_u32_spec((#[trigger] orig[j]).0@) is Some,
            forall|j: int|
                0 <= j < i ==> keys@[j] == parse_u32_spec((#[trigger] orig[j]).0@).unwrap(),
        decreases orig.len() - i,
    {
        match parse_u32(entries[i].0.as_str()) {
            Some(k) => {
                keys.push(k);
            },
            None => {
                proof {
                    assert(parse_u32_spec(orig[i as int].0@) is None);
                }
                return Err(StructuralError::BadKey);
            },
        }
        i += 1;
    }
    let out = dedup_pairs(entries, &keys);
    proof {
        assert(Seq::new(orig.len(), |j: int| (keys@[j], orig[j].1)) =~= Seq::new(
            orig.len(),
            |j: int| (parse_u32_spec(orig[j].0@).unwrap(), orig[j].1),
        ));
    }
    Ok(out)
}

/// Coerce the node table's string keys to numeric ids, mapping the
/// reserved key `root` to id 0. Any other unparsable key is fatal; of
/// entries whose keys collide after coercion, the last wins.
pub fn from_string_key_to_u32_with_node(entries: Vec<(String, Node)>) -> (r: Result<
    Vec<(u32, Node)>,
    StructuralError,
>)
    ensures
        r is Ok <==> (forall|i: int|
            0 <= i < entries@.len() ==> node_key_spec((#[trigger] entries@[i]).0@) is Some),
        r is Ok ==> r->Ok_0@ == dedup_last(
            Seq::new(
                entries@.len(),
                |i: int| (node_key_spec(entries@[i].0@).unwrap(), entries@[i].1),
            ),
        ),
        r is Err ==> r->Err_0 == StructuralError::BadKey,
{
    let ghost orig = entries@;
    let mut keys: Vec<u32> = Vec::new();
    let mut i: usize = 0;
    while i < entries.len()
        invariant
            entries@ == orig,
            0 <= i <= orig.len(),
            keys@.len() == i,
            forall|j: int| 0 <= j < i ==> node_key_spec((#[trigger] orig[j]).0@) is Some,
            forall|j: int|
                0 <= j < i ==> keys@[j] == node_key_spec((#[trigger] orig[j]).0@).unwrap(),
        decreases orig.len() - i,
    {
        let k: u32 = match parse_u32(entries[i].0.as_str()) {
            Some(k) => k,
            None => {
                if str_eq(entries[i].0.as_str(), "root") {
                    0
                } else {
                    proof {
                        assert(node_key_spec(orig[i as int].0@) is None);
                    }
                    return Err(StructuralError::BadKey);
                }
            },
        };
        keys.push(k);
        i += 1;
    }
    let out = dedup_pairs(entries, &keys);
    proof {
        assert(Seq::new(orig.len(), |j: int| (keys@[j], orig[j].1)) =~= Seq::new(
            orig.len(),
            |j: int| (node_key_spec(orig[j].0@).unwrap(), orig[j].1),
        ));
    }
    Ok(out)
}

/// The default for an absent optional text field.
pub fn default_box_box_str_none() -> (r: Option<String>)
    ensures
        r is None,
{
    None
}

/// The default for an absent optional numeric field.
pub fn defualt_u32_none() -> (r: Option<u32>)
    ensures
        r is None,
{
    None
}

/// The default for an absent boolean marker field.
pub fn default_bool() -> (r: bool)
    ensures
        r == false,
{
    false
}

/// The default for an absent small numeric field.
pub fn default_u8() -> (r: u8)
    ensures
        r == 0,
{
    0
}

} // verus!
