//! Reading typed values from the fields of an incoming message.
use vstd::prelude::*;
use vstd::std_specs::iter::IteratorSpec;

use std::slice::Iter;

use crate::common::UNSET_INTEGER;
use crate::decimal::{
    int_text, law_i32_text_roundtrip, law_i64_text_roundtrip, parse_i32, parse_i32_text, parse_i64,
    parse_i64_text,
};
use crate::messages::bool_field_text;
use crate::errors::IBKRApiLibError;

verus! {

/// The texts of the fields that an iterator has not handed out yet, given what remains in it.
pub open spec fn fields_left(remaining: Seq<&String>) -> Seq<Seq<char>> {
    remaining.map_values(|f: &String| f@)
}

/// The `i32` that a field holds; text that is not an `i32` reads as 0.
pub open spec fn field_i32(t: Seq<char>) -> i32 {
    match parse_i32_text(t) {
        Some(v) => v as i32,
        None => 0,
    }
}

/// Like `field_i32`, but 0 reads as unset.
pub open spec fn field_i32_show_unset(t: Seq<char>) -> i32 {
    if field_i32(t) == 0 { UNSET_INTEGER } else { field_i32(t) }
}

/// The `i64` that a field holds; text that is not an `i64` reads as 0.
pub open spec fn field_i64(t: Seq<char>) -> i64 {
    match parse_i64_text(t) {
        Some(v) => v as i64,
        None => 0,
    }
}

/// The boolean that a field holds: whether it reads as a non-zero `i32`.
pub open spec fn field_bool(t: Seq<char>) -> bool {
    field_i32(t) != 0
}

/// A field written for an `i32` (`make_field_i32`) reads back as that `i32`.
pub proof fn law_field_i32_roundtrip(n: i32)
    ensures
        field_i32(int_text(n as int)) == n,
{
    law_i32_text_roundtrip(n);
}

/// A field written for an `i64` (`make_field_i64`) reads back as that `i64`.
pub proof fn law_field_i64_roundtrip(n: i64)
    ensures
        field_i64(int_text(n as int)) == n,
{
    law_i64_text_roundtrip(n);
}

/// A field written for a boolean (`make_field_bool`) reads back as that boolean.
pub proof fn law_field_bool_roundtrip(b: bool)
    ensures
        field_bool(bool_field_text(b)) == b,
{
    law_i32_text_roundtrip(if b { 1 } else { 0 });
}

/// `Iterator::next` on a slice iterator: the next field, which it no longer holds.
#[verifier::external_body]
pub(crate) fn next_field<'a>(iter: &mut Iter<'a, String>) -> (r: Option<&'a String>)
    ensures
        (*old(iter)).remaining().len() > 0 ==> r == Some((*old(iter)).remaining()[0])
            && (*final(iter)).remaining() == (*old(iter)).remaining().drop_first(),
        (*old(iter)).remaining().len() == 0 ==> r is None && (*final(iter)).remaining()
            == (*old(iter)).remaining(),
{
    iter.next()
}

pub fn decode_i32(iter: &mut Iter<String>) -> (r: Result<i32, IBKRApiLibError>)
    requires
        fields_left((*old(iter)).remaining()).len() > 0,
    ensures
        r == Ok::<i32, IBKRApiLibError>(field_i32(fields_left((*old(iter)).remaining())[0])),
        fields_left((*final(iter)).remaining()) == fields_left((*old(iter)).remaining()).drop_first(),
{
    let next = next_field(iter);
    let text = next.unwrap();
    let val: i32 = match parse_i32(text.as_str()) {
        Some(v) => v,
        None => 0,
    };
    assert(fields_left((*final(iter)).remaining()) =~= fields_left((*old(iter)).remaining()).drop_first());
    Ok(val)
}

pub fn decode_i32_show_unset(iter: &mut Iter<String>) -> (r: Result<i32, IBKRApiLibError>)
    requires
        fields_left((*old(iter)).remaining()).len() > 0,
    ensures
        r == Ok::<i32, IBKRApiLibError>(field_i32_show_unset(fields_left((*old(iter)).remaining())[0])),
        fields_left((*final(iter)).remaining()) == fields_left((*old(iter)).remaining()).drop_first(),
{
    let retval = decode_i32(iter)?;
    Ok(if retval == 0 { UNSET_INTEGER } else { retval })
}

pub fn decode_i64(iter: &mut Iter<String>) -> (r: Result<i64, IBKRApiLibError>)
    requires
        fields_left((*old(iter)).remaining()).len() > 0,
    ensures
        r == Ok::<i64, IBKRApiLibError>(field_i64(fields_left((*old(iter)).remaining())[0])),
        fields_left((*final(iter)).remaining()) == fields_left((*old(iter)).remaining()).drop_first(),
{
    let next = next_field(iter);
    let text = next.unwrap();
    let val: i64 = match parse_i64(text.as_str()) {
        Some(v) => v,
        None => 0,
    };
    assert(fields_left((*final(iter)).remaining()) =~= fields_left((*old(iter)).remaining()).drop_first());
    Ok(val)
}

pub fn decode_string(iter: &mut Iter<String>) -> (r: Result<String, IBKRApiLibError>)
    requires
        fields_left((*old(iter)).remaining()).len() > 0,
    ensures
        r matches Ok(s) && s@ == fields_left((*old(iter)).remaining())[0],
        fields_left((*final(iter)).remaining()) == fields_left((*old(iter)).remaining()).drop_first(),
{
    let next = next_field(iter);
    let val = next.unwrap().clone();
    assert(fields_left((*final(iter)).remaining()) =~= fields_left((*old(iter)).remaining()).drop_first());
    Ok(val)
}

/// Reads a boolean; when no field is left it reads as `false`.
pub fn decode_bool(iter: &mut Iter<String>) -> (r: Result<bool, IBKRApiLibError>)
    ensures
        fields_left((*old(iter)).remaining()).len() > 0 ==> r == Ok::<bool, IBKRApiLibError>(field_bool(fields_left((*old(iter)).remaining())[0]))
            && fields_left((*final(iter)).remaining()) == fields_left((*old(iter)).remaining()).drop_first(),
        fields_left((*old(iter)).remaining()).len() == 0 ==> r == Ok::<bool, IBKRApiLibError>(false)
            && fields_left((*final(iter)).remaining()) == fields_left((*old(iter)).remaining()),
{
    let next = next_field(iter);
    let retval: i32 = match next {
        Some(text) => match parse_i32(text.as_str()) {
            Some(v) => v,
            None => 0,
        },
        None => 0,
    };
    assert(fields_left((*final(iter)).remaining()) =~= if fields_left((*old(iter)).remaining()).len() > 0 {
        fields_left((*old(iter)).remaining()).drop_first()
    } else {
        fields_left((*old(iter)).remaining())
    });
    Ok(retval != 0)
}

} // verus!
