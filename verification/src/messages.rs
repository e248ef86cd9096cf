//! The wire format between the client and TWS: NUL-terminated text fields, gathered into
//! messages that carry a four-byte big-endian length prefix.
use vstd::prelude::*;
use vstd::utf8::{decode_utf8, encode_utf8, encode_utf8_decode_utf8, valid_utf8};

use crate::decimal::{chars_of, int_text, push_int_text, string_push};
use crate::errors::{api_error, is_api_error, IBKRApiLibError, TwsError};

verus! {

/// The text of a field on the wire: its value, then a NUL.
pub open spec fn field_spec(text: Seq<char>) -> Seq<char> {
    text.push('\0')
}

/// The text of a boolean field: `1` or `0`.
pub open spec fn bool_field_text(b: bool) -> Seq<char> {
    int_text(if b { 1 } else { 0 })
}

pub open spec fn has_no_nul(s: Seq<char>) -> bool {
    forall|i: int| 0 <= i < s.len() ==> s[i] != '\0'
}

/// The values of a sequence of strings.
pub open spec fn texts(v: Seq<String>) -> Seq<Seq<char>> {
    v.map_values(|f: String| f@)
}

/// Fields terminated by NUL in `s`, where `cur` holds the text of the field being read.
/// Text after the last NUL is dropped.
pub open spec fn fields_from(s: Seq<char>, cur: Seq<char>) -> Seq<Seq<char>>
    decreases s.len(),
{
    if s.len() == 0 {
        seq![]
    } else if s[0] == '\0' {
        seq![cur] + fields_from(s.drop_first(), seq![])
    } else {
        fields_from(s.drop_first(), cur.push(s[0]))
    }
}

/// The fields of a message text.
pub open spec fn split_fields(s: Seq<char>) -> Seq<Seq<char>> {
    fields_from(s, seq![])
}

/// The text of a sequence of fields, each followed by NUL.
pub open spec fn join_fields(fs: Seq<Seq<char>>) -> Seq<char>
    decreases fs.len(),
{
    if fs.len() == 0 {
        seq![]
    } else {
        field_spec(fs[0]) + join_fields(fs.drop_first())
    }
}

/// Four bytes holding `n` in big-endian order.
pub open spec fn be32(n: nat) -> Seq<u8> {
    seq![(n / 16777216 % 256) as u8, (n / 65536 % 256) as u8, (n / 256 % 256) as u8, (n % 256) as u8]
}

/// The number that four big-endian bytes hold.
pub open spec fn be32_value(b: Seq<u8>) -> nat {
    (b[0] as nat) * 16777216 + (b[1] as nat) * 65536 + (b[2] as nat) * 256 + (b[3] as nat)
}

/// A framed message: the byte length of the UTF-8 text, then the text.
pub open spec fn frame(text: Seq<char>) -> Seq<u8> {
    be32(encode_utf8(text).len()) + encode_utf8(text)
}

/// What reading one message off the front of `b` gives: the announced size, the text and the
/// bytes that follow when the message is complete; the size, no text and all of `b` when it is
/// not (fewer than four bytes give size 0); `None` when a complete payload is not UTF-8.
pub open spec fn read_msg_spec(b: Seq<u8>) -> Option<(nat, Seq<char>, Seq<u8>)> {
    if b.len() < 4 {
        Some((0, seq![], b))
    } else {
        let size = be32_value(b);
        if b.len() - 4 >= size {
            let payload = b.subrange(4, 4 + size as int);
            if valid_utf8(payload) {
                Some((size, decode_utf8(payload), b.subrange(4 + size as int, b.len() as int)))
            } else {
                None
            }
        } else {
            Some((size, seq![], b))
        }
    }
}

/// Field of a string value.
pub fn make_field_str(val: &str) -> (r: String)
    ensures
        r@ == field_spec(val@),
{
    let mut r = val.to_owned();
    string_push(&mut r, '\0');
    r
}

/// Field of an `i32` value.
pub fn make_field_i32(val: i32) -> (r: String)
    ensures
        r@ == field_spec(int_text(val as int)),
{
    let mut r = String::new();
    push_int_text(&mut r, val as i64);
    string_push(&mut r, '\0');
    assert(r@ =~= field_spec(int_text(val as int)));
    r
}

/// Field of an `i64` value.
pub fn make_field_i64(val: i64) -> (r: String)
    ensures
        r@ == field_spec(int_text(val as int)),
{
    let mut r = String::new();
    push_int_text(&mut r, val);
    string_push(&mut r, '\0');
    assert(r@ =~= field_spec(int_text(val as int)));
    r
}

/// Field of a boolean value, written as the integer 1 or 0.
pub fn make_field_bool(val: bool) -> (r: String)
    ensures
        r@ == field_spec(bool_field_text(val)),
{
    make_field_i32(if val { 1 } else { 0 })
}

/// Splits a message text into its NUL-terminated fields; text after the last NUL is dropped.
pub fn read_fields(buf: &str) -> (r: Vec<String>)
    ensures
        texts(r@) == split_fields(buf@),
{
    let cs = chars_of(buf);
    let mut r: Vec<String> = Vec::new();
    let mut cur = String::new();
    let mut i: usize = 0;
    assert(cs@.skip(0) =~= cs@);
    while i < cs.len()
        invariant
            0 <= i <= cs.len(),
            cs@ == buf@,
            texts(r@) + fields_from(cs@.skip(i as int), cur@) == split_fields(buf@),
        decreases cs.len() - i,
    {
        let c = cs[i];
        let ghost rest = cs@.skip(i as int);
        assert(rest.drop_first() =~= cs@.skip(i + 1));
        if c == '\0' {
            let ghost old_r = r@;
            r.push(cur);
            cur = String::new();
            proof {
                assert(texts(r@) =~= texts(old_r) + seq![r@.last()@]);
            }
        } else {
            string_push(&mut cur, c);
        }
        i = i + 1;
    }
    assert(cs@.skip(i as int) =~= Seq::<char>::empty());
    assert(texts(r@) + Seq::<Seq<char>>::empty() =~= texts(r@));
    r
}

/// The four big-endian bytes of `n`.
fn be32_bytes(n: u32) -> (r: Vec<u8>)
    ensures
        r@ == be32(n as nat),
{
    let mut r: Vec<u8> = Vec::new();
    r.push((n / 16777216 % 256) as u8);
    r.push((n / 65536 % 256) as u8);
    r.push((n / 256 % 256) as u8);
    r.push((n % 256) as u8);
    assert(r@ =~= be32(n as nat));
    r
}

/// Frames a message text: its byte length as four big-endian bytes, then its UTF-8 bytes.
pub fn make_message(text: &str) -> (r: Vec<u8>)
    requires
        encode_utf8(text@).len() <= u32::MAX,
    ensures
        r@ == frame(text@),
{
    let bytes = text.as_bytes();
    let mut r = be32_bytes(bytes.len() as u32);
    let mut i: usize = 0;
    while i < bytes.len()
        invariant
            0 <= i <= bytes.len(),
            bytes@ == encode_utf8(text@),
            r@ == be32(bytes@.len()) + bytes@.take(i as int),
        decreases bytes.len() - i,
    {
        r.push(bytes[i]);
        i = i + 1;
        assert(r@ =~= be32(bytes@.len()) + bytes@.take(i as int));
    }
    assert(bytes@.take(i as int) =~= bytes@);
    r
}

/// `String::from_utf8`: the text that the bytes hold when they are valid UTF-8.
#[verifier::external_body]
fn string_from_utf8(bytes: Vec<u8>) -> (r: Option<String>)
    ensures
        r is Some <==> valid_utf8(bytes@),
        r matches Some(s) ==> s@ == decode_utf8(bytes@),
{
    String::from_utf8(bytes).ok()
}

fn copy_range(b: &[u8], from: usize, to: usize) -> (r: Vec<u8>)
    requires
        from <= to <= b@.len(),
    ensures
        r@ == b@.subrange(from as int, to as int),
{
    let mut r: Vec<u8> = Vec::new();
    let mut i = from;
    while i < to
        invariant
            from <= i <= to <= b@.len(),
            r@ == b@.subrange(from as int, i as int),
        decreases to - i,
    {
        r.push(b[i]);
        i = i + 1;
        assert(r@ =~= b@.subrange(from as int, i as int));
    }
    r
}

/// Reads one message off the front of `buf`: its announced size, its text and the bytes that
/// follow. When the message is not complete yet, the text is empty and all of `buf` is
/// handed back. A complete payload that is not UTF-8 is the error `BadMessage`.
pub fn read_msg(buf: &[u8]) -> (r: Result<(usize, String, Vec<u8>), IBKRApiLibError>)
    ensures
        match r {
            Ok((size, text, rest)) => read_msg_spec(buf@) == Some((size as nat, text@, rest@)),
            Err(e) => read_msg_spec(buf@) is None && is_api_error(e, -1, TwsError::BadMessage),
        },
{
    if buf.len() < 4 {
        return Ok((0, String::new(), copy_range(buf, 0, buf.len())));
    }
    let size: u64 = buf[0] as u64 * 16777216 + buf[1] as u64 * 65536 + buf[2] as u64 * 256 + buf[3] as u64;
    if (buf.len() - 4) as u64 >= size {
        let end = 4 + size as usize;
        let payload = copy_range(buf, 4, end);
        match string_from_utf8(payload) {
            Some(text) => Ok((size as usize, text, copy_range(buf, end, buf.len()))),
            None => Err(api_error(-1, TwsError::BadMessage)),
        }
    } else {
        Ok((size as usize, String::new(), copy_range(buf, 0, buf.len())))
    }
}

// ---------------------------------------------------------------------------------------------
// Laws of the wire format
pub proof fn lemma_fields_from_field(t: Seq<char>, rest: Seq<char>, cur: Seq<char>)
    requires
        has_no_nul(t),
    ensures
        fields_from(field_spec(t) + rest, cur) == seq![cur + t] + fields_from(rest, seq![]),
    decreases t.len(),
{
    let s = field_spec(t) + rest;
    if t.len() == 0 {
        assert(s.drop_first() =~= rest);
        assert(cur + t =~= cur);
    } else {
        assert(s[0] == t[0]);
        let t2 = t.drop_first();
        assert(s.drop_first() =~= field_spec(t2) + rest);
        lemma_fields_from_field(t2, rest, cur.push(t[0]));
        assert(cur.push(t[0]) + t2 =~= cur + t);
    }
}

/// Splitting the text of joined fields gives the fields back, when no field holds a NUL.
pub proof fn law_split_join_fields(fs: Seq<Seq<char>>)
    requires
        forall|i: int| 0 <= i < fs.len() ==> has_no_nul(#[trigger] fs[i]),
    ensures
        split_fields(join_fields(fs)) == fs,
    decreases fs.len(),
{
    if fs.len() > 0 {
        let rest = fs.drop_first();
        assert forall|i: int| 0 <= i < rest.len() implies has_no_nul(#[trigger] rest[i]) by {
            assert(rest[i] == fs[i + 1]);
        }
        law_split_join_fields(rest);
        lemma_fields_from_field(fs[0], join_fields(rest), seq![]);
        assert(Seq::<char>::empty() + fs[0] =~= fs[0]);
        assert(seq![fs[0]] + rest =~= fs);
    }
}

/// Reading a framed message off the front of a buffer gives back its size, its text and the
/// bytes that follow it.
pub proof fn law_read_framed_message(text: Seq<char>, rest: Seq<u8>)
    requires
        encode_utf8(text).len() <= u32::MAX,
    ensures
        read_msg_spec(frame(text) + rest) == Some((encode_utf8(text).len(), text, rest)),
{
    let bytes = encode_utf8(text);
    let n = bytes.len();
    let b = frame(text) + rest;
    assert(be32_value(b) == n) by {
        assert(b[0] == (n / 16777216 % 256) as u8);
        assert(b[1] == (n / 65536 % 256) as u8);
        assert(b[2] == (n / 256 % 256) as u8);
        assert(b[3] == (n % 256) as u8);
    }
    assert(b.subrange(4, 4 + n as int) =~= bytes);
    assert(b.subrange(4 + n as int, b.len() as int) =~= rest);
    vstd::utf8::encode_utf8_valid_utf8(text);
    encode_utf8_decode_utf8(text);
}

} // verus!

verus! {

/// Texts written one after the other.
pub open spec fn concat_all(ts: Seq<Seq<char>>) -> Seq<char>
    decreases ts.len(),
{
    if ts.len() == 0 {
        seq![]
    } else {
        ts[0] + concat_all(ts.drop_first())
    }
}

/// Appending one more text to texts written one after the other appends it to their text.
proof fn lemma_concat_all_push(ts: Seq<Seq<char>>, t: Seq<char>)
    ensures
        concat_all(ts.push(t)) == concat_all(ts) + t,
    decreases ts.len(),
{
    if ts.len() == 0 {
        assert(ts.push(t).drop_first() =~= Seq::<Seq<char>>::empty());
        assert(concat_all(ts.push(t).drop_first()) == Seq::<char>::empty());
        assert(ts.push(t)[0] == t);
        assert(concat_all(ts.push(t)) =~= t);
        assert(concat_all(ts) + t =~= t);
    } else {
        assert(ts.push(t).drop_first() =~= ts.drop_first().push(t));
        lemma_concat_all_push(ts.drop_first(), t);
        assert(concat_all(ts.push(t)) =~= concat_all(ts) + t);
    }
}

/// Joins written fields (such as those that `make_fields` gives) into one message text.
pub fn concat_fields(v: &Vec<String>) -> (r: String)
    ensures
        r@ == concat_all(texts(v@)),
{
    let mut r = String::new();
    let mut i: usize = 0;
    assert(texts(v@).take(0) =~= Seq::<Seq<char>>::empty());
    while i < v.len()
        invariant
            i <= v@.len(),
            r@ == concat_all(texts(v@).take(i as int)),
        decreases v@.len() - i,
    {
        r.append(v[i].as_str());
        proof {
            lemma_concat_all_push(texts(v@).take(i as int), v@[i as int]@);
            assert(texts(v@).take(i + 1) =~= texts(v@).take(i as int).push(v@[i as int]@));
        }
        i = i + 1;
    }
    assert(texts(v@).take(v@.len() as int) =~= texts(v@));
    r
}

/// Fields each followed by NUL, written one after the other, are the joined text of the
/// fields.
pub proof fn law_concat_of_fields_is_join(fs: Seq<Seq<char>>)
    ensures
        concat_all(fs.map_values(|t: Seq<char>| field_spec(t))) == join_fields(fs),
    decreases fs.len(),
{
    if fs.len() > 0 {
        law_concat_of_fields_is_join(fs.drop_first());
        assert(fs.map_values(|t: Seq<char>| field_spec(t)).drop_first() =~= fs.drop_first().map_values(
            |t: Seq<char>| field_spec(t),
        ));
    }
}

} // verus!
