//! Decimal text of integers, as the TWS wire protocol writes and reads them.
use vstd::prelude::*;

verus! {

/// The character for a decimal digit `d` (0..=9).
pub open spec fn digit_char(d: int) -> char {
    ('0' as int + d) as char
}

pub open spec fn is_digit(c: char) -> bool {
    '0' <= c <= '9'
}

pub open spec fn all_digits(s: Seq<char>) -> bool {
    forall|i: int| 0 <= i < s.len() ==> is_digit(#[trigger] s[i])
}

/// Decimal text of a natural number, without leading zeros.
pub open spec fn nat_text(n: nat) -> Seq<char>
    decreases n,
{
    if n < 10 {
        seq![digit_char(n as int)]
    } else {
        nat_text(n / 10).push(digit_char((n % 10) as int))
    }
}

/// Decimal text of an integer: a minus sign for negative values, then the digits.
pub open spec fn int_text(n: int) -> Seq<char> {
    if n < 0 {
        seq!['-'] + nat_text((-n) as nat)
    } else {
        nat_text(n as nat)
    }
}

/// Value of a run of decimal digits.
pub open spec fn digits_value(s: Seq<char>) -> int
    decreases s.len(),
{
    if s.len() == 0 {
        0
    } else {
        10 * digits_value(s.drop_last()) + (s.last() as int - '0' as int)
    }
}

/// The integer that a decimal text denotes: an optional `+` or `-`, then at least one digit.
/// `None` for any other text.
pub open spec fn decimal_value(s: Seq<char>) -> Option<int> {
    if s.len() > 0 && (s[0] == '+' || s[0] == '-') {
        let body = s.drop_first();
        if body.len() > 0 && all_digits(body) {
            Some(if s[0] == '-' { -digits_value(body) } else { digits_value(body) })
        } else {
            None
        }
    } else if s.len() > 0 && all_digits(s) {
        Some(digits_value(s))
    } else {
        None
    }
}

/// What parsing `s` as an integer of the range `lo..=hi` gives: the decimal value when the
/// text is well formed and the value fits, else `None`.
pub open spec fn parse_in_range(s: Seq<char>, lo: int, hi: int) -> Option<int> {
    match decimal_value(s) {
        Some(v) => if lo <= v <= hi { Some(v) } else { None },
        None => None,
    }
}

pub open spec fn parse_i32_text(s: Seq<char>) -> Option<int> {
    parse_in_range(s, i32::MIN as int, i32::MAX as int)
}

pub open spec fn parse_i64_text(s: Seq<char>) -> Option<int> {
    parse_in_range(s, i64::MIN as int, i64::MAX as int)
}

/// The text of a boolean as Rust displays it.
pub open spec fn bool_text(b: bool) -> Seq<char> {
    if b { seq!['t', 'r', 'u', 'e'] } else { seq!['f', 'a', 'l', 's', 'e'] }
}

pub proof fn lemma_nat_text_digits(n: nat)
    ensures
        nat_text(n).len() > 0,
        all_digits(nat_text(n)),
        digits_value(nat_text(n)) == n,
        n > 0 ==> nat_text(n)[0] != '0',
    decreases n,
{
    if n < 10 {
        assert(nat_text(n).drop_last() =~= Seq::<char>::empty());
        assert(digits_value(Seq::<char>::empty()) == 0);
        assert(digit_char(n as int) as int == '0' as int + n);
    } else {
        lemma_nat_text_digits(n / 10);
        let t = nat_text(n);
        assert(t.drop_last() =~= nat_text(n / 10));
        assert(t[0] == nat_text(n / 10)[0]);
        let d = (n % 10) as int;
        assert(t.last() == digit_char(d));
        assert(digit_char(d) as int == '0' as int + d);
        assert(digits_value(t) == 10 * digits_value(t.drop_last()) + d);
        assert(10 * (n / 10) + d == n);
        assert forall|i: int| 0 <= i < t.len() implies is_digit(#[trigger] t[i]) by {
            if i < t.len() - 1 {
                assert(t[i] == nat_text(n / 10)[i]);
            }
        }
    }
}

pub proof fn lemma_digits_value_prefix(s: Seq<char>, i: int)
    requires
        all_digits(s),
        0 <= i <= s.len(),
    ensures
        0 <= digits_value(s.take(i)) <= digits_value(s),
    decreases s.len(),
{
    if i == s.len() {
        assert(s.take(i) =~= s);
        lemma_digits_value_nonneg(s);
    } else {
        let p = s.drop_last();
        assert(all_digits(p));
        lemma_digits_value_prefix(p, i);
        assert(p.take(i) =~= s.take(i));
        lemma_digits_value_nonneg(p);
    }
}

pub proof fn lemma_digits_value_nonneg(s: Seq<char>)
    requires
        all_digits(s),
    ensures
        0 <= digits_value(s),
    decreases s.len(),
{
    if s.len() > 0 {
        assert(all_digits(s.drop_last()));
        lemma_digits_value_nonneg(s.drop_last());
        assert(is_digit(s[s.len() - 1]));
    }
}

/// The decimal text of an integer holds digits and perhaps a leading minus, never NUL.
pub proof fn lemma_int_text_no_nul(n: int)
    ensures
        forall|i: int| 0 <= i < int_text(n).len() ==> int_text(n)[i] != '\0',
{
    if n < 0 {
        let m = (-n) as nat;
        lemma_nat_text_digits(m);
        let s = int_text(n);
        assert forall|i: int| 0 <= i < s.len() implies s[i] != '\0' by {
            if i > 0 {
                assert(s[i] == nat_text(m)[i - 1]);
                assert(is_digit(nat_text(m)[i - 1]));
            }
        }
    } else {
        lemma_nat_text_digits(n as nat);
        let s = nat_text(n as nat);
        assert forall|i: int| 0 <= i < s.len() implies s[i] != '\0' by {
            assert(is_digit(s[i]));
        }
    }
}

/// The decimal text of any integer reads back as that integer.
pub proof fn lemma_decimal_roundtrip(n: int)
    ensures
        decimal_value(int_text(n)) == Some(n),
{
    if n < 0 {
        let m = (-n) as nat;
        lemma_nat_text_digits(m);
        let s = int_text(n);
        assert(s.drop_first() =~= nat_text(m));
    } else {
        lemma_nat_text_digits(n as nat);
        let t = nat_text(n as nat);
        assert(is_digit(t[0]));
    }
}

/// Parsing the text that `format_i32` writes gives back the number.
pub proof fn law_i32_text_roundtrip(n: i32)
    ensures
        parse_i32_text(int_text(n as int)) == Some(n as int),
{
    lemma_decimal_roundtrip(n as int);
}

/// Parsing the text that `format_i64` writes gives back the number.
pub proof fn law_i64_text_roundtrip(n: i64)
    ensures
        parse_i64_text(int_text(n as int)) == Some(n as int),
{
    lemma_decimal_roundtrip(n as int);
}

/// `String::push`: appends `c` to the text of `s`.
#[verifier::external_body]
pub(crate) fn string_push(s: &mut String, c: char)
    ensures
        final(s)@ == old(s)@.push(c),
{
    s.push(c);
}

pub(crate) fn chars_of(s: &str) -> (r: Vec<char>)
    ensures
        r@ == s@,
{
    let mut r: Vec<char> = Vec::new();
    for c in it: s.chars()
        invariant
            r@ == it.seq().take(it.index()),
    {
        r.push(c);
    }
    r
}

fn digit(d: u128) -> (c: char)
    requires
        d < 10,
    ensures
        c == digit_char(d as int),
{
    match d {
        0 => '0',
        1 => '1',
        2 => '2',
        3 => '3',
        4 => '4',
        5 => '5',
        6 => '6',
        7 => '7',
        8 => '8',
        _ => '9',
    }
}

/// Appends the decimal text of the magnitude `n` to `out`.
fn push_nat_text(out: &mut String, n: u128)
    ensures
        final(out)@ == old(out)@ + nat_text(n as nat),
    decreases n,
{
    if n < 10 {
        string_push(out, digit(n));
    } else {
        push_nat_text(out, n / 10);
        string_push(out, digit(n % 10));
    }
}

/// Appends the decimal text of `n` to `out`.
pub(crate) fn push_int_text(out: &mut String, n: i64)
    ensures
        final(out)@ == old(out)@ + int_text(n as int),
{
    if n < 0 {
        string_push(out, '-');
        let m: u128 = (0i128 - n as i128) as u128;
        push_nat_text(out, m);
        assert(final(out)@ =~= old(out)@ + int_text(n as int));
    } else {
        push_nat_text(out, n as u128);
    }
}

/// Appends the text of `b` (`true` or `false`) to `out`.
pub(crate) fn push_bool_text(out: &mut String, b: bool)
    ensures
        final(out)@ == old(out)@ + bool_text(b),
{
    proof {
        reveal_strlit("true");
        reveal_strlit("false");
    }
    if b {
        out.append("true");
    } else {
        out.append("false");
    }
    assert(out@ =~= old(out)@ + bool_text(b));
}

/// The decimal text of `n`, as `i32::to_string` writes it.
pub fn format_i32(n: i32) -> (r: String)
    ensures
        r@ == int_text(n as int),
{
    let mut r = String::new();
    push_int_text(&mut r, n as i64);
    assert(r@ =~= int_text(n as int));
    r
}

/// The decimal text of `n`, as `i64::to_string` writes it.
pub fn format_i64(n: i64) -> (r: String)
    ensures
        r@ == int_text(n as int),
{
    let mut r = String::new();
    push_int_text(&mut r, n);
    assert(r@ =~= int_text(n as int));
    r
}

/// Parses a decimal integer in the range `lo..=hi`.
fn parse_decimal(cs: &Vec<char>, lo: i128, hi: i128) -> (r: Option<i128>)
    requires
        lo <= 0 <= hi,
        hi <= 0x1_0000_0000_0000_0000,
        -lo <= 0x1_0000_0000_0000_0000,
    ensures
        r matches Some(v) ==> parse_in_range(cs@, lo as int, hi as int) == Some(v as int),
        r is None ==> parse_in_range(cs@, lo as int, hi as int) is None,
{
    let ghost s = cs@;
    let len = cs.len();
    if len == 0 {
        return None;
    }
    let first = cs[0];
    let signed = first == '+' || first == '-';
    let neg = first == '-';
    let start: usize = if signed { 1 } else { 0 };
    if start == len {
        return None;
    }
    let ghost body = s.skip(start as int);
    assert(signed ==> body =~= s.drop_first());
    assert(!signed ==> body =~= s);
    let limit: u128 = if neg { (0 - lo) as u128 } else { hi as u128 };
    let mut acc: u128 = 0;
    let mut i: usize = start;
    while i < len
        invariant
            start <= i <= len,
            len == s.len(),
            cs@ == s,
            body == s.skip(start as int),
            start < len,
            signed == (s[0] == '+' || s[0] == '-'),
            neg == (s[0] == '-'),
            signed ==> start == 1,
            !signed ==> start == 0,
            lo <= 0 <= hi,
            limit == (if neg { -lo } else { hi as int }),
            limit <= 0x1_0000_0000_0000_0000,
            all_digits(body.take(i - start)),
            acc == digits_value(body.take(i - start)),
            acc <= limit,
        decreases len - i,
    {
        let c = cs[i];
        if !('0' <= c && c <= '9') {
            proof {
                assert(body[i - start] == c);
                assert(!is_digit(body[i - start]));
                assert(!all_digits(body));
                if signed {
                    assert(s.drop_first() =~= body);
                    assert(decimal_value(s) is None);
                } else {
                    assert(decimal_value(s) is None);
                }
            }
            return None;
        }
        let d: u128 = (c as u32 - '0' as u32) as u128;
        let next = acc * 10 + d;
        proof {
            let t = body.take(i - start + 1);
            assert(t.drop_last() =~= body.take(i - start));
            assert(t.last() == c);
            assert(all_digits(t));
        }
        if next > limit {
            proof {
                let k = i - start + 1;
                assert(digits_value(body.take(k)) == next);
                if signed {
                    assert(s.drop_first() =~= body);
                } else {
                    assert(s =~= body);
                }
                if all_digits(body) {
                    lemma_digits_value_prefix(body, k);
                    assert(digits_value(body) > limit);
                    if signed {
                        assert(s.drop_first() =~= body);
                    }
                }
                assert(parse_in_range(s, lo as int, hi as int) is None);
            }
            return None;
        }
        acc = next;
        i = i + 1;
    }
    proof {
        assert(body.take(len - start) =~= body);
    }
    if neg {
        Some(0 - acc as i128)
    } else {
        Some(acc as i128)
    }
}

/// Parses `s` as an `i32` the way `str::parse::<i32>` does.
pub fn parse_i32(s: &str) -> (r: Option<i32>)
    ensures
        r matches Some(v) ==> parse_i32_text(s@) == Some(v as int),
        r is None ==> parse_i32_text(s@) is None,
{
    let cs = chars_of(s);
    match parse_decimal(&cs, i32::MIN as i128, i32::MAX as i128) {
        Some(v) => Some(v as i32),
        None => None,
    }
}

/// Parses `s` as an `i64` the way `str::parse::<i64>` does.
pub fn parse_i64(s: &str) -> (r: Option<i64>)
    ensures
        r matches Some(v) ==> parse_i64_text(s@) == Some(v as int),
        r is None ==> parse_i64_text(s@) is None,
{
    let cs = chars_of(s);
    match parse_decimal(&cs, i64::MIN as i128, i64::MAX as i128) {
        Some(v) => Some(v as i64),
        None => None,
    }
}

} // verus!
