//! Small text helpers: decimal rendering and parsing of 64-bit integers,
//! character-level string handling.

use vstd::prelude::*;

verus! {

/// The decimal digit character for a value below ten.
pub open spec fn dec_digit(d: u64) -> char
    recommends
        d < 10,
{
    if d == 0 {
        '0'
    } else if d == 1 {
        '1'
    } else if d == 2 {
        '2'
    } else if d == 3 {
        '3'
    } else if d == 4 {
        '4'
    } else if d == 5 {
        '5'
    } else if d == 6 {
        '6'
    } else if d == 7 {
        '7'
    } else if d == 8 {
        '8'
    } else {
        '9'
    }
}

/// The canonical decimal rendering of `n`: no sign, no leading zeros.
pub open spec fn spec_digits(n: u64) -> Seq<char>
    decreases n,
{
    if n < 10 {
        seq![dec_digit(n)]
    } else {
        spec_digits(n / 10).push(dec_digit(n % 10))
    }
}

/// The numeric value of a decimal digit character, or none.
pub open spec fn digit_val(c: char) -> Option<u64> {
    if c == '0' {
        Some(0u64)
    } else if c == '1' {
        Some(1u64)
    } else if c == '2' {
        Some(2u64)
    } else if c == '3' {
        Some(3u64)
    } else if c == '4' {
        Some(4u64)
    } else if c == '5' {
        Some(5u64)
    } else if c == '6' {
        Some(6u64)
    } else if c == '7' {
        Some(7u64)
    } else if c == '8' {
        Some(8u64)
    } else if c == '9' {
        Some(9u64)
    } else {
        None
    }
}

pub open spec fn all_digits(s: Seq<char>) -> bool {
    forall|i: int| 0 <= i < s.len() ==> digit_val(s[i]).is_some()
}

/// The natural number denoted by a sequence of decimal digit characters.
pub open spec fn digits_val(s: Seq<char>) -> nat
    decreases s.len(),
{
    if s.len() == 0 {
        0
    } else {
        digits_val(s.drop_last()) * 10 + digit_val(s.last()).unwrap_or(0) as nat
    }
}

pub fn digit_char(d: u64) -> (r: char)
    requires
        d < 10,
    ensures
        r == dec_digit(d),
{
    if d == 0 {
        '0'
    } else if d == 1 {
        '1'
    } else if d == 2 {
        '2'
    } else if d == 3 {
        '3'
    } else if d == 4 {
        '4'
    } else if d == 5 {
        '5'
    } else if d == 6 {
        '6'
    } else if d == 7 {
        '7'
    } else if d == 8 {
        '8'
    } else {
        '9'
    }
}

/// Appends the canonical decimal rendering of `n` to `out`.
pub fn push_digits(out: &mut Vec<char>, n: u64)
    ensures
        final(out)@ == old(out)@ + spec_digits(n),
    decreases n,
{
    if n < 10 {
        out.push(digit_char(n));
    } else {
        push_digits(out, n / 10);
        out.push(digit_char(n % 10));
    }
}

/// A digit's character always denotes that digit.
proof fn lemma_digit_roundtrip(d: u64)
    requires
        d < 10,
    ensures
        digit_val(dec_digit(d)) == Some(d),
{
}

/// Reading back a canonical decimal rendering yields the rendered value.
pub proof fn lemma_digits_val_of_spec_digits(n: u64)
    ensures
        all_digits(spec_digits(n)),
        digits_val(spec_digits(n)) == n,
    decreases n,
{
    if n < 10 {
        lemma_digit_roundtrip(n);
        assert(spec_digits(n) == seq![dec_digit(n)]);
        assert(spec_digits(n).drop_last() =~= Seq::<char>::empty());
        assert(spec_digits(n).last() == dec_digit(n));
        assert(digits_val(Seq::<char>::empty()) == 0);
        assert(digits_val(spec_digits(n)) == digits_val(spec_digits(n).drop_last()) * 10
            + digit_val(spec_digits(n).last()).unwrap_or(0) as nat);
        assert(digits_val(spec_digits(n)) == n);
    } else {
        lemma_digits_val_of_spec_digits(n / 10);
        lemma_digit_roundtrip(n % 10);
        assert(spec_digits(n) == spec_digits(n / 10).push(dec_digit(n % 10)));
        assert(spec_digits(n).drop_last() =~= spec_digits(n / 10));
        assert(spec_digits(n).last() == dec_digit(n % 10));
        assert(digits_val(spec_digits(n)) == digits_val(spec_digits(n / 10)) * 10 + (n % 10));
        assert(digits_val(spec_digits(n)) == (n / 10) * 10 + (n % 10));
        assert((n / 10) * 10 + (n % 10) == n) by (nonlinear_arith);
    }
}

/// The value of a digit string grows (weakly) with every digit appended.
proof fn lemma_digits_val_prefix_le(s: Seq<char>, k: int)
    requires
        0 <= k <= s.len(),
    ensures
        digits_val(s.take(k)) <= digits_val(s),
    decreases s.len() - k,
{
    if k < s.len() {
        assert(s.take(k + 1).drop_last() =~= s.take(k));
        assert(digits_val(s.take(k)) <= digits_val(s.take(k + 1)));
        lemma_digits_val_prefix_le(s, k + 1);
    } else {
        assert(s.take(k) =~= s);
    }
}

/// Parses a non-empty all-digit character sequence as a `u64`.
/// Returns the denoted value exactly when it fits in 64 bits.
pub fn parse_u64_chars(s: &Vec<char>) -> (r: Option<u64>)
    ensures
        match r {
            Some(n) => s@.len() > 0 && all_digits(s@) && digits_val(s@) == n,
            None => s@.len() == 0 || !all_digits(s@) || digits_val(s@) > u64::MAX,
        },
{
    if s.len() == 0 {
        return None;
    }
    let mut acc: u64 = 0;
    let mut i: usize = 0;
    while i < s.len()
        invariant
            0 <= i <= s@.len(),
            all_digits(s@.take(i as int)),
            acc == digits_val(s@.take(i as int)),
            digits_val(s@.take(i as int)) <= u64::MAX,
        decreases s@.len() - i,
    {
        let c = s[i];
        let d: u64 = match digit_of(c) {
            Some(d) => d,
            None => {
                proof {
                    assert(digit_val(s@[i as int]).is_none());
                }
                return None;
            },
        };
        proof {
            assert(s@.take(i + 1).drop_last() =~= s@.take(i as int));
        }
        if acc > (u64::MAX - d) / 10 {
            proof {
                assert(digits_val(s@.take(i + 1)) == acc * 10 + d);
                assert(acc * 10 + d > u64::MAX) by (nonlinear_arith)
                    requires
                        acc > (u64::MAX - d) / 10,
                        d < 10,
                ;
                lemma_digits_val_prefix_le(s@, i + 1);
            }
            return None;
        }
        proof {
            assert(acc * 10 + d <= u64::MAX) by (nonlinear_arith)
                requires
                    acc <= (u64::MAX - d) / 10,
                    d < 10,
            ;
        }
        acc = acc * 10 + d;
        i = i + 1;
    }
    proof {
        assert(s@.take(i as int) =~= s@);
    }
    Some(acc)
}

fn digit_of(c: char) -> (r: Option<u64>)
    ensures
        r == digit_val(c),
{
    if c == '0' {
        Some(0u64)
    } else if c == '1' {
        Some(1u64)
    } else if c == '2' {
        Some(2u64)
    } else if c == '3' {
        Some(3u64)
    } else if c == '4' {
        Some(4u64)
    } else if c == '5' {
        Some(5u64)
    } else if c == '6' {
        Some(6u64)
    } else if c == '7' {
        Some(7u64)
    } else if c == '8' {
        Some(8u64)
    } else if c == '9' {
        Some(9u64)
    } else {
        None
    }
}

/// Relies on str::chars: yields the characters of the string in order.
#[verifier::external_body]
pub fn str_chars(s: &str) -> (r: Vec<char>)
    ensures
        r@ == s@,
{
    s.chars().collect()
}

/// Relies on String's FromIterator impl: collecting characters builds the
/// string of exactly those characters.
#[verifier::external_body]
pub fn chars_to_string(v: &Vec<char>) -> (r: String)
    ensures
        r@ == v@,
{
    v.iter().collect()
}

/// Character-for-character string equality.
pub fn str_eq(a: &str, b: &str) -> (r: bool)
    ensures
        r == (a@ == b@),
{
    let sa = a.to_owned();
    let sb = b.to_owned();
    sa == sb
}

/// Parses a decimal string as a `u64`; the form taken by ids on the wire.
pub fn parse_u64_str(s: &str) -> (r: Option<u64>)
    ensures
        match r {
            Some(n) => s@.len() > 0 && all_digits(s@) && digits_val(s@) == n,
            None => s@.len() == 0 || !all_digits(s@) || digits_val(s@) > u64::MAX,
        },
{
    let v = str_chars(s);
    parse_u64_chars(&v)
}

/// Renders `n` in decimal as a `String`.
pub fn u64_to_string(n: u64) -> (r: String)
    ensures
        r@ == spec_digits(n),
{
    let mut v: Vec<char> = Vec::new();
    push_digits(&mut v, n);
    proof {
        assert(v@ =~= spec_digits(n));
    }
    chars_to_string(&v)
}


/// The lower-case hexadecimal digit character for a value below sixteen.
pub open spec fn hex_digit(d: u64) -> char
    recommends
        d < 16,
{
    if d < 10 {
        dec_digit(d)
    } else if d == 10 {
        'a'
    } else if d == 11 {
        'b'
    } else if d == 12 {
        'c'
    } else if d == 13 {
        'd'
    } else if d == 14 {
        'e'
    } else {
        'f'
    }
}

pub fn hex_digit_char(d: u64) -> (r: char)
    requires
        d < 16,
    ensures
        r == hex_digit(d),
{
    if d < 10 {
        digit_char(d)
    } else if d == 10 {
        'a'
    } else if d == 11 {
        'b'
    } else if d == 12 {
        'c'
    } else if d == 13 {
        'd'
    } else if d == 14 {
        'e'
    } else {
        'f'
    }
}

/// The JSON escape of one character: quotes and backslashes are escaped,
/// control characters take the four-digit form, all else stands as is.
pub open spec fn esc_char(c: char) -> Seq<char> {
    if c == '"' {
        seq!['\\', '"']
    } else if c == '\\' {
        seq!['\\', '\\']
    } else if (c as u32) < 32 {
        seq!['\\', 'u', '0', '0', hex_digit((c as u32 / 16) as u64), hex_digit((c as u32 % 16) as u64)]
    } else {
        seq![c]
    }
}

/// The JSON escape of a string body.
pub open spec fn esc(s: Seq<char>) -> Seq<char>
    decreases s.len(),
{
    if s.len() == 0 {
        Seq::empty()
    } else {
        esc(s.drop_last()) + esc_char(s.last())
    }
}

/// A JSON string token: the escaped body between double quotes.
pub open spec fn jstr(s: Seq<char>) -> Seq<char> {
    seq!['"'] + esc(s) + seq!['"']
}

/// Appends the characters of `s` to `out`.
pub fn push_str_chars(out: &mut Vec<char>, s: &str)
    ensures
        final(out)@ == old(out)@ + s@,
{
    let cs = str_chars(s);
    let mut i: usize = 0;
    while i < cs.len()
        invariant
            0 <= i <= cs@.len(),
            cs@ == s@,
            out@ == old(out)@ + cs@.take(i as int),
        decreases cs@.len() - i,
    {
        out.push(cs[i]);
        proof {
            assert(old(out)@ + cs@.take(i + 1) =~= (old(out)@ + cs@.take(i as int)).push(
                cs@[i as int],
            ));
        }
        i = i + 1;
    }
    proof {
        assert(cs@.take(i as int) =~= cs@);
    }
}

/// Appends a JSON string token holding `s` to `out`.
pub fn push_json_string(out: &mut Vec<char>, s: &str)
    ensures
        final(out)@ == old(out)@ + jstr(s@),
{
    let cs = str_chars(s);
    out.push('"');
    let ghost base = out@;
    let mut i: usize = 0;
    proof {
        assert(esc(cs@.take(0)) =~= Seq::<char>::empty());
        assert(out@ =~= base + esc(cs@.take(0)));
    }
    while i < cs.len()
        invariant
            0 <= i <= cs@.len(),
            cs@ == s@,
            out@ == base + esc(cs@.take(i as int)),
            base == old(out)@.push('"'),
        decreases cs@.len() - i,
    {
        let c = cs[i];
        proof {
            assert(cs@.take(i + 1).drop_last() =~= cs@.take(i as int));
            assert(cs@.take(i + 1).last() == cs@[i as int]);
            assert(esc(cs@.take(i + 1)) == esc(cs@.take(i as int)) + esc_char(cs@[i as int]));
        }
        if c == '"' {
            out.push('\\');
            out.push('"');
            proof {
                assert(out@ =~= base + esc(cs@.take(i + 1)));
            }
        } else if c == '\\' {
            out.push('\\');
            out.push('\\');
            proof {
                assert(out@ =~= base + esc(cs@.take(i + 1)));
            }
        } else {
            let n = c as u32;
            if n < 32 {
                out.push('\\');
                out.push('u');
                out.push('0');
                out.push('0');
                out.push(hex_digit_char((n / 16) as u64));
                out.push(hex_digit_char((n % 16) as u64));
                proof {
                    assert(out@ =~= base + esc(cs@.take(i + 1)));
                }
            } else {
                out.push(c);
                proof {
                    assert(out@ =~= base + esc(cs@.take(i + 1)));
                }
            }
        }
        i = i + 1;
    }
    out.push('"');
    proof {
        assert(cs@.take(i as int) =~= cs@);
        assert(out@ =~= old(out)@ + jstr(s@));
    }
}


/// Concatenation of character sequences is associative.
pub proof fn seq_cat_assoc(a: Seq<char>, b: Seq<char>, c: Seq<char>)
    ensures
        (a + b) + c == a + (b + c),
{
    assert((a + b) + c =~= a + (b + c));
}

/// The empty sequence is a left identity of concatenation.
pub proof fn seq_cat_empty_left(a: Seq<char>)
    ensures
        Seq::<char>::empty() + a == a,
{
    assert(Seq::<char>::empty() + a =~= a);
}

/// The empty sequence is a right identity of concatenation.
pub proof fn seq_cat_empty_right(a: Seq<char>)
    ensures
        a + Seq::<char>::empty() == a,
{
    assert(a + Seq::<char>::empty() =~= a);
}

} // verus!
