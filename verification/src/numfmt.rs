//! Verified decimal and hexadecimal formatting and decimal parsing.
//! Attribute values carry integers and booleans as their textual form on
//! the wire, and identifiers print their numeric qualifiers, so these
//! conversions are part of the protocol logic.

use vstd::prelude::*;

verus! {

use vstd::string::StrSliceExecFns;
use vstd::utf8::{decode_utf8, valid_utf8, is_leading_byte_width_1, codepoint_width_1,
    decode_first_scalar, length_of_first_scalar, pop_first_scalar, valid_first_scalar};

/// The ASCII byte of a decimal digit value.
pub open spec fn digit_byte(d: int) -> u8 {
    (0x30 + d) as u8
}

/// The ASCII byte of a hexadecimal digit value, upper case.
pub open spec fn hex_digit_byte(d: int) -> u8 {
    if d < 10 {
        (0x30 + d) as u8
    } else {
        (0x41 + (d - 10)) as u8
    }
}

/// The ASCII bytes of the decimal form of `n`, no sign, no leading zeros.
pub open spec fn spec_decimal_bytes(n: nat) -> Seq<u8>
    decreases n,
{
    if n < 10 {
        seq![digit_byte(n as int)]
    } else {
        spec_decimal_bytes(n / 10) + seq![digit_byte((n % 10) as int)]
    }
}

/// The ASCII bytes of the upper-case hexadecimal form of `n`.
pub open spec fn spec_hex_bytes(n: nat) -> Seq<u8>
    decreases n,
{
    if n < 16 {
        seq![hex_digit_byte(n as int)]
    } else {
        spec_hex_bytes(n / 16) + seq![hex_digit_byte((n % 16) as int)]
    }
}

/// The decimal form of `n` as characters.
pub open spec fn spec_decimal(n: nat) -> Seq<char> {
    spec_decimal_bytes(n).map_values(|b: u8| b as char)
}

/// The upper-case hexadecimal form of `n` as characters.
pub open spec fn spec_hex(n: nat) -> Seq<char> {
    spec_hex_bytes(n).map_values(|b: u8| b as char)
}

/// The decimal form of a signed value: a minus sign before the magnitude.
pub open spec fn spec_signed_decimal(i: int) -> Seq<char> {
    if i < 0 {
        seq!['-'] + spec_decimal((-i) as nat)
    } else {
        spec_decimal(i as nat)
    }
}

/// Every byte of a decimal form is an ASCII digit.
pub proof fn lemma_decimal_bytes_ascii(n: nat)
    ensures
        forall|i: int|
            0 <= i < spec_decimal_bytes(n).len() ==> 0x30 <= #[trigger] spec_decimal_bytes(n)[i]
                <= 0x39,
        spec_decimal_bytes(n).len() >= 1,
    decreases n,
{
    if n >= 10 {
        lemma_decimal_bytes_ascii(n / 10);
    }
}

/// Every byte of a hexadecimal form is an ASCII digit or an upper-case letter.
pub proof fn lemma_hex_bytes_ascii(n: nat)
    ensures
        forall|i: int|
            0 <= i < spec_hex_bytes(n).len() ==> 0x30 <= #[trigger] spec_hex_bytes(n)[i] <= 0x46,
        spec_hex_bytes(n).len() >= 1,
    decreases n,
{
    if n >= 16 {
        lemma_hex_bytes_ascii(n / 16);
    }
}

/// A sequence of bytes below 0x80 is valid UTF-8 and decodes byte for byte.
pub proof fn lemma_ascii_bytes_utf8(s: Seq<u8>)
    requires
        forall|i: int| 0 <= i < s.len() ==> s[i] < 0x80,
    ensures
        valid_utf8(s),
        decode_utf8(s) == s.map_values(|b: u8| b as char),
    decreases s.len(),
{
    if s.len() == 0 {
        assert(decode_utf8(s) =~= s.map_values(|b: u8| b as char));
    } else {
        let b = s[0];
        assert(b < 0x80);
        assert(is_leading_byte_width_1(b)) by (bit_vector)
            requires
                b < 0x80,
        ;
        assert(codepoint_width_1(b) == b as u32) by (bit_vector)
            requires
                b < 0x80,
        ;
        assert(valid_first_scalar(s));
        assert(length_of_first_scalar(s) == 1);
        let rest = pop_first_scalar(s);
        assert(rest =~= s.subrange(1, s.len() as int));
        lemma_ascii_bytes_utf8(rest);
        assert(decode_first_scalar(s) == b as u32);
        assert((b as u32) as char == b as char);
        assert(decode_utf8(s) =~= s.map_values(|x: u8| x as char));
    }
}

/// Appends the ASCII decimal form of `n` to `out`.
pub fn push_decimal_bytes(n: u64, out: &mut Vec<u8>)
    ensures
        final(out)@ == old(out)@ + spec_decimal_bytes(n as nat),
    decreases n,
{
    if n >= 10 {
        push_decimal_bytes(n / 10, out);
    }
    out.push(0x30u8 + (n % 10) as u8);
    proof {
        assert(out@ =~= old(out)@ + spec_decimal_bytes(n as nat));
    }
}

/// Appends the ASCII upper-case hexadecimal form of `n` to `out`.
pub fn push_hex_bytes(n: u64, out: &mut Vec<u8>)
    ensures
        final(out)@ == old(out)@ + spec_hex_bytes(n as nat),
    decreases n,
{
    if n >= 16 {
        push_hex_bytes(n / 16, out);
    }
    let d: u8 = (n % 16) as u8;
    if d < 10 {
        out.push(0x30u8 + d);
    } else {
        out.push(0x41u8 + (d - 10));
    }
    proof {
        assert(out@ =~= old(out)@ + spec_hex_bytes(n as nat));
    }
}

/// The decimal form of `n` as a string.
pub fn u64_to_decimal(n: u64) -> (r: String)
    ensures
        r@ == spec_decimal(n as nat),
{
    let mut bytes: Vec<u8> = Vec::new();
    push_decimal_bytes(n, &mut bytes);
    proof {
        lemma_decimal_bytes_ascii(n as nat);
        lemma_ascii_bytes_utf8(bytes@);
    }
    let r = crate::bytes_util::bytes_to_string(bytes.as_slice());
    r.unwrap()
}

/// The upper-case hexadecimal form of `n` as a string.
pub fn u64_to_hex(n: u64) -> (r: String)
    ensures
        r@ == spec_hex(n as nat),
{
    let mut bytes: Vec<u8> = Vec::new();
    push_hex_bytes(n, &mut bytes);
    proof {
        lemma_hex_bytes_ascii(n as nat);
        lemma_ascii_bytes_utf8(bytes@);
    }
    let r = crate::bytes_util::bytes_to_string(bytes.as_slice());
    r.unwrap()
}

/// The decimal form of a signed value as a string.
pub fn i64_to_decimal(n: i64) -> (r: String)
    ensures
        r@ == spec_signed_decimal(n as int),
{
    if n >= 0 {
        u64_to_decimal(n as u64)
    } else {
        let mag: u64 = ((-(n + 1)) as u64) + 1;
        assert(mag as nat == (-(n as int)) as nat);
        let mut bytes: Vec<u8> = Vec::new();
        bytes.push(0x2Du8);
        push_decimal_bytes(mag, &mut bytes);
        proof {
            lemma_decimal_bytes_ascii(mag as nat);
            lemma_ascii_bytes_utf8(bytes@);
            assert(bytes@.map_values(|b: u8| b as char) =~= spec_signed_decimal(n as int));
        }
        let r = crate::bytes_util::bytes_to_string(bytes.as_slice());
        r.unwrap()
    }
}

/// True when `c` is an ASCII decimal digit.
pub open spec fn is_digit_char(c: char) -> bool {
    '0' <= c && c <= '9'
}

/// True when every character of `s` is an ASCII decimal digit.
pub open spec fn is_digit_seq(s: Seq<char>) -> bool {
    forall|i: int| 0 <= i < s.len() ==> is_digit_char(#[trigger] s[i])
}

/// The numeric value of a digit sequence, most significant first.
pub open spec fn spec_udec_value(s: Seq<char>) -> nat
    decreases s.len(),
{
    if s.len() == 0 {
        0
    } else {
        spec_udec_value(s.drop_last()) * 10 + ((s.last() as u32) - 0x30) as nat
    }
}

/// The value of a digit sequence never falls when more digits follow.
pub proof fn lemma_udec_prefix(s: Seq<char>, i: int)
    requires
        0 <= i <= s.len(),
    ensures
        spec_udec_value(s) >= spec_udec_value(s.take(i)),
    decreases s.len() - i,
{
    if i < s.len() {
        lemma_udec_prefix(s, i + 1);
        let t = s.take(i + 1);
        assert(t.drop_last() =~= s.take(i));
        assert(spec_udec_value(t) == spec_udec_value(s.take(i)) * 10 + ((t.last() as u32)
            - 0x30) as nat);
    } else {
        assert(s.take(i) =~= s);
    }
}

/// Parses an unsigned decimal from a string: succeeds exactly on non-empty
/// all-digit input whose value fits in a `u64`.
pub fn parse_u64_decimal(s: &str) -> (r: Option<u64>)
    ensures
        match r {
            Some(v) => s@.len() > 0 && is_digit_seq(s@) && v as nat == spec_udec_value(s@),
            None => s@.len() == 0 || !is_digit_seq(s@) || spec_udec_value(s@) > u64::MAX,
        },
{
    let n = s.unicode_len();
    if n == 0 {
        return None;
    }
    let mut v: u64 = 0;
    let mut i: usize = 0;
    while i < n
        invariant
            0 < n == s@.len(),
            0 <= i <= n,
            is_digit_seq(s@.take(i as int)),
            v as nat == spec_udec_value(s@.take(i as int)),
        decreases n - i,
    {
        let c = s.get_char(i);
        if c < '0' || c > '9' {
            proof {
                assert(s@[i as int] == c);
                assert(!is_digit_seq(s@));
            }
            return None;
        }
        let d: u32 = (c as u32) - 0x30;
        if v > (u64::MAX - (d as u64)) / 10 {
            proof {
                assert(s@.take(i as int + 1).drop_last() =~= s@.take(i as int));
                assert(spec_udec_value(s@.take(i as int + 1)) > u64::MAX);
                lemma_udec_prefix(s@, i as int + 1);
            }
            return None;
        }
        v = v * 10 + (d as u64);
        proof {
            assert(s@.take(i as int + 1).drop_last() =~= s@.take(i as int));
        }
        i = i + 1;
    }
    proof {
        assert(s@.take(n as int) =~= s@);
    }
    Some(v)
}

/// Parses an unsigned decimal that must fit in a `u8`.
pub fn parse_u8_decimal(s: &str) -> (r: Option<u8>)
    ensures
        match r {
            Some(v) => s@.len() > 0 && is_digit_seq(s@) && v as nat == spec_udec_value(s@),
            None => s@.len() == 0 || !is_digit_seq(s@) || spec_udec_value(s@) > u8::MAX,
        },
{
    match parse_u64_decimal(s) {
        Some(v) => if v <= 255 {
            Some(v as u8)
        } else {
            None
        },
        None => None,
    }
}

/// Parses an unsigned decimal that must fit in a `u16`.
pub fn parse_u16_decimal(s: &str) -> (r: Option<u16>)
    ensures
        match r {
            Some(v) => s@.len() > 0 && is_digit_seq(s@) && v as nat == spec_udec_value(s@),
            None => s@.len() == 0 || !is_digit_seq(s@) || spec_udec_value(s@) > u16::MAX,
        },
{
    match parse_u64_decimal(s) {
        Some(v) => if v <= 65535 {
            Some(v as u16)
        } else {
            None
        },
        None => None,
    }
}

/// Powers of ten.
pub open spec fn pow10(k: nat) -> nat
    decreases k,
{
    if k == 0 {
        1
    } else {
        10 * pow10((k - 1) as nat)
    }
}

/// The decimal form of a value below the `k`-th power of ten has at most
/// `k` digits.
pub proof fn lemma_decimal_len_bound(n: nat, k: nat)
    requires
        k >= 1,
        n < pow10(k),
    ensures
        spec_decimal_bytes(n).len() <= k,
    decreases k,
{
    if n >= 10 {
        assert(pow10(k) == 10 * pow10((k - 1) as nat));
        assert(n / 10 < pow10((k - 1) as nat)) by (nonlinear_arith)
            requires
                n < 10 * pow10((k - 1) as nat),
        ;
        assert(k >= 2) by {
            if k == 1 {
                assert(pow10(1nat) == 10);
            }
        }
        lemma_decimal_len_bound(n / 10, (k - 1) as nat);
    }
}

/// Every `u64` has at most twenty decimal digits.
pub proof fn lemma_decimal_len_u64(n: nat)
    requires
        n <= u64::MAX,
    ensures
        spec_decimal_bytes(n).len() <= 20,
{
    assert(pow10(20) == 100000000000000000000) by {
        reveal_with_fuel(pow10, 21);
    }
    lemma_decimal_len_bound(n, 20);
}

/// The characters of a decimal form are ASCII.
pub proof fn lemma_decimal_chars_ascii(n: nat)
    ensures
        vstd::utf8::is_ascii_chars(spec_decimal(n)),
        spec_decimal(n).len() == spec_decimal_bytes(n).len(),
{
    lemma_decimal_bytes_ascii(n);
    assert forall|i: int|
        0 <= i < spec_decimal(n).len() implies '\0' <= #[trigger] spec_decimal(n)[i]
        <= '\u{7f}' by {
        assert(spec_decimal(n)[i] == spec_decimal_bytes(n)[i] as char);
    }
}

/// The textual form of a signed 64-bit value is ASCII and short.
pub proof fn lemma_signed_decimal_short(n: int)
    requires
        i64::MIN <= n <= i64::MAX,
    ensures
        vstd::utf8::is_ascii_chars(spec_signed_decimal(n)),
        spec_signed_decimal(n).len() <= 21,
        vstd::utf8::encode_utf8(spec_signed_decimal(n)).len() == spec_signed_decimal(n).len(),
{
    let mag: nat = if n < 0 {
        (-n) as nat
    } else {
        n as nat
    };
    lemma_decimal_len_u64(mag);
    lemma_decimal_chars_ascii(mag);
    let s = spec_signed_decimal(n);
    assert forall|i: int| 0 <= i < s.len() implies '\0' <= #[trigger] s[i] <= '\u{7f}' by {
        if n < 0 {
            if i == 0 {
                assert(s[0] == '-');
            } else {
                assert(s[i] == spec_decimal(mag)[i - 1]);
            }
        } else {
            assert(s[i] == spec_decimal(mag)[i]);
        }
    }
    vstd::utf8::is_ascii_chars_encode_utf8(s);
}

} // verus!
