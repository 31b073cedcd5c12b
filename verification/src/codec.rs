//! Text codecs used at the protocol boundary: decimal strings for 128-bit
//! integers, the transport-safe base64 encoding of proof bytes, and hex
//! decoding of public keys.

use vstd::prelude::*;
use vstd::string::StrSliceExecFns;
use base64::Engine;

verus! {

// ---------------------------------------------------------------------------
// Decimal strings
// ---------------------------------------------------------------------------

/// Whether a character is an ASCII decimal digit.
pub open spec fn is_digit_char(c: char) -> bool {
    48 <= c as int <= 57
}

/// The numeric value of an ASCII decimal digit.
pub open spec fn digit_val(c: char) -> int {
    c as int - 48
}

/// Whether a character sequence is a well-formed decimal numeral: non-empty
/// and made of ASCII digits only.
pub open spec fn is_dec_string(s: Seq<char>) -> bool {
    s.len() > 0 && forall|i: int| 0 <= i < s.len() ==> is_digit_char(#[trigger] s[i])
}

/// The integer a digit sequence denotes, most significant digit first.
pub open spec fn dec_value(s: Seq<char>) -> int
    decreases s.len(),
{
    if s.len() == 0 {
        0
    } else {
        dec_value(s.drop_last()) * 10 + digit_val(s.last())
    }
}

/// The ASCII digit character for a value below ten.
pub open spec fn digit_char_of(d: int) -> char {
    ((48 + d) as u8) as char
}

/// The decimal numeral of a non-negative integer, without leading zeros
/// (a single zero digit for zero).
pub open spec fn dec_string_of(n: nat) -> Seq<char>
    decreases n,
{
    if n < 10 {
        seq![digit_char_of(n as int)]
    } else {
        dec_string_of(n / 10).push(digit_char_of((n % 10) as int))
    }
}

/// A digit sequence denotes a non-negative integer.
proof fn lemma_dec_value_nonneg(s: Seq<char>)
    requires
        forall|i: int| 0 <= i < s.len() ==> is_digit_char(#[trigger] s[i]),
    ensures
        dec_value(s) >= 0,
    decreases s.len(),
{
    if s.len() > 0 {
        lemma_dec_value_nonneg(s.drop_last());
    }
}

/// Extending a digit sequence can only increase the value it denotes.
proof fn lemma_dec_value_prefix(s: Seq<char>, k: int)
    requires
        0 <= k <= s.len(),
        forall|i: int| 0 <= i < s.len() ==> is_digit_char(#[trigger] s[i]),
    ensures
        dec_value(s.take(k)) <= dec_value(s),
    decreases s.len() - k,
{
    if k == s.len() {
        assert(s.take(k) =~= s);
    } else {
        lemma_dec_value_prefix(s, k + 1);
        assert(s.take(k + 1).drop_last() =~= s.take(k));
        assert(s.take(k + 1).last() == s[k]);
        lemma_dec_value_nonneg(s.take(k));
    }
}

/// Parses a decimal numeral into a 128-bit integer. Returns the denoted
/// value exactly when the input is a non-empty, all-digit string whose value
/// fits in 128 bits; returns nothing otherwise.
pub fn parse_decimal_u128(s: &str) -> (r: Option<u128>)
    ensures
        r is Some <==> is_dec_string(s@) && dec_value(s@) <= u128::MAX,
        r is Some ==> r->0 == dec_value(s@),
{
    let len = s.unicode_len();
    if len == 0 {
        return None;
    }
    let mut acc: u128 = 0;
    let mut i: usize = 0;
    while i < len
        invariant
            0 <= i <= len,
            len == s@.len(),
            forall|j: int| 0 <= j < i ==> is_digit_char(#[trigger] s@[j]),
            acc == dec_value(s@.take(i as int)),
        decreases len - i,
    {
        let c = s.get_char(i);
        let code = c as u32;
        if code < 48 || code > 57 {
            return None;
        }
        let d: u128 = (code - 48) as u128;
        proof {
            assert(s@.take(i + 1).drop_last() =~= s@.take(i as int));
            assert(s@.take(i + 1).last() == s@[i as int]);
        }
        let shifted = match acc.checked_mul(10) {
            Some(v) => v,
            None => {
                proof {
                    overflow_means_no_parse(s@, i as int);
                }
                return None;
            },
        };
        acc = match shifted.checked_add(d) {
            Some(v) => v,
            None => {
                proof {
                    overflow_means_no_parse(s@, i as int);
                }
                return None;
            },
        };
        i = i + 1;
    }
    proof {
        assert(s@.take(len as int) =~= s@);
    }
    Some(acc)
}

/// When the running value exceeds 128 bits at digit `i`, the whole string
/// cannot denote a value that fits, so the parse owes no result.
proof fn overflow_means_no_parse(s: Seq<char>, i: int)
    requires
        0 <= i < s.len(),
        forall|j: int| 0 <= j <= i ==> is_digit_char(#[trigger] s[j]),
        dec_value(s.take(i)) * 10 + digit_val(s[i]) > u128::MAX,
    ensures
        !(is_dec_string(s) && dec_value(s) <= u128::MAX),
{
    if is_dec_string(s) {
        assert(s.take(i + 1).drop_last() =~= s.take(i));
        assert(s.take(i + 1).last() == s[i]);
        lemma_dec_value_prefix(s, i + 1);
    }
}

/// Round trip: the decimal numeral of a non-negative integer is a
/// well-formed digit string that denotes exactly that integer, so printing
/// a value and parsing the text gives the value back.
pub proof fn lemma_decimal_round_trip(n: nat)
    ensures
        is_dec_string(dec_string_of(n)),
        dec_value(dec_string_of(n)) == n,
    decreases n,
{
    if n < 10 {
        let c = digit_char_of(n as int);
        assert(c as int == 48 + n);
        assert(dec_string_of(n).last() == c);
        assert(dec_string_of(n).drop_last() =~= Seq::<char>::empty());
        assert(dec_value(Seq::<char>::empty()) == 0);
    } else {
        lemma_decimal_round_trip(n / 10);
        let head = dec_string_of(n / 10);
        let c = digit_char_of((n % 10) as int);
        assert(c as int == 48 + n % 10);
        assert(head.push(c).drop_last() =~= head);
        assert(head.push(c).last() == c);
        assert(forall|i: int|
            0 <= i < head.push(c).len() ==> is_digit_char(#[trigger] head.push(c)[i]));
        vstd::arithmetic::div_mod::lemma_fundamental_div_mod(n as int, 10);
    }
}

/// Relies on std's `String::push`: appends the character to the end of the
/// string.
#[verifier::external_body]
fn push_char(s: &mut String, c: char)
    ensures
        final(s)@ == old(s)@.push(c),
{
    s.push(c);
}

/// Renders a 128-bit integer as its decimal numeral.
pub fn u128_to_decimal(n: u128) -> (r: String)
    ensures
        r@ == dec_string_of(n as nat),
{
    let mut rev: Vec<char> = Vec::new();
    let mut m: u128 = n;
    while m >= 10
        invariant
            dec_string_of(n as nat) == dec_string_of(m as nat) + rev@.reverse(),
        decreases m,
    {
        let d: u8 = (m % 10) as u8 + 48;
        let c: char = d as char;
        proof {
            let ghost prev = rev@;
            assert(dec_string_of(m as nat) == dec_string_of((m as nat) / 10).push(
                digit_char_of((m as nat % 10) as int),
            ));
            assert(prev.push(c).reverse() =~= seq![c] + prev.reverse());
            assert(dec_string_of((m as nat) / 10) + (seq![c] + prev.reverse())
                =~= (dec_string_of((m as nat) / 10).push(c)) + prev.reverse());
        }
        rev.push(c);
        m = m / 10;
    }
    let d: u8 = (m % 10) as u8 + 48;
    let c: char = d as char;
    proof {
        vstd::arithmetic::div_mod::lemma_small_mod(m as nat, 10);
        let ghost prev = rev@;
        assert(rev@.push(c).reverse() =~= seq![c] + rev@.reverse());
        assert(dec_string_of(m as nat) =~= seq![c]);
        assert(dec_string_of(n as nat) =~= rev@.push(c).reverse());
    }
    rev.push(c);
    let mut out = String::new();
    let mut i: usize = rev.len();
    while i > 0
        invariant
            0 <= i <= rev@.len(),
            out@ == rev@.skip(i as int).reverse(),
        decreases i,
    {
        i = i - 1;
        proof {
            assert(rev@.skip(i as int) =~= seq![rev@[i as int]] + rev@.skip(i + 1));
            assert(rev@.skip(i as int).reverse() =~= rev@.skip(i + 1).reverse().push(
                rev@[i as int],
            ));
        }
        push_char(&mut out, rev[i]);
    }
    proof {
        assert(rev@.skip(0) =~= rev@);
    }
    out
}

// ---------------------------------------------------------------------------
// Base64
// ---------------------------------------------------------------------------

/// The character of the standard base64 alphabet at a 6-bit value.
pub open spec fn b64_char(v: int) -> char {
    if v < 26 {
        ((65 + v) as u8) as char
    } else if v < 52 {
        ((97 + (v - 26)) as u8) as char
    } else if v < 62 {
        ((48 + (v - 52)) as u8) as char
    } else if v == 62 {
        '+'
    } else {
        '/'
    }
}

/// The standard, padded base64 encoding of a byte sequence: every group of
/// three bytes becomes four alphabet characters; a final group of one or two
/// bytes is completed with `=` padding.
pub open spec fn base64_chars(bytes: Seq<u8>) -> Seq<char>
    decreases bytes.len(),
{
    if bytes.len() == 0 {
        Seq::empty()
    } else if bytes.len() == 1 {
        let b0 = bytes[0] as int;
        seq![b64_char(b0 / 4), b64_char((b0 % 4) * 16), '=', '=']
    } else if bytes.len() == 2 {
        let b0 = bytes[0] as int;
        let b1 = bytes[1] as int;
        seq![b64_char(b0 / 4), b64_char((b0 % 4) * 16 + b1 / 16), b64_char((b1 % 16) * 4), '=']
    } else {
        let b0 = bytes[0] as int;
        let b1 = bytes[1] as int;
        let b2 = bytes[2] as int;
        seq![
            b64_char(b0 / 4),
            b64_char((b0 % 4) * 16 + b1 / 16),
            b64_char((b1 % 16) * 4 + b2 / 64),
            b64_char(b2 % 64),
        ] + base64_chars(bytes.skip(3))
    }
}

/// Relies on the base64 crate's `STANDARD` engine: the RFC 4648 standard
/// alphabet with `=` padding, four characters for every started group of
/// three bytes.
#[verifier::external_body]
pub(crate) fn encode_base64(bytes: &Vec<u8>) -> (r: String)
    ensures
        r@ == base64_chars(bytes@),
{
    base64::engine::general_purpose::STANDARD.encode(bytes)
}

// ---------------------------------------------------------------------------
// Hex
// ---------------------------------------------------------------------------

/// Whether a character is an ASCII hex digit, upper or lower case.
pub open spec fn is_hex_digit(c: char) -> bool {
    (48 <= c as int <= 57) || (97 <= c as int <= 102) || (65 <= c as int <= 70)
}

/// The numeric value of an ASCII hex digit.
pub open spec fn hex_val(c: char) -> int {
    if 48 <= c as int <= 57 {
        c as int - 48
    } else if 97 <= c as int <= 102 {
        c as int - 87
    } else {
        c as int - 55
    }
}

/// Whether a character sequence is a well-formed hex encoding: even length,
/// hex digits only.
pub open spec fn is_hex_string(s: Seq<char>) -> bool {
    s.len() % 2 == 0 && forall|i: int| 0 <= i < s.len() ==> is_hex_digit(#[trigger] s[i])
}

/// The bytes a hex string denotes, two digits per byte.
pub open spec fn hex_bytes(s: Seq<char>) -> Seq<u8>
    decreases s.len(),
{
    if s.len() < 2 {
        Seq::empty()
    } else {
        seq![(hex_val(s[0]) * 16 + hex_val(s[1])) as u8] + hex_bytes(s.skip(2))
    }
}

/// Relies on the hex crate's `decode`: returns the denoted bytes exactly for
/// even-length all-hex-digit input and an error for any other input.
#[verifier::external_body]
pub(crate) fn decode_hex(s: &str) -> (r: Option<Vec<u8>>)
    ensures
        r is Some <==> is_hex_string(s@),
        r is Some ==> r->0@ == hex_bytes(s@),
{
    hex::decode(s).ok()
}

} // verus!
