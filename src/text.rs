//! Character-level building blocks shared by the textual encodings: hex and
//! decimal digits, and the conversions between `str`, `String` and `Vec<char>`.

use vstd::prelude::*;

verus! {

/// Lower-case hex digit for a nibble.
pub open spec fn hex_char(n: u8) -> char {
    if n == 0 { '0' } else if n == 1 { '1' } else if n == 2 { '2' } else if n == 3 { '3' }
    else if n == 4 { '4' } else if n == 5 { '5' } else if n == 6 { '6' } else if n == 7 { '7' }
    else if n == 8 { '8' } else if n == 9 { '9' } else if n == 10 { 'a' } else if n == 11 { 'b' }
    else if n == 12 { 'c' } else if n == 13 { 'd' } else if n == 14 { 'e' } else { 'f' }
}

pub open spec fn is_hex_digit(c: char) -> bool {
    ('0' <= c && c <= '9') || ('a' <= c && c <= 'f') || ('A' <= c && c <= 'F')
}

/// Value of a hex digit of either case.
pub open spec fn hex_val(c: char) -> int {
    if '0' <= c && c <= '9' {
        c as int - '0' as int
    } else if 'a' <= c && c <= 'f' {
        c as int - 'a' as int + 10
    } else {
        c as int - 'A' as int + 10
    }
}

/// Two lower-case hex digits per byte, most significant nibble first.
pub open spec fn hex_encode(b: Seq<u8>) -> Seq<char>
    decreases b.len(),
{
    if b.len() == 0 {
        Seq::empty()
    } else {
        hex_encode(b.drop_last()) + seq![hex_char(b.last() / 16), hex_char(b.last() % 16)]
    }
}

/// A string that decodes as hex: an even number of hex digits.
pub open spec fn is_hex_str(s: Seq<char>) -> bool {
    s.len() % 2 == 0 && forall|i: int| 0 <= i < s.len() ==> is_hex_digit(#[trigger] s[i])
}

/// The bytes that a hex string stands for, two digits per byte.
pub open spec fn hex_decode(s: Seq<char>) -> Seq<u8>
    decreases s.len(),
{
    if s.len() < 2 {
        Seq::empty()
    } else {
        hex_decode(s.subrange(0, s.len() - 2)).push(
            (hex_val(s[s.len() - 2]) * 16 + hex_val(s[s.len() - 1])) as u8,
        )
    }
}

/// Decimal digit for a value below ten.
pub open spec fn dec_char(d: nat) -> char {
    if d == 0 { '0' } else if d == 1 { '1' } else if d == 2 { '2' } else if d == 3 { '3' }
    else if d == 4 { '4' } else if d == 5 { '5' } else if d == 6 { '6' } else if d == 7 { '7' }
    else if d == 8 { '8' } else { '9' }
}

pub open spec fn is_dec_digit(c: char) -> bool {
    '0' <= c && c <= '9'
}

/// Shortest decimal form of `n`, without sign or leading zeros.
pub open spec fn dec_digits(n: nat) -> Seq<char>
    decreases n,
{
    if n < 10 {
        seq![dec_char(n)]
    } else {
        dec_digits(n / 10).push(dec_char(n % 10))
    }
}

/// Shortest lower-case hexadecimal form of `n`, without prefix or leading zeros.
pub open spec fn hex_digits(n: nat) -> Seq<char>
    decreases n,
{
    if n < 16 {
        seq![hex_char(n as u8)]
    } else {
        hex_digits(n / 16).push(hex_char((n % 16) as u8))
    }
}

/// Value of a string of decimal digits.
pub open spec fn dec_value(s: Seq<char>) -> nat
    decreases s.len(),
{
    if s.len() == 0 {
        0
    } else {
        dec_value(s.drop_last()) * 10 + (s.last() as int - '0' as int) as nat
    }
}

pub open spec fn all_dec_digits(s: Seq<char>) -> bool {
    forall|i: int| 0 <= i < s.len() ==> is_dec_digit(#[trigger] s[i])
}

/// How `u64` reads a decimal string: an optional `+`, then one or more digits
/// whose value fits in 64 bits.
pub open spec fn parse_u64_spec(s: Seq<char>) -> Option<u64> {
    let d = if s.len() > 0 && s[0] == '+' { s.drop_first() } else { s };
    if d.len() > 0 && all_dec_digits(d) && dec_value(d) <= u64::MAX {
        Some(dec_value(d) as u64)
    } else {
        None
    }
}

pub proof fn lemma_hex_char(n: u8)
    requires
        n < 16,
    ensures
        is_hex_digit(hex_char(n)),
        hex_val(hex_char(n)) == n,
{
}

pub proof fn lemma_hex_encode_len(b: Seq<u8>)
    ensures
        hex_encode(b).len() == 2 * b.len(),
        is_hex_str(hex_encode(b)),
    decreases b.len(),
{
    if b.len() > 0 {
        lemma_hex_encode_len(b.drop_last());
        lemma_hex_char(b.last() / 16);
        lemma_hex_char(b.last() % 16);
        let e = hex_encode(b);
        let p = hex_encode(b.drop_last());
        assert forall|i: int| 0 <= i < e.len() implies is_hex_digit(#[trigger] e[i]) by {
            if i < p.len() {
                assert(e[i] == p[i]);
            }
        }
    }
}

/// Decoding undoes encoding.
pub proof fn lemma_hex_round_trip(b: Seq<u8>)
    ensures
        hex_decode(hex_encode(b)) == b,
    decreases b.len(),
{
    if b.len() > 0 {
        lemma_hex_round_trip(b.drop_last());
        lemma_hex_encode_len(b.drop_last());
        lemma_hex_char(b.last() / 16);
        lemma_hex_char(b.last() % 16);
        let e = hex_encode(b);
        assert(e.subrange(0, e.len() - 2) =~= hex_encode(b.drop_last()));
        assert(b.drop_last().push(b.last()) =~= b);
    }
}

pub proof fn lemma_hex_decode_len(s: Seq<char>)
    requires
        s.len() % 2 == 0,
    ensures
        hex_decode(s).len() == s.len() / 2,
    decreases s.len(),
{
    if s.len() >= 2 {
        lemma_hex_decode_len(s.subrange(0, s.len() - 2));
    }
}

pub proof fn lemma_dec_char(d: nat)
    requires
        d < 10,
    ensures
        is_dec_digit(dec_char(d)),
        dec_char(d) as int - '0' as int == d,
{
}

pub proof fn lemma_dec_digits(n: nat)
    ensures
        dec_digits(n).len() > 0,
        all_dec_digits(dec_digits(n)),
        dec_value(dec_digits(n)) == n,
        dec_digits(n)[0] != '+',
        dec_digits(n)[0] != '|',
        forall|i: int| 0 <= i < dec_digits(n).len() ==> #[trigger] dec_digits(n)[i] != '|',
    decreases n,
{
    if n < 10 {
        lemma_dec_char(n);
        assert(dec_digits(n).drop_last() =~= Seq::<char>::empty());
        assert(dec_value(Seq::<char>::empty()) == 0);
        assert(dec_value(dec_digits(n)) == n);
    } else {
        lemma_dec_digits(n / 10);
        lemma_dec_char(n % 10);
        let d = dec_digits(n);
        let p = dec_digits(n / 10);
        assert(d.drop_last() =~= p);
        assert forall|i: int| 0 <= i < d.len() implies is_dec_digit(#[trigger] d[i]) by {
            if i < p.len() {
                assert(d[i] == p[i]);
            }
        }
        assert(d.last() == dec_char(n % 10));
        assert(dec_value(d) == dec_value(p) * 10 + (n % 10));
        assert(n == (n / 10) * 10 + n % 10);
    }
}

/// Relies on `str::chars`: the characters of the string, in order.
#[verifier::external_body]
pub(crate) fn chars_of(s: &str) -> (r: Vec<char>)
    ensures
        r@ == s@,
{
    s.chars().collect()
}

/// Relies on collecting characters into a `String`: the same characters, in order.
#[verifier::external_body]
pub(crate) fn string_of(c: &[char]) -> (r: String)
    ensures
        r@ == c@,
{
    c.iter().collect()
}

/// Relies on `<u64 as Display>`: the shortest decimal form.
#[verifier::external_body]
pub(crate) fn u64_to_dec(n: u64) -> (r: String)
    ensures
        r@ == dec_digits(n as nat),
{
    n.to_string()
}

/// Relies on `<usize as Display>`: the shortest decimal form.
#[verifier::external_body]
pub(crate) fn usize_to_dec(n: usize) -> (r: String)
    ensures
        r@ == dec_digits(n as nat),
{
    n.to_string()
}

/// Relies on `<u64 as LowerHex>`: the shortest lower-case hexadecimal form.
#[verifier::external_body]
pub(crate) fn u64_to_hex(n: u64) -> (r: String)
    ensures
        r@ == hex_digits(n as nat),
{
    format!("{:x}", n)
}

/// Relies on `<u64 as FromStr>`: an optional `+` and decimal digits that fit
/// in 64 bits, anything else is refused.
#[verifier::external_body]
pub(crate) fn parse_u64(s: &str) -> (r: Option<u64>)
    ensures
        r == parse_u64_spec(s@),
{
    s.parse::<u64>().ok()
}

/// Relies on `hex::encode`: two lower-case digits per byte.
#[verifier::external_body]
pub(crate) fn hex_encode_bytes(b: &[u8]) -> (r: String)
    ensures
        r@ == hex_encode(b@),
{
    hex::encode(b)
}

/// Relies on `hex::decode`: an even number of hex digits of either case, two
/// per byte; anything else is an error.
#[verifier::external_body]
pub(crate) fn hex_decode_str(s: &str) -> (r: Option<Vec<u8>>)
    ensures
        r is Some <==> is_hex_str(s@),
        r is Some ==> r.unwrap()@ == hex_decode(s@),
{
    hex::decode(s).ok()
}

} // verus!
