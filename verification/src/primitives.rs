//! What the library takes from `alloy-primitives`: hexadecimal decoding, the
//! text of addresses and 32-byte words, and the decimal text of a 256-bit
//! number. The functions here are believed, not proved; each states in its
//! contract what the outside function does.

use vstd::prelude::*;

verus! {

/// Whether `c` is a hexadecimal digit, in either case.
pub open spec fn is_hex_digit(c: char) -> bool {
    ('0' <= c <= '9') || ('a' <= c <= 'f') || ('A' <= c <= 'F')
}

/// The value of a hexadecimal digit, either case.
pub open spec fn hex_digit_value(c: char) -> nat {
    if '0' <= c <= '9' {
        (c as u32 - 0x30) as nat
    } else if 'a' <= c <= 'f' {
        (c as u32 - 0x61 + 10) as nat
    } else {
        (c as u32 - 0x41 + 10) as nat
    }
}

/// Whether `s` holds hexadecimal digits only.
pub open spec fn all_hex_digits(s: Seq<char>) -> bool {
    forall|i: int| 0 <= i < s.len() ==> is_hex_digit(#[trigger] s[i])
}

/// `s` without one leading `0x` or `0X`.
pub open spec fn hex_payload(s: Seq<char>) -> Seq<char> {
    if s.len() >= 2 && s[0] == '0' && (s[1] == 'x' || s[1] == 'X') {
        s.skip(2)
    } else {
        s
    }
}

/// The bytes that an even run of hexadecimal digits spells, two digits a byte.
pub open spec fn hex_bytes(digits: Seq<char>) -> Seq<u8> {
    Seq::new(
        digits.len() / 2,
        |i: int| (16 * hex_digit_value(digits[2 * i]) + hex_digit_value(digits[2 * i + 1])) as u8,
    )
}

/// The bytes that `s` spells in hexadecimal, with or without a `0x` prefix;
/// `None` where a character is no hexadecimal digit or their number is odd.
pub open spec fn hex_decoded(s: Seq<char>) -> Option<Seq<u8>> {
    let digits = hex_payload(s);
    if digits.len() % 2 == 0 && all_hex_digits(digits) {
        Some(hex_bytes(digits))
    } else {
        None
    }
}

/// The bytes that `s` spells in hexadecimal where they are exactly `n`.
pub open spec fn hex_decoded_exact(s: Seq<char>, n: nat) -> Option<Seq<u8>> {
    match hex_decoded(s) {
        Some(bytes) => if bytes.len() == n {
            Some(bytes)
        } else {
            None
        },
        None => None,
    }
}

/// `0x` followed by `digits` zeros.
pub open spec fn zero_hex(digits: nat) -> Seq<char> {
    seq!['0', 'x'] + Seq::new(digits, |i: int| '0')
}

/// The zero text of `digits` digits has two characters more than digits,
/// begins with `0x`, and holds no character but `0` after that.
pub proof fn zero_hex_shape(digits: nat)
    ensures
        zero_hex(digits).len() == digits + 2,
        zero_hex(digits)[0] == '0',
        zero_hex(digits)[1] == 'x',
        forall|i: int| 2 <= i < digits + 2 ==> zero_hex(digits)[i] == '0',
        hex_decoded(zero_hex(digits)) == (if digits % 2 == 0 {
            Some(Seq::new(digits / 2, |i: int| 0u8))
        } else {
            None
        }),
{
    let z = zero_hex(digits);
    let payload = Seq::new(digits, |i: int| '0');
    assert(z.skip(2) =~= payload);
    assert(hex_payload(z) == payload);
    assert(all_hex_digits(payload));
    if digits % 2 == 0 {
        assert(hex_bytes(payload) =~= Seq::new(digits / 2, |i: int| 0u8));
    }
}

/// The number held in four 64-bit limbs, least significant first.
pub open spec fn limbs_value(limbs: Seq<u64>) -> nat {
    (limbs[0] as nat) + (limbs[1] as nat) * 0x1_0000_0000_0000_0000 + (limbs[2] as nat)
        * 0x1_0000_0000_0000_0000_0000_0000_0000_0000 + (limbs[3] as nat)
        * 0x1_0000_0000_0000_0000_0000_0000_0000_0000_0000_0000_0000_0000
}

/// The character of the decimal digit `d`.
pub open spec fn digit_char(d: nat) -> char {
    ((0x30 + d) as u8) as char
}

/// The decimal numeral of `n`, without sign or leading zeros.
pub open spec fn decimal_text(n: nat) -> Seq<char>
    decreases n,
{
    if n < 10 {
        seq![digit_char(n)]
    } else {
        decimal_text(n / 10).push(digit_char(n % 10))
    }
}

/// `alloy_primitives::hex::decode`: the bytes of a hexadecimal text. The
/// function takes one `0x` or `0X` prefix off, then wants an even number of
/// hexadecimal digits and nothing else.
#[verifier::external_body]
pub(crate) fn hex_decode(text: &str) -> (r: Option<Vec<u8>>)
    ensures
        match r {
            Some(bytes) => hex_decoded(text@) == Some(bytes@),
            None => hex_decoded(text@) is None,
        },
{
    match alloy_primitives::hex::decode(text) {
        Ok(bytes) => Some(bytes),
        Err(_) => None,
    }
}

/// `str::parse::<alloy_primitives::Address>`: the 20 bytes of an address
/// written in hexadecimal, with or without prefix, in either case; no
/// checksum is asked for.
#[verifier::external_body]
pub(crate) fn parse_address(text: &str) -> (r: Option<[u8; 20]>)
    ensures
        match r {
            Some(bytes) => hex_decoded_exact(text@, 20) == Some(bytes@),
            None => hex_decoded_exact(text@, 20) is None,
        },
{
    match text.parse::<alloy_primitives::Address>() {
        Ok(address) => Some(address.0.0),
        Err(_) => None,
    }
}

/// `str::parse::<alloy_primitives::B256>`: the 32 bytes of a word written
/// in hexadecimal, with or without prefix.
#[verifier::external_body]
pub(crate) fn parse_word(text: &str) -> (r: Option<[u8; 32]>)
    ensures
        match r {
            Some(bytes) => hex_decoded_exact(text@, 32) == Some(bytes@),
            None => hex_decoded_exact(text@, 32) is None,
        },
{
    match text.parse::<alloy_primitives::B256>() {
        Ok(word) => Some(word.0),
        Err(_) => None,
    }
}

/// The text of `alloy_primitives::Address::ZERO`: the checksum form leaves
/// digits as they are, so it is `0x` and forty zeros.
#[verifier::external_body]
pub(crate) fn zero_address_text() -> (r: String)
    ensures
        r@ == zero_hex(40),
{
    alloy_primitives::Address::ZERO.to_string()
}

/// The text of `alloy_primitives::B256::ZERO`: `0x` and sixty-four zeros.
#[verifier::external_body]
pub(crate) fn zero_word_text() -> (r: String)
    ensures
        r@ == zero_hex(64),
{
    alloy_primitives::B256::ZERO.to_string()
}

/// The text of an `alloy_primitives::U256` built from its four limbs: the
/// decimal numeral of its value.
#[verifier::external_body]
pub(crate) fn u256_text(limbs: &[u64; 4]) -> (r: String)
    ensures
        r@ == decimal_text(limbs_value(limbs@)),
{
    alloy_primitives::U256::from_limbs(*limbs).to_string()
}

} // verus!
