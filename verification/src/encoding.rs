//! Hexadecimal text and Bitcoin's wire encodings.

use vstd::prelude::*;

verus! {

/// The lower-case hexadecimal digit of `n`.
pub open spec fn hex_digit(n: int) -> char {
    if n < 10 {
        (48 + n) as char
    } else {
        (87 + n) as char
    }
}

/// `bytes` in lower-case hexadecimal notation, two digits for each byte.
pub open spec fn hex_text(bytes: Seq<u8>) -> Seq<char> {
    Seq::new(
        2 * bytes.len(),
        |i: int|
            hex_digit(
                if i % 2 == 0 {
                    bytes[i / 2] as int / 16
                } else {
                    bytes[i / 2] as int % 16
                },
            ),
    )
}

/// The value of a hexadecimal digit of either case.
pub open spec fn hex_value(c: char) -> Option<int> {
    if '0' <= c <= '9' {
        Some(c as int - 48)
    } else if 'a' <= c <= 'f' {
        Some(c as int - 87)
    } else if 'A' <= c <= 'F' {
        Some(c as int - 55)
    } else {
        None
    }
}

/// Whether `text` is an even number of hexadecimal digits.
pub open spec fn is_hex(text: Seq<char>) -> bool {
    text.len() % 2 == 0 && forall|i: int| 0 <= i < text.len() ==> hex_value(#[trigger] text[i]) is Some
}

/// The bytes that hexadecimal `text` stands for.
pub open spec fn hex_bytes(text: Seq<char>) -> Seq<u8> {
    Seq::new(
        text.len() / 2,
        |i: int| (16 * hex_value(text[2 * i])->0 + hex_value(text[2 * i + 1])->0) as u8,
    )
}

/// What `hex::decode` reports of a text that is not hexadecimal.
pub uninterp spec fn hex_error(text: Seq<char>) -> Seq<char>;

/// Calls `hex::encode`. Claimed: each byte gives its high and its low digit, in lower case.
#[verifier::external_body]
pub(crate) fn encode_hex(bytes: &[u8]) -> (text: String)
    ensures
        text@ == hex_text(bytes@),
{
    hex::encode(bytes)
}

/// Calls `hex::decode`. Claimed: an even number of digits of either case gives the bytes, and
/// any other text an error whose message depends on the text alone.
#[verifier::external_body]
pub(crate) fn decode_hex(text: &str) -> (decoded: Result<Vec<u8>, String>)
    ensures
        match decoded {
            Ok(bytes) => is_hex(text@) && bytes@ == hex_bytes(text@),
            Err(message) => !is_hex(text@) && message@ == hex_error(text@),
        },
{
    hex::decode(text).map_err(|error| error.to_string())
}

/// Hexadecimal text gives back the bytes it was made of.
pub proof fn hex_round_trip(bytes: Seq<u8>)
    ensures
        is_hex(hex_text(bytes)),
        hex_bytes(hex_text(bytes)) == bytes,
{
    let text = hex_text(bytes);
    assert forall|i: int| 0 <= i < text.len() implies hex_value(#[trigger] text[i]) is Some by {}
    assert forall|i: int| 0 <= i < bytes.len() implies #[trigger] hex_bytes(text)[i] == bytes[i] by {
        assert(text[2 * i] == hex_digit(bytes[i] as int / 16));
        assert(text[2 * i + 1] == hex_digit(bytes[i] as int % 16));
        assert(hex_value(text[2 * i]) == Some(bytes[i] as int / 16));
        assert(hex_value(text[2 * i + 1]) == Some(bytes[i] as int % 16));
    }
    assert(hex_bytes(text) =~= bytes);
}

/// The digits of a hexadecimal number, which may have a plus sign in front.
pub open spec fn number_digits(text: Seq<char>) -> Seq<char> {
    if text.len() > 0 && text[0] == '+' {
        text.skip(1)
    } else {
        text
    }
}

/// The number that hexadecimal digits stand for, the highest first.
pub open spec fn digits_value(digits: Seq<char>) -> int
    decreases digits.len(),
{
    if digits.len() == 0 {
        0
    } else {
        16 * digits_value(digits.drop_last()) + hex_value(digits.last())->0
    }
}

/// Whether a text is a hexadecimal number that fits 32 bits.
pub open spec fn is_hex_number(text: Seq<char>) -> bool {
    let digits = number_digits(text);
    &&& digits.len() > 0
    &&& forall|i: int| 0 <= i < digits.len() ==> hex_value(#[trigger] digits[i]) is Some
    &&& digits_value(digits) <= u32::MAX
}

/// What `u32::from_str_radix` reports of a text that is no such number.
pub uninterp spec fn hex_number_error(text: Seq<char>) -> Seq<char>;

/// Calls `u32::from_str_radix` with base sixteen. Claimed: an optional plus sign and digits of
/// either case give the number if it fits 32 bits, and any other text an error whose message
/// depends on the text alone.
#[verifier::external_body]
pub(crate) fn read_hex_number(text: &str) -> (number: Result<u32, String>)
    ensures
        match number {
            Ok(n) => is_hex_number(text@) && n == digits_value(number_digits(text@)),
            Err(message) => !is_hex_number(text@) && message@ == hex_number_error(text@),
        },
{
    u32::from_str_radix(text, 16).map_err(|error| error.to_string())
}

/// The `width` low bytes of `n`, the lowest first.
pub open spec fn little_endian(n: nat, width: nat) -> Seq<u8>
    decreases width,
{
    if width == 0 {
        Seq::empty()
    } else {
        seq![(n % 256) as u8] + little_endian(n / 256, (width - 1) as nat)
    }
}

/// The number that little-endian `bytes` stand for.
pub open spec fn little_endian_value(bytes: Seq<u8>) -> nat
    decreases bytes.len(),
{
    if bytes.len() == 0 {
        0
    } else {
        bytes[0] as nat + 256 * little_endian_value(bytes.drop_first())
    }
}

/// The number that big-endian `bytes` stand for.
pub open spec fn big_endian_value(bytes: Seq<u8>) -> nat
    decreases bytes.len(),
{
    if bytes.len() == 0 {
        0
    } else {
        256 * big_endian_value(bytes.drop_last()) + bytes.last() as nat
    }
}

/// Bitcoin's variable-length integer.
pub open spec fn compact_size(n: nat) -> Seq<u8> {
    if n < 0xfd {
        little_endian(n, 1)
    } else if n <= 0xffff {
        seq![0xfdu8] + little_endian(n, 2)
    } else if n <= 0xffff_ffff {
        seq![0xfeu8] + little_endian(n, 4)
    } else {
        seq![0xffu8] + little_endian(n, 8)
    }
}

/// The first eight bytes of `bytes` as a big-endian number.
pub(crate) fn leading_u64(bytes: &[u8; 32]) -> (n: u64)
    ensures
        n == big_endian_value(bytes@.take(8)),
{
    let mut n: u64 = 0;
    let mut i: usize = 0;
    assert(bytes@.take(0) =~= Seq::<u8>::empty());
    let ghost mut bound: int = 1;
    proof {
        reveal_with_fuel(vstd::arithmetic::power::pow, 9);
    }
    while i < 8
        invariant
            i <= 8,
            n == big_endian_value(bytes@.take(i as int)),
            n < bound,
            bound == vstd::arithmetic::power::pow(256, i as nat),
        decreases 8 - i,
    {
        proof {
            reveal_with_fuel(vstd::arithmetic::power::pow, 9);
        }
        assert(bytes@.take(i + 1).drop_last() =~= bytes@.take(i as int));
        n = n * 256 + bytes[i] as u64;
        i = i + 1;
        proof {
            bound = bound * 256;
        }
    }
    n
}

/// A big-endian number grows by a factor of 256 with each byte behind it.
pub proof fn big_endian_bytes_count_down(bytes: Seq<u8>, next: u8)
    ensures
        big_endian_value(Seq::<u8>::empty()) == 0,
        big_endian_value(bytes.push(next)) == 256 * big_endian_value(bytes) + next,
{
    assert(bytes.push(next).drop_last() =~= bytes);
}

/// Bytes with the lowest first give back the number they were made of, if it fits.
pub proof fn little_endian_round_trip(n: nat, width: nat)
    ensures
        little_endian(n, width).len() == width,
        n < vstd::arithmetic::power::pow(256, width) ==> little_endian_value(
            little_endian(n, width),
        ) == n,
    decreases width,
{
    reveal_with_fuel(vstd::arithmetic::power::pow, 1);
    vstd::arithmetic::power::lemma_pow0(256);
    if width > 0 {
        let rest = (width - 1) as nat;
        little_endian_round_trip(n / 256, rest);
        assert(little_endian(n, width).drop_first() =~= little_endian(n / 256, rest));
        assert(vstd::arithmetic::power::pow(256, width) == 256 * vstd::arithmetic::power::pow(
            256,
            rest,
        ));
    }
}

} // verus!
