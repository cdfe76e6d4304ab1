//! Hexadecimal quantities as they travel in requests and replies: `0x`
//! followed by the digits of the number.

use vstd::prelude::*;
use vstd::string::StringExecFns;
use vstd::utf8::{encode_utf8, is_ascii_chars, is_ascii_chars_encode_utf8};

verus! {

/// The character that stands for the digit `d` (lower case above nine).
pub open spec fn digit_char(d: int) -> char {
    if d == 0 {
        '0'
    } else if d == 1 {
        '1'
    } else if d == 2 {
        '2'
    } else if d == 3 {
        '3'
    } else if d == 4 {
        '4'
    } else if d == 5 {
        '5'
    } else if d == 6 {
        '6'
    } else if d == 7 {
        '7'
    } else if d == 8 {
        '8'
    } else if d == 9 {
        '9'
    } else if d == 10 {
        'a'
    } else if d == 11 {
        'b'
    } else if d == 12 {
        'c'
    } else if d == 13 {
        'd'
    } else if d == 14 {
        'e'
    } else {
        'f'
    }
}

/// The digits of `v` in base sixteen, most significant first, without
/// leading zeros; zero is the single digit `0`.
pub open spec fn hex_digits(v: nat) -> Seq<char>
    decreases v,
{
    if v < 16 {
        seq![digit_char(v as int)]
    } else {
        hex_digits(v / 16).push(digit_char((v % 16) as int))
    }
}

/// The unsigned number with the same sixty-four bits as `n`.
pub open spec fn bit_image(n: i64) -> nat {
    if n >= 0 {
        n as nat
    } else {
        (n + 0x1_0000_0000_0000_0000) as nat
    }
}

/// The text of `n` as a quantity: `0x`, then the digits of its bit image.
pub open spec fn quantity_text(n: i64) -> Seq<char> {
    seq!['0', 'x'] + hex_digits(bit_image(n))
}

fn digit_str(d: u64) -> (s: &'static str)
    requires
        d < 16,
    ensures
        s@ == seq![digit_char(d as int)],
{
    proof {
        reveal_strlit("0");
        reveal_strlit("1");
        reveal_strlit("2");
        reveal_strlit("3");
        reveal_strlit("4");
        reveal_strlit("5");
        reveal_strlit("6");
        reveal_strlit("7");
        reveal_strlit("8");
        reveal_strlit("9");
        reveal_strlit("a");
        reveal_strlit("b");
        reveal_strlit("c");
        reveal_strlit("d");
        reveal_strlit("e");
        reveal_strlit("f");
    }
    if d == 0 {
        "0"
    } else if d == 1 {
        "1"
    } else if d == 2 {
        "2"
    } else if d == 3 {
        "3"
    } else if d == 4 {
        "4"
    } else if d == 5 {
        "5"
    } else if d == 6 {
        "6"
    } else if d == 7 {
        "7"
    } else if d == 8 {
        "8"
    } else if d == 9 {
        "9"
    } else if d == 10 {
        "a"
    } else if d == 11 {
        "b"
    } else if d == 12 {
        "c"
    } else if d == 13 {
        "d"
    } else if d == 14 {
        "e"
    } else {
        "f"
    }
}

fn push_digits(out: &mut String, v: u64)
    ensures
        final(out)@ == old(out)@ + hex_digits(v as nat),
    decreases v,
{
    if v >= 16 {
        push_digits(out, v / 16);
    }
    out.append(digit_str(v % 16));
}

/// Writes `n` as a quantity. A negative number is written by its bit image,
/// so `-1` becomes `0xffffffffffffffff`.
pub fn encode_quantity(n: i64) -> (text: String)
    ensures
        text@ == quantity_text(n),
{
    let image: u64 = if n >= 0 {
        n as u64
    } else {
        ((n - i64::MIN) as u64) + 0x8000_0000_0000_0000u64
    };
    let mut text = String::from_str("0x");
    proof {
        reveal_strlit("0x");
    }
    push_digits(&mut text, image);
    text
}

/// Why a text is not a quantity.
#[derive(Clone, Copy, Debug, PartialEq, Eq, Structural)]
pub enum QuantityError {
    /// The text does not open with the marker `0x`.
    NoMarker,
    /// Nothing follows the marker.
    NoDigits,
    /// A byte after the marker is not a hexadecimal digit.
    InvalidDigit,
    /// The digits are valid, but the number is above the largest that
    /// sixty-four signed bits hold.
    OutOfRange,
}

/// The value of the byte `b` read as a hexadecimal digit of either case.
pub open spec fn digit_value(b: u8) -> Option<int> {
    if 0x30 <= b <= 0x39 {
        Some(b - 0x30)
    } else if 0x61 <= b <= 0x66 {
        Some(b - 0x61 + 10)
    } else if 0x41 <= b <= 0x46 {
        Some(b - 0x41 + 10)
    } else {
        None
    }
}

/// Every byte of `digits` is a hexadecimal digit.
pub open spec fn all_digits(digits: Seq<u8>) -> bool {
    forall|i: int| 0 <= i < digits.len() ==> (#[trigger] digit_value(digits[i])) is Some
}

/// The number that `digits` spell in base sixteen, most significant first.
pub open spec fn magnitude(digits: Seq<u8>) -> int
    decreases digits.len(),
{
    if digits.len() == 0 {
        0
    } else {
        16 * magnitude(digits.drop_last()) + digit_value(digits.last()).unwrap()
    }
}

/// Whether `bytes` open with the marker: the two characters `0x`.
pub open spec fn has_marker(bytes: Seq<u8>) -> bool {
    bytes.len() >= 2 && bytes[0] == 0x30 && bytes[1] == 0x78
}

/// What the bytes of a text mean as a quantity.
///
/// A quantity is the marker `0x` and then at least one hexadecimal digit of
/// either case, and nothing else; leading zeros are allowed. It stands for
/// the number that its digits spell, which is never negative.
pub open spec fn parse_spec(bytes: Seq<u8>) -> Result<i64, QuantityError> {
    let digits = bytes.skip(2);
    if !has_marker(bytes) {
        Err(QuantityError::NoMarker)
    } else if digits.len() == 0 {
        Err(QuantityError::NoDigits)
    } else if !all_digits(digits) {
        Err(QuantityError::InvalidDigit)
    } else if magnitude(digits) <= i64::MAX {
        Ok(magnitude(digits) as i64)
    } else {
        Err(QuantityError::OutOfRange)
    }
}

fn digit_of(b: u8) -> (d: Option<u64>)
    ensures
        match d {
            Some(v) => digit_value(b) == Some(v as int) && v < 16,
            None => digit_value(b) is None,
        },
{
    if 0x30 <= b && b <= 0x39 {
        Some((b - 0x30) as u64)
    } else if 0x61 <= b && b <= 0x66 {
        Some((b - 0x61 + 10) as u64)
    } else if 0x41 <= b && b <= 0x46 {
        Some((b - 0x41 + 10) as u64)
    } else {
        None
    }
}

/// Reading one more digit multiplies what was read by sixteen and adds the
/// digit.
proof fn lemma_magnitude_step(digits: Seq<u8>, k: int)
    requires
        0 <= k < digits.len(),
    ensures
        magnitude(digits.take(k + 1)) == 16 * magnitude(digits.take(k)) + digit_value(
            digits[k],
        ).unwrap(),
{
    assert(digits.take(k + 1).drop_last() =~= digits.take(k));
}

/// A run of valid digits never spells a negative number.
proof fn lemma_magnitude_nonnegative(digits: Seq<u8>)
    requires
        all_digits(digits),
    ensures
        magnitude(digits) >= 0,
    decreases digits.len(),
{
    if digits.len() > 0 {
        assert(all_digits(digits.drop_last()));
        lemma_magnitude_nonnegative(digits.drop_last());
    }
}

/// A quantity is never negative.
pub proof fn law_quantity_not_negative(bytes: Seq<u8>)
    ensures
        parse_spec(bytes) matches Ok(n) ==> n >= 0,
{
    if parse_spec(bytes) is Ok {
        lemma_magnitude_nonnegative(bytes.skip(2));
    }
}

/// Reads a quantity out of `text`: the number that follows the marker `0x`
/// in hexadecimal digits, or the first reason in the order of
/// [`QuantityError`] why `text` is no quantity.
pub fn parse_quantity(text: &str) -> (r: Result<i64, QuantityError>)
    ensures
        r == parse_spec(encode_utf8(text@)),
        r matches Ok(n) ==> n >= 0,
{
    let bytes = text.as_bytes();
    let n: usize = bytes.len();
    if n < 2 || bytes[0] != 0x30 || bytes[1] != 0x78 {
        return Err(QuantityError::NoMarker);
    }
    if n == 2 {
        return Err(QuantityError::NoDigits);
    }
    let ghost digits = bytes@.skip(2);
    let mut acc: u64 = 0;
    let mut over = false;
    let mut i: usize = 2;
    while i < n
        invariant
            2 <= i <= n,
            n == bytes@.len(),
            bytes@ == encode_utf8(text@),
            has_marker(bytes@),
            digits == bytes@.skip(2),
            all_digits(digits.take(i - 2)),
            !over ==> acc == magnitude(digits.take(i - 2)) && acc <= i64::MAX,
            over ==> magnitude(digits.take(i - 2)) > i64::MAX,
        decreases n - i,
    {
        let ghost k = i - 2;
        proof {
            lemma_magnitude_step(digits, k);
            lemma_magnitude_nonnegative(digits.take(k));
        }
        match digit_of(bytes[i]) {
            None => {
                assert(digit_value(digits[k]) is None);
                return Err(QuantityError::InvalidDigit);
            },
            Some(d) => {
                if !over {
                    if acc >= 0x0800_0000_0000_0000 {
                        over = true;
                    } else {
                        acc = acc * 16 + d;
                    }
                }
                assert(all_digits(digits.take(k + 1)));
            },
        }
        i = i + 1;
    }
    assert(digits.take(n - 2) =~= digits);
    if over {
        Err(QuantityError::OutOfRange)
    } else {
        Ok(acc as i64)
    }
}

/// The bytes of a text of ASCII characters: one for each.
spec fn ascii_bytes(chars: Seq<char>) -> Seq<u8> {
    Seq::new(chars.len(), |i: int| chars[i] as u8)
}

/// The digits that are written for `v` are ASCII, are digits, and spell
/// `v`.
proof fn lemma_digits_spell_the_number(v: nat)
    ensures
        hex_digits(v).len() > 0,
        is_ascii_chars(hex_digits(v)),
        all_digits(ascii_bytes(hex_digits(v))),
        magnitude(ascii_bytes(hex_digits(v))) == v,
    decreases v,
{
    let digits = hex_digits(v);
    let bytes = ascii_bytes(digits);
    if v < 16 {
        assert(magnitude(bytes.drop_last()) == 0);
    } else {
        lemma_digits_spell_the_number(v / 16);
        let front = ascii_bytes(hex_digits(v / 16));
        assert(bytes.drop_last() =~= front);
        assert forall|i: int| 0 <= i < bytes.len() implies (#[trigger] digit_value(
            bytes[i],
        )) is Some by {
            if i < front.len() {
                assert(bytes[i] == front[i]);
            }
        }
        assert(is_ascii_chars(digits));
    }
}

/// What is written for a number that is not negative reads back as that
/// number.
pub proof fn law_quantity_reads_back(n: i64)
    requires
        n >= 0,
    ensures
        parse_spec(encode_utf8(quantity_text(n))) == Ok::<i64, QuantityError>(n),
{
    let digits = hex_digits(n as nat);
    let text = quantity_text(n);
    lemma_digits_spell_the_number(n as nat);
    assert(is_ascii_chars(text));
    is_ascii_chars_encode_utf8(text);
    assert(encode_utf8(text).skip(2) =~= ascii_bytes(digits));
}

} // verus!
