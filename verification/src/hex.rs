//! Hexadecimal text: digit values, rendering of bytes, and the decoding of
//! call data given as text.

use vstd::prelude::*;
use vstd::string::*;

verus! {

/// The ASCII codes between which the hexadecimal digits lie, and that of
/// the letter `x`.
const DIGIT_0: u8 = 0x30;

const DIGIT_9: u8 = 0x39;

const UPPER_A: u8 = 0x41;

const UPPER_F: u8 = 0x46;

const LOWER_A: u8 = 0x61;

const LOWER_F: u8 = 0x66;

const LOWER_X: u8 = 0x78;

/// The value of a hexadecimal digit, of either case.
pub open spec fn hex_value(c: char) -> Option<int> {
    if '0' <= c && c <= '9' {
        Some(c as int - '0' as int)
    } else if 'a' <= c && c <= 'f' {
        Some(c as int - 'a' as int + 10)
    } else if 'A' <= c && c <= 'F' {
        Some(c as int - 'A' as int + 10)
    } else {
        None
    }
}

/// Every element of `s` is a hexadecimal digit.
pub open spec fn all_hex(s: Seq<char>) -> bool {
    forall|i: int| 0 <= i < s.len() ==> (#[trigger] hex_value(s[i])) is Some
}

/// `s` without one leading `0x`, if it has one.
pub open spec fn strip_0x(s: Seq<char>) -> Seq<char> {
    if s.len() >= 2 && s[0] == '0' && s[1] == 'x' {
        s.skip(2)
    } else {
        s
    }
}

/// The byte that two hexadecimal digits denote, the high one first.
pub open spec fn byte_of(hi: char, lo: char) -> u8 {
    (16 * hex_value(hi).unwrap() + hex_value(lo).unwrap()) as u8
}

/// The bytes that a sequence of hexadecimal digits denotes, two digits each.
pub open spec fn bytes_of_digits(digits: Seq<char>) -> Seq<u8> {
    Seq::new(digits.len() / 2, |i: int| byte_of(digits[2 * i], digits[2 * i + 1]))
}

/// The lowercase hexadecimal digit of a value below sixteen.
pub open spec fn lower_digit(v: int) -> char {
    if v < 10 {
        (v + '0' as int) as char
    } else {
        (v - 10 + 'a' as int) as char
    }
}

/// The lowercase hexadecimal rendering of bytes, two digits each.
pub open spec fn lower_hex(bytes: Seq<u8>) -> Seq<char> {
    Seq::new(
        2 * bytes.len(),
        |i: int| if i % 2 == 0 {
            lower_digit(bytes[i / 2] as int / 16)
        } else {
            lower_digit(bytes[i / 2] as int % 16)
        },
    )
}

/// Call data as text is well formed: after an optional `0x`, an even number
/// of hexadecimal digits and nothing else.
pub open spec fn is_call_data_text(s: Seq<char>) -> bool {
    strip_0x(s).len() % 2 == 0 && all_hex(strip_0x(s))
}

/// The bytes that well-formed call data text denotes.
pub open spec fn call_data_bytes(s: Seq<char>) -> Seq<u8> {
    bytes_of_digits(strip_0x(s))
}

/// The value of a hexadecimal digit given as a byte.
pub fn digit_value(b: u8) -> (r: Option<u8>)
    ensures
        r is Some <==> hex_value(b as char) is Some,
        r is Some ==> r.unwrap() as int == hex_value(b as char).unwrap(),
        r is Some ==> r.unwrap() < 16,
{
    if b >= DIGIT_0 && b <= DIGIT_9 {
        Some(b - DIGIT_0)
    } else if b >= LOWER_A && b <= LOWER_F {
        Some(b - LOWER_A + 10)
    } else if b >= UPPER_A && b <= UPPER_F {
        Some(b - UPPER_A + 10)
    } else {
        None
    }
}

/// Decodes call data given as text into bytes.
///
/// The text may start with `0x`; what follows must be an even number of
/// hexadecimal digits of either case. Anything else is rejected.
pub fn parse_call_data(text: &str) -> (r: Option<Vec<u8>>)
    ensures
        r is Some <==> is_call_data_text(text@),
        r is Some ==> r.unwrap()@ == call_data_bytes(text@),
{
    if !text.is_ascii() {
        proof {
            lemma_non_ascii_is_not_hex(text@);
        }
        return None;
    }
    broadcast use is_ascii_spec_bytes;

    let raw = text.as_bytes();
    let n = raw.len();
    assert forall|i: int| 0 <= i < n implies (raw@[i] as char) == #[trigger] text@[i] by {
        assert(raw@[i] == text@[i] as u8);
        assert('\0' <= text@[i] <= '\u{7f}');
    }
    let start: usize = if n >= 2 && raw[0] == DIGIT_0 && raw[1] == LOWER_X {
        2
    } else {
        0
    };
    let ghost digits = strip_0x(text@);
    assert(digits =~= text@.skip(start as int));
    if (n - start) % 2 != 0 {
        return None;
    }
    let count: usize = (n - start) / 2;
    let mut out: Vec<u8> = Vec::new();
    let mut k: usize = 0;
    while k < count
        invariant
            k <= count,
            n == raw@.len(),
            n == text@.len(),
            start <= n,
            count * 2 == n - start,
            digits == text@.skip(start as int),
            digits == strip_0x(text@),
            forall|i: int| 0 <= i < n ==> (raw@[i] as char) == #[trigger] text@[i],
            out@.len() == k,
            forall|i: int| 0 <= i < 2 * k ==> (#[trigger] hex_value(digits[i])) is Some,
            forall|i: int| 0 <= i < k ==> out@[i] == byte_of(digits[2 * i], digits[2 * i + 1]),
        decreases count - k,
    {
        let hi = digit_value(raw[start + 2 * k]);
        let lo = digit_value(raw[start + 2 * k + 1]);
        assert(digits[2 * k as int] == text@[start + 2 * k]);
        assert(digits[2 * k + 1] == text@[start + 2 * k + 1]);
        match (hi, lo) {
            (Some(h), Some(l)) => {
                let b: u8 = h * 16 + l;
                out.push(b);
            },
            _ => {
                assert(!all_hex(digits)) by {
                    if hi is None {
                        assert(hex_value(digits[2 * k as int]) is None);
                    } else {
                        assert(hex_value(digits[2 * k + 1]) is None);
                    }
                }
                return None;
            },
        }
        k = k + 1;
    }
    assert(all_hex(digits));
    assert(out@ =~= bytes_of_digits(digits));
    Some(out)
}

/// Text with a character outside ASCII is no call data.
proof fn lemma_non_ascii_is_not_hex(s: Seq<char>)
    requires
        !vstd::utf8::is_ascii_chars(s),
    ensures
        !is_call_data_text(s),
{
    let i = choose|i: int| 0 <= i < s.len() && !('\0' <= #[trigger] s[i] <= '\u{7f}');
    assert(hex_value(s[i]) is None);
    if s.len() >= 2 && s[0] == '0' && s[1] == 'x' {
        assert(i >= 2);
        assert(strip_0x(s)[i - 2] == s[i]);
    } else {
        assert(strip_0x(s)[i] == s[i]);
    }
}

/// A lowercase digit is a hexadecimal digit with the value it renders, and no
/// uppercase letter.
pub proof fn lemma_lower_digit(v: int)
    requires
        0 <= v < 16,
    ensures
        hex_value(lower_digit(v)) == Some(v),
        !('A' <= lower_digit(v) <= 'Z'),
        !(lower_digit(v) == ' ' || lower_digit(v) == '\r' || lower_digit(v) == '\n'
            || lower_digit(v) == '\t'),
        lower_digit(v) != 'x',
{
}

} // verus!
