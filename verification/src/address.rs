//! Contract addresses: twenty bytes, read from hexadecimal text and rendered
//! in lowercase for use as a cache key.

use crate::hex::{
    all_hex, byte_of, bytes_of_digits, hex_value, lemma_lower_digit, lower_digit, lower_hex,
    strip_0x,
};
use vstd::prelude::*;

verus! {

/// The characters that may stand anywhere among the digits of an address.
pub open spec fn is_blank(c: char) -> bool {
    c == ' ' || c == '\r' || c == '\n' || c == '\t'
}

/// The characters of address text that count: what follows an optional
/// leading `0x`, without blanks.
pub open spec fn address_digits(s: Seq<char>) -> Seq<char> {
    strip_0x(s).filter(|c: char| !is_blank(c))
}

/// Text denotes an address: forty hexadecimal digits count, and nothing else.
pub open spec fn is_address_text(s: Seq<char>) -> bool {
    address_digits(s).len() == 40 && all_hex(address_digits(s))
}

/// The twenty bytes that address text denotes, the first digits first.
pub open spec fn address_bytes(s: Seq<char>) -> Seq<u8> {
    bytes_of_digits(address_digits(s))
}

/// The canonical rendering of an address: `0x` and forty lowercase digits.
pub open spec fn address_text(bytes: Seq<u8>) -> Seq<char> {
    seq!['0', 'x'] + lower_hex(bytes)
}

/// A contract address.
#[derive(Clone, Copy, Debug, PartialEq, Eq)]
pub struct Address {
    pub bytes: [u8; 20],
}

/// Why text was not accepted as an address.
#[derive(Clone, Debug, PartialEq, Eq)]
pub struct InvalidAddress {
    /// What the parser said of the text.
    pub reason: String,
}

/// Calls `FromStr::from_str` of `ethers::types::Address`.
///
/// That function drops one leading `0x`, skips blanks (space, carriage
/// return, line feed, tab) and accepts exactly forty hexadecimal digits of
/// either case, which it reads as twenty bytes, the first digits first. It
/// fails on any other character and on any other number of digits. The
/// error is handed back as the text of its `Display`.
#[verifier::external_body]
fn parse_h160(text: &str) -> (r: Result<[u8; 20], String>)
    ensures
        r is Ok <==> is_address_text(text@),
        r is Ok ==> r.unwrap()@ == address_bytes(text@),
{
    match text.parse::<ethers::types::Address>() {
        Ok(address) => Ok(address.0),
        Err(e) => Err(e.to_string()),
    }
}

/// Formats an `ethers::types::Address` with `{:?}`.
///
/// Its `Debug` writes `0x` and then each of the twenty bytes as two lowercase
/// hexadecimal digits.
#[verifier::external_body]
fn debug_h160(bytes: &[u8; 20]) -> (r: String)
    ensures
        r@ == address_text(bytes@),
{
    format!("{:?}", ethers::types::Address::from(*bytes))
}

impl View for Address {
    type V = Seq<u8>;

    open spec fn view(&self) -> Seq<u8> {
        self.bytes@
    }
}

impl Address {
    /// Reads an address from text.
    pub fn parse(text: &str) -> (r: Result<Address, InvalidAddress>)
        ensures
            r is Ok <==> is_address_text(text@),
            r is Ok ==> r.unwrap()@ == address_bytes(text@),
    {
        match parse_h160(text) {
            Ok(bytes) => Ok(Address { bytes }),
            Err(reason) => Err(InvalidAddress { reason }),
        }
    }

    /// The key under which the cache holds this address: its canonical
    /// rendering, which has no uppercase letter.
    pub fn cache_key(&self) -> (r: String)
        ensures
            r@ == address_text(self@),
            r@.len() == 42,
            forall|i: int| 0 <= i < r@.len() ==> !('A' <= #[trigger] r@[i] <= 'Z'),
    {
        let key = debug_h160(&self.bytes);
        proof {
            lemma_address_text_is_lowercase(self@);
        }
        key
    }
}

/// The canonical rendering has forty-two characters, none of them an
/// uppercase letter, and all but the first two are hexadecimal digits.
pub proof fn lemma_address_text_is_lowercase(bytes: Seq<u8>)
    requires
        bytes.len() == 20,
    ensures
        address_text(bytes).len() == 42,
        forall|i: int|
            0 <= i < address_text(bytes).len() ==> !('A' <= #[trigger] address_text(bytes)[i]
                <= 'Z'),
        forall|i: int|
            2 <= i < address_text(bytes).len() ==> hex_value(#[trigger] address_text(bytes)[i])
                is Some,
{
    let t = address_text(bytes);
    assert forall|i: int| 0 <= i < t.len() implies !('A' <= #[trigger] t[i] <= 'Z') && (i >= 2
        ==> hex_value(t[i]) is Some) by {
        if i >= 2 {
            let j = i - 2;
            assert(t[i] == lower_hex(bytes)[j]);
            let b = bytes[j / 2] as int;
            lemma_lower_digit(b / 16);
            lemma_lower_digit(b % 16);
        }
    }
}

/// A letter among the hexadecimal digits in lowercase; any other character
/// as it is.
pub open spec fn lower(c: char) -> char {
    if 'A' <= c && c <= 'F' {
        ((c as int) + 32) as char
    } else {
        c
    }
}

/// Text with its hexadecimal letters in lowercase.
pub open spec fn lowered(s: Seq<char>) -> Seq<char> {
    s.map_values(|c: char| lower(c))
}

/// Filtering keeps a sequence whose elements all pass.
proof fn lemma_filter_keeps_all(s: Seq<char>, pred: spec_fn(char) -> bool)
    requires
        forall|i: int| 0 <= i < s.len() ==> pred(#[trigger] s[i]),
    ensures
        s.filter(pred) == s,
    decreases s.len(),
{
    reveal(Seq::filter);
    if s.len() > 0 {
        lemma_filter_keeps_all(s.drop_last(), pred);
        assert(s.drop_last().push(s.last()) =~= s);
    }
}

/// Dropping blanks and lowering letters can be done in either order.
proof fn lemma_lowered_digits(s: Seq<char>)
    ensures
        lowered(s).filter(|c: char| !is_blank(c)) == lowered(s.filter(|c: char| !is_blank(c))),
    decreases s.len(),
{
    reveal(Seq::filter);
    let pred = |c: char| !is_blank(c);
    if s.len() == 0 {
        assert(lowered(s) =~= s);
        assert(lowered(s.filter(pred)) =~= s.filter(pred));
    } else {
        lemma_lowered_digits(s.drop_last());
        assert(lowered(s).drop_last() =~= lowered(s.drop_last()));
        assert(lowered(s).last() == lower(s.last()));
        if pred(s.last()) {
            assert(lowered(s.drop_last().filter(pred).push(s.last())) =~= lowered(
                s.drop_last().filter(pred),
            ).push(lower(s.last())));
        }
    }
}

/// The case of the letters plays no part in what text denotes.
proof fn lemma_lowered_address(s: Seq<char>)
    ensures
        is_address_text(lowered(s)) == is_address_text(s),
        address_bytes(lowered(s)) == address_bytes(s),
{
    let l = lowered(s);
    assert(strip_0x(l) =~= lowered(strip_0x(s)));
    lemma_lowered_digits(strip_0x(s));
    let d = address_digits(s);
    let dl = address_digits(l);
    assert(dl == lowered(d));
    assert forall|i: int| 0 <= i < d.len() implies hex_value(#[trigger] dl[i]) == hex_value(
        d[i],
    ) by {}
    if all_hex(d) {
        assert(all_hex(dl));
    }
    if all_hex(dl) {
        assert forall|i: int| 0 <= i < d.len() implies (#[trigger] hex_value(d[i])) is Some by {
            assert(hex_value(dl[i]) is Some);
        }
    }
    assert(bytes_of_digits(dl) =~= bytes_of_digits(d)) by {
        assert forall|i: int| 0 <= i < d.len() / 2 implies #[trigger] bytes_of_digits(dl)[i]
            == bytes_of_digits(d)[i] by {
            assert(hex_value(dl[2 * i]) == hex_value(d[2 * i]));
            assert(hex_value(dl[2 * i + 1]) == hex_value(d[2 * i + 1]));
        }
    }
}

/// Two texts that differ only in the case of their hexadecimal letters
/// denote the same address, or both denote none.
pub proof fn law_case_does_not_matter(s: Seq<char>, t: Seq<char>)
    requires
        lowered(s) == lowered(t),
    ensures
        is_address_text(s) == is_address_text(t),
        address_bytes(s) == address_bytes(t),
{
    lemma_lowered_address(s);
    lemma_lowered_address(t);
}

/// The canonical rendering of an address reads back as that address.
pub proof fn law_key_reads_back(bytes: Seq<u8>)
    requires
        bytes.len() == 20,
    ensures
        is_address_text(address_text(bytes)),
        address_bytes(address_text(bytes)) == bytes,
{
    let t = address_text(bytes);
    let h = lower_hex(bytes);
    assert(strip_0x(t) =~= h);
    assert forall|i: int| 0 <= i < h.len() implies !is_blank(#[trigger] h[i]) && hex_value(h[i])
        is Some by {
        let b = bytes[i / 2] as int;
        lemma_lower_digit(b / 16);
        lemma_lower_digit(b % 16);
    }
    lemma_filter_keeps_all(h, |c: char| !is_blank(c));
    assert(address_digits(t) == h);
    assert forall|i: int| 0 <= i < 20 implies #[trigger] bytes_of_digits(h)[i] == bytes[i] by {
        let b = bytes[i] as int;
        lemma_lower_digit(b / 16);
        lemma_lower_digit(b % 16);
        assert(h[2 * i] == lower_digit(b / 16));
        assert(h[2 * i + 1] == lower_digit(b % 16));
    }
    assert(bytes_of_digits(h) =~= bytes);
}

} // verus!
