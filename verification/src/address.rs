//! Contract addresses: twenty bytes, read from and written as hexadecimal text.

use ethers::types::H160;
use vstd::prelude::*;

verus! {

/// The address of a contract or an account.
#[derive(Clone, Copy, Debug, PartialEq, Eq)]
pub struct Address {
    pub bytes: [u8; 20],
}

impl View for Address {
    type V = Seq<u8>;

    open spec fn view(&self) -> Seq<u8> {
        self.bytes@
    }
}

/// The characters that the hexadecimal reader passes over.
pub open spec fn is_hex_blank(c: char) -> bool {
    c == ' ' || c == '\r' || c == '\n' || c == '\t'
}

/// The value of a hexadecimal digit, in either case; `None` for any other character.
pub open spec fn hex_value(c: char) -> Option<int> {
    if '0' <= c <= '9' {
        Some(c as int - '0' as int)
    } else if 'a' <= c <= 'f' {
        Some(c as int - 'a' as int + 10)
    } else if 'A' <= c <= 'F' {
        Some(c as int - 'A' as int + 10)
    } else {
        None
    }
}

/// The text without a leading `0x`, if it has one.
pub open spec fn strip_hex_prefix(s: Seq<char>) -> Seq<char> {
    if s.len() >= 2 && s[0] == '0' && s[1] == 'x' {
        s.subrange(2, s.len() as int)
    } else {
        s
    }
}

/// The digits of an address text: what is left of it after the prefix and the blanks.
pub open spec fn hex_digits_of(s: Seq<char>) -> Seq<char> {
    strip_hex_prefix(s).filter(|c: char| !is_hex_blank(c))
}

/// The byte that two hexadecimal digits stand for, the high one first.
pub open spec fn hex_pair_value(hi: char, lo: char) -> u8 {
    (16 * hex_value(hi).unwrap() + hex_value(lo).unwrap()) as u8
}

/// The twenty bytes that an address text stands for: after an optional `0x` and with blanks
/// passed over, exactly forty hexadecimal digits, the first byte first. `None` for any other
/// text.
pub open spec fn parse_hex_address(s: Seq<char>) -> Option<Seq<u8>> {
    let digits = hex_digits_of(s);
    if digits.len() == 40 && (forall|i: int| 0 <= i < 40 ==> hex_value(#[trigger] digits[i]) is Some) {
        Some(Seq::new(20, |i: int| hex_pair_value(digits[2 * i], digits[2 * i + 1])))
    } else {
        None
    }
}

/// The lower-case hexadecimal digit for a value below sixteen.
pub open spec fn hex_digit(n: int) -> char {
    seq!['0', '1', '2', '3', '4', '5', '6', '7', '8', '9', 'a', 'b', 'c', 'd', 'e', 'f'][n]
}

/// The forty lower-case digits of twenty bytes, the first byte first, each byte high digit
/// first.
pub open spec fn lower_hex_digits(bytes: Seq<u8>) -> Seq<char> {
    Seq::new(
        40,
        |i: int|
            if i % 2 == 0 {
                hex_digit(bytes[i / 2] as int / 16)
            } else {
                hex_digit(bytes[i / 2] as int % 16)
            },
    )
}

/// The text form of an address: `0x` and its forty lower-case digits.
pub open spec fn lower_hex(bytes: Seq<u8>) -> Seq<char> {
    seq!['0', 'x'] + lower_hex_digits(bytes)
}

/// Reads an address with `H160`'s `FromStr`, which fixed-hash implements over rustc-hex's
/// `FromHexIter`.
///
/// Trusted: the contract restates what that parser accepts. It drops one leading `0x`, then
/// walks the bytes of the text, passing over space, carriage return, line feed and tab, and
/// takes two hexadecimal digits (either case) for each of the twenty bytes; any other
/// character, too few digits, or anything but blanks after the fortieth digit is an error.
#[verifier::external_body]
fn h160_from_str(s: &str) -> (r: Option<[u8; 20]>)
    ensures
        r is Some <==> parse_hex_address(s@) is Some,
        r is Some ==> r.unwrap()@ == parse_hex_address(s@).unwrap(),
{
    match s.parse::<H160>() {
        Ok(h) => Some(h.0),
        Err(_) => None,
    }
}

/// Writes an address with `H160`'s `LowerHex` (of fixed-hash), in the alternate form.
///
/// Trusted: that formatter writes `0x` and then two lower-case digits for each byte, and
/// takes no notice of the width it is given.
#[verifier::external_body]
fn h160_lower_hex(bytes: &[u8; 20]) -> (r: String)
    ensures
        r@ == lower_hex(bytes@),
{
    format!("{:#066x}", H160(*bytes))
}

impl Address {
    /// The address made of these bytes.
    pub fn new(bytes: [u8; 20]) -> (r: Address)
        ensures
            r@ == bytes@,
    {
        Address { bytes }
    }

    /// Reads an address from hexadecimal text; `None` where the text is no address.
    pub fn parse(s: &str) -> (r: Option<Address>)
        ensures
            r is Some <==> parse_hex_address(s@) is Some,
            r is Some ==> r.unwrap()@ == parse_hex_address(s@).unwrap(),
    {
        match h160_from_str(s) {
            Some(bytes) => Some(Address { bytes }),
            None => None,
        }
    }

    /// The address as `0x` and forty lower-case hexadecimal digits.
    pub fn to_hex(&self) -> (r: String)
        ensures
            r@ == lower_hex(self@),
    {
        h160_lower_hex(&self.bytes)
    }

    /// Whether two addresses hold the same bytes.
    pub fn same_as(&self, other: &Address) -> (r: bool)
        ensures
            r == (self@ == other@),
    {
        self.has_bytes(&other.bytes)
    }

    /// Whether the address holds exactly these bytes.
    pub fn has_bytes(&self, bytes: &[u8; 20]) -> (r: bool)
        ensures
            r == (self@ == bytes@),
    {
        let mut i: usize = 0;
        while i < 20
            invariant
                0 <= i <= 20,
                forall|j: int| 0 <= j < i ==> self.bytes@[j] == bytes@[j],
            decreases 20 - i,
        {
            if self.bytes[i] != bytes[i] {
                return false;
            }
            i += 1;
        }
        assert(self.bytes@ =~= bytes@);
        true
    }
}

/// Every digit that `hex_digit` writes reads back as the value it was written for.
pub proof fn lemma_hex_digit_value(n: int)
    requires
        0 <= n < 16,
    ensures
        hex_value(hex_digit(n)) == Some(n),
        !is_hex_blank(hex_digit(n)),
{
}

/// A filter that every item passes changes nothing.
proof fn lemma_filter_keeps_all(s: Seq<char>, keep: spec_fn(char) -> bool)
    requires
        forall|i: int| 0 <= i < s.len() ==> keep(#[trigger] s[i]),
    ensures
        s.filter(keep) == s,
    decreases s.len(),
{
    reveal(Seq::filter);
    if s.len() > 0 {
        lemma_filter_keeps_all(s.drop_last(), keep);
        assert(s.drop_last().push(s.last()) =~= s);
    }
}

/// Written out and read back, an address is unchanged.
pub proof fn lemma_hex_round_trip(bytes: Seq<u8>)
    requires
        bytes.len() == 20,
    ensures
        parse_hex_address(lower_hex(bytes)) == Some(bytes),
{
    let text = lower_hex(bytes);
    let digits = lower_hex_digits(bytes);
    let keep = |c: char| !is_hex_blank(c);
    assert(strip_hex_prefix(text) =~= digits);
    assert forall|i: int| 0 <= i < digits.len() implies keep(#[trigger] digits[i]) by {
        let b = bytes[i / 2] as int;
        lemma_hex_digit_value(b / 16);
        lemma_hex_digit_value(b % 16);
    }
    lemma_filter_keeps_all(digits, keep);
    assert(hex_digits_of(text) == digits);
    assert forall|i: int| 0 <= i < 40 implies hex_value(#[trigger] digits[i]) is Some by {
        let b = bytes[i / 2] as int;
        lemma_hex_digit_value(b / 16);
        lemma_hex_digit_value(b % 16);
    }
    let parsed = parse_hex_address(text).unwrap();
    assert forall|k: int| 0 <= k < 20 implies parsed[k] == bytes[k] by {
        let b = bytes[k] as int;
        lemma_hex_digit_value(b / 16);
        lemma_hex_digit_value(b % 16);
        assert(digits[2 * k] == hex_digit(b / 16));
        assert(digits[2 * k + 1] == hex_digit(b % 16));
    }
    assert(parsed =~= bytes);
}

} // verus!
