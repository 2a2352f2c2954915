//! Checks on text that users type into searches: asset ids, block heights and
//! addresses.

use chia_sdk_utils::Address;
use vstd::prelude::*;

verus! {

broadcast use vstd::string::group_string_axioms;

/// `c` is an ASCII hexadecimal digit.
pub open spec fn is_hex_digit(c: char) -> bool {
    ('0' <= c <= '9') || ('a' <= c <= 'f') || ('A' <= c <= 'F')
}

/// `s` is an asset id: 64 hexadecimal digits.
pub open spec fn is_asset_id(s: Seq<char>) -> bool {
    s.len() == 64 && forall|i: int| 0 <= i < s.len() ==> #[trigger] is_hex_digit(s[i])
}

/// The characters of `s`, in order.
pub(crate) fn chars_of(s: &str) -> (r: Vec<char>)
    ensures
        r@ == s@,
{
    let mut out: Vec<char> = Vec::new();
    for c in it: s.chars()
        invariant
            it.seq() == s@,
            out@ == it.seq().take(it.index()),
    {
        proof {
            assert(it.seq().take(it.index() + 1) =~= out@.push(c));
        }
        out.push(c);
    }
    proof {
        assert(out@ =~= s@);
    }
    out
}

/// Whether `asset_id` is a valid asset id: 64 hexadecimal digits (its length
/// in bytes is 64 and every character is a hexadecimal digit).
pub fn is_valid_asset_id(asset_id: &str) -> (r: bool)
    ensures
        r == is_asset_id(asset_id@),
{
    let chars = chars_of(asset_id);
    let mut all_hex = true;
    let mut i: usize = 0;
    while i < chars.len()
        invariant
            i <= chars@.len(),
            chars@ == asset_id@,
            all_hex == forall|j: int| 0 <= j < i ==> #[trigger] is_hex_digit(chars@[j]),
        decreases chars@.len() - i,
    {
        let c = chars[i];
        let hex = ('0' <= c && c <= '9') || ('a' <= c && c <= 'f') || ('A' <= c && c <= 'F');
        proof {
            assert(hex == is_hex_digit(chars@[i as int]));
        }
        all_hex = all_hex && hex;
        i = i + 1;
        proof {
            if all_hex {
                assert forall|j: int| 0 <= j < i implies #[trigger] is_hex_digit(chars@[j]) by {
                    if j < i - 1 {
                        assert(is_hex_digit(chars@[j]));
                    }
                }
            }
        }
    }
    proof {
        if all_hex {
            assert forall|j: int| 0 <= j < asset_id@.len() implies '\0' <= #[trigger] asset_id@[j] <= '\u{7f}' by {
                assert(is_hex_digit(chars@[j]));
            }
            assert(vstd::utf8::is_ascii_chars(asset_id@));
            vstd::utf8::is_ascii_chars_encode_utf8(asset_id@);
        }
    }
    asset_id.len() == 64 && all_hex
}

/// The number that a string of decimal digits spells.
pub open spec fn decimal_value(digits: Seq<char>) -> nat
    decreases digits.len(),
{
    if digits.len() == 0 {
        0
    } else {
        decimal_value(digits.drop_last()) * 10 + ((digits.last() as nat) - ('0' as nat)) as nat
    }
}

/// `c` is a decimal digit.
pub open spec fn is_decimal_digit(c: char) -> bool {
    '0' <= c <= '9'
}

/// The digits of `s` that `u32::from_str` reads: a leading `+` is dropped when
/// more follows.
pub open spec fn unsigned_digits(s: Seq<char>) -> Seq<char> {
    if s.len() > 1 && s[0] == '+' {
        s.drop_first()
    } else {
        s
    }
}

/// `u32::from_str` accepts `s`: an optional `+`, then at least one decimal
/// digit, spelling a number no greater than `u32::MAX`.
pub open spec fn parses_as_u32(s: Seq<char>) -> bool {
    let d = unsigned_digits(s);
    &&& d.len() > 0
    &&& forall|i: int| 0 <= i < d.len() ==> #[trigger] is_decimal_digit(d[i])
    &&& decimal_value(d) <= u32::MAX
}

/// Appending a digit never makes a number smaller.
proof fn lemma_decimal_value_grows(digits: Seq<char>, k: int)
    requires
        0 <= k <= digits.len(),
        forall|i: int| 0 <= i < digits.len() ==> #[trigger] is_decimal_digit(digits[i]),
    ensures
        decimal_value(digits.take(k)) <= decimal_value(digits),
    decreases digits.len() - k,
{
    if k < digits.len() {
        let next = digits.take(k + 1);
        assert(next.drop_last() =~= digits.take(k));
        lemma_decimal_value_grows(digits, k + 1);
    } else {
        assert(digits.take(k) =~= digits);
    }
}

/// Whether `height` is a block height: what `u32::from_str` accepts.
pub fn is_valid_height(height: &str) -> (r: bool)
    ensures
        r == parses_as_u32(height@),
{
    parse_height(height).is_some()
}

/// `u32::from_str`: the number that `height` spells, where it is one.
pub fn parse_height(height: &str) -> (r: Option<u32>)
    ensures
        r is Some <==> parses_as_u32(height@),
        r matches Some(v) ==> v == decimal_value(unsigned_digits(height@)),
{
    let chars = chars_of(height);
    let ghost s = height@;
    let start: usize = if chars.len() > 1 && chars[0] == '+' {
        1
    } else {
        0
    };
    let ghost d = unsigned_digits(s);
    proof {
        assert(d =~= s.subrange(start as int, s.len() as int));
    }
    if start == chars.len() {
        return None;
    }
    let mut value: u64 = 0;
    let mut i: usize = start;
    while i < chars.len()
        invariant
            start <= i <= chars@.len(),
            chars@ == s,
            s == height@,
            d == unsigned_digits(s),
            d == s.subrange(start as int, s.len() as int),
            forall|j: int| 0 <= j < i - start ==> #[trigger] is_decimal_digit(d[j]),
            value == decimal_value(d.take(i - start)),
            value <= u32::MAX,
        decreases chars@.len() - i,
    {
        let c = chars[i];
        proof {
            assert(c == d[i - start]);
        }
        if !('0' <= c && c <= '9') {
            proof {
                assert(!is_decimal_digit(d[i - start]));
            }
            return None;
        }
        let digit: u64 = (c as u32 - '0' as u32) as u64;
        proof {
            assert(d.take(i - start + 1).drop_last() =~= d.take(i - start));
        }
        value = value * 10 + digit;
        proof {
            let k = i - start + 1;
            assert(d.take(k).last() == c);
            assert(value == decimal_value(d.take(k)));
        }
        if value > 0xFFFF_FFFF {
            proof {
                if forall|j: int| 0 <= j < d.len() ==> #[trigger] is_decimal_digit(d[j]) {
                    lemma_decimal_value_grows(d, i - start + 1);
                }
            }
            return None;
        }
        i = i + 1;
    }
    proof {
        assert(d.take(i - start) =~= d);
    }
    Some(value as u32)
}

/// What `Address::decode` of chia-sdk-utils reads from a bech32m address: its
/// prefix and its 32-byte puzzle hash; `None` where the text is no bech32m
/// encoding of 32 bytes.
pub uninterp spec fn address_decoded(address: Seq<char>) -> Option<(Seq<char>, Seq<u8>)>;

/// `Address::decode`: the prefix and puzzle hash of a bech32m address, or
/// nothing where decoding fails.
#[verifier::external_body]
fn decode_address(address: &str) -> (r: Option<(String, [u8; 32])>)
    ensures
        r is Some <==> address_decoded(address@) is Some,
        r matches Some((prefix, puzzle_hash)) ==> address_decoded(address@) == Some((prefix@, puzzle_hash@)),
{
    match Address::decode(address) {
        Ok(decoded) => Some((decoded.prefix, decoded.puzzle_hash.into())),
        Err(_) => None,
    }
}

/// `address` decodes, with the prefix `prefix`.
pub open spec fn is_address_with_prefix(address: Seq<char>, prefix: Seq<char>) -> bool {
    address_decoded(address) matches Some((p, _)) && p == prefix
}

/// Whether `address` is a valid address with the given prefix.
pub fn is_valid_address(address: &str, prefix: &str) -> (r: bool)
    ensures
        r == is_address_with_prefix(address@, prefix@),
{
    match decode_address(address) {
        Some((decoded_prefix, _)) => decoded_prefix == prefix.to_string(),
        None => false,
    }
}

/// The lowercase hexadecimal digit for a value below 16.
pub open spec fn hex_char(n: nat) -> char {
    if n < 10 {
        (('0' as nat) + n) as char
    } else {
        (('a' as nat) + n - 10) as char
    }
}

/// Bytes written as lowercase hexadecimal, two digits a byte.
pub open spec fn hex_lower(bytes: Seq<u8>) -> Seq<char>
    decreases bytes.len(),
{
    if bytes.len() == 0 {
        Seq::empty()
    } else {
        hex_lower(bytes.drop_last()) + seq![hex_char(bytes.last() as nat / 16), hex_char(bytes.last() as nat % 16)]
    }
}

/// `hex::encode`: the bytes in lowercase hexadecimal.
#[verifier::external_body]
pub(crate) fn hex_encode(bytes: &[u8]) -> (r: String)
    ensures
        r@ == hex_lower(bytes@),
{
    hex::encode(bytes)
}

/// The puzzle hash of an address, in hexadecimal; nothing where the address
/// does not decode.
pub fn puzzle_hash_from_address(address: &str) -> (r: Option<String>)
    ensures
        match address_decoded(address@) {
            Some((_, puzzle_hash)) => r matches Some(h) && h@ == hex_lower(puzzle_hash),
            None => r is None,
        },
{
    match decode_address(address) {
        Some((_, puzzle_hash)) => Some(hex_encode(&puzzle_hash)),
        None => None,
    }
}

} // verus!
