//! Feed identifiers: the 32 bytes by which a price feed is known, and the
//! hexadecimal text that stands for them.

use pyth_solana_receiver_sdk::price_update::get_feed_id_from_hex;
use vstd::prelude::*;
use vstd::string::StringSliceAdditionalSpecFns;
use vstd::utf8::encode_utf8_valid_utf8;
use vstd::utf8::is_char_boundary;
use vstd::utf8::is_char_boundary_iff_not_is_continuation_byte;

verus! {

/// The value of one hexadecimal digit given as an ASCII byte, in either case.
pub open spec fn hex_value(digit: u8) -> Option<int> {
    if 0x30 <= digit <= 0x39 {
        Some(digit - 0x30)
    } else if 0x41 <= digit <= 0x46 {
        Some(digit - 0x41 + 10)
    } else if 0x61 <= digit <= 0x66 {
        Some(digit - 0x61 + 10)
    } else {
        None
    }
}

/// True when every byte of `digits` is a hexadecimal digit.
pub open spec fn all_hex(digits: Seq<u8>) -> bool {
    forall|i: int| 0 <= i < digits.len() ==> hex_value(#[trigger] digits[i]) is Some
}

/// The bytes that an even number of hexadecimal digits spell, two digits to a
/// byte with the high digit first.
pub open spec fn hex_bytes(digits: Seq<u8>) -> Seq<u8> {
    Seq::new(
        (digits.len() / 2) as nat,
        |i: int| (16 * hex_value(digits[2 * i])->0 + hex_value(digits[2 * i + 1])->0) as u8,
    )
}

/// The feed identifier that `text` stands for: 64 hexadecimal digits, or 66
/// bytes of which the first two are passed over and the rest are such digits.
pub open spec fn feed_id_of_hex(text: Seq<u8>) -> Option<Seq<u8>> {
    if text.len() == 64 && all_hex(text) {
        Some(hex_bytes(text))
    } else if text.len() == 66 && all_hex(text.subrange(2, 66)) {
        Some(hex_bytes(text.subrange(2, 66)))
    } else {
        None
    }
}

/// Calls `get_feed_id_from_hex` of the Pyth receiver SDK and drops the kind
/// of its error. The contract restates that function: a text of 64 bytes is
/// decoded whole, one of 66 bytes from its third byte on, and any other
/// length, or a byte that is no hexadecimal digit, gives no identifier. The
/// SDK slices the text at byte 2, so that must be a character boundary.
#[verifier::external_body]
fn feed_id_from_hex(input: &str) -> (r: Option<[u8; 32]>)
    requires
        input.spec_bytes().len() == 66 ==> is_char_boundary(input.spec_bytes(), 2),
    ensures
        match r {
            Some(id) => feed_id_of_hex(input.spec_bytes()) == Some(id@),
            None => feed_id_of_hex(input.spec_bytes()) is None,
        },
{
    get_feed_id_from_hex(input).ok()
}

/// Reads a feed identifier from its hexadecimal text, with or without a
/// two-character prefix.
pub fn parse_feed_id(text: &str) -> (r: Option<[u8; 32]>)
    ensures
        match r {
            Some(id) => feed_id_of_hex(text.spec_bytes()) == Some(id@),
            None => feed_id_of_hex(text.spec_bytes()) is None,
        },
{
    if text.len() == 66 && !text.is_char_boundary(2) {
        proof {
            let bytes = text.spec_bytes();
            encode_utf8_valid_utf8(text@);
            is_char_boundary_iff_not_is_continuation_byte(bytes, 2);
            assert(bytes.subrange(2, 66)[0] == bytes[2]);
            assert(hex_value(bytes.subrange(2, 66)[0]) is None);
        }
        None
    } else {
        feed_id_from_hex(text)
    }
}

} // verus!
