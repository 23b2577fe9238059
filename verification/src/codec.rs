//! Decoding at the edge of the library: hexadecimal text and CBOR.

use vstd::prelude::*;
use vstd::string::StringSliceAdditionalSpecFns;

verus! {

/// The error of `hex::decode`.
#[verifier::external_type_specification]
#[verifier::external_body]
pub struct ExFromHexError(hex::FromHexError);

/// The value of a hexadecimal digit, in either case.
pub open spec fn hex_digit_value(c: u8) -> Option<int> {
    if 0x30 <= c <= 0x39 {
        Some(c - 0x30)
    } else if 0x41 <= c <= 0x46 {
        Some(c - 0x41 + 10)
    } else if 0x61 <= c <= 0x66 {
        Some(c - 0x61 + 10)
    } else {
        None
    }
}

/// A text is hexadecimal where it has an even number of bytes and each is a
/// hexadecimal digit.
pub open spec fn is_hex(text: Seq<u8>) -> bool {
    text.len() % 2 == 0 && forall|i: int| 0 <= i < text.len() ==> hex_digit_value(#[trigger] text[i]) is Some
}

/// The bytes that a hexadecimal text stands for: one for each pair of
/// digits, the first digit of a pair being the high one.
pub open spec fn hex_decoded(text: Seq<u8>) -> Seq<u8> {
    Seq::new(
        text.len() / 2,
        |i: int|
            (16 * hex_digit_value(text[2 * i]).unwrap() + hex_digit_value(
                text[2 * i + 1],
            ).unwrap()) as u8,
    )
}

/// The longest encoding of structured data that the library decodes. Data
/// nests no deeper than its encoding is long, and to release data takes
/// stack for each level of nesting; this many levels fit a stack of
/// ordinary size.
pub const MAX_DATA_LENGTH: usize = 4096;

/// Whether CBOR bytes encode structured data.
pub uninterp spec fn encodes_data(cbor: Seq<u8>) -> bool;

/// Bytes are data where they are no longer than the library decodes and
/// encode structured data.
pub open spec fn is_data(cbor: Seq<u8>) -> bool {
    cbor.len() <= MAX_DATA_LENGTH && encodes_data(cbor)
}

/// The byte string that CBOR bytes encode, if they encode one.
pub uninterp spec fn cbor_byte_string(cbor: Seq<u8>) -> Option<Seq<u8>>;

/// `hex::decode` on a string. The contract claims that it succeeds exactly
/// on hexadecimal text, digits of either case, and then returns the bytes
/// that the pairs of digits stand for.
#[verifier::external_body]
pub(crate) fn hex_decode(text: &str) -> (res: Result<Vec<u8>, hex::FromHexError>)
    ensures
        match res {
            Ok(bytes) => is_hex(text.spec_bytes()) && bytes@ == hex_decoded(text.spec_bytes()),
            Err(_) => !is_hex(text.spec_bytes()),
        },
{
    hex::decode(text)
}

/// `minicbor::decode` to the structured data of `pallas_primitives`. The
/// contract gives the name [`encodes_data`] to whether it succeeds, and
/// claims nothing more. Decoding keeps its open nodes on the heap; what it
/// has decoded is dropped at once, which takes stack for each level of
/// nesting, so the call is for bytes of bounded length only.
#[verifier::external_body]
pub(crate) fn decodes_as_data(cbor: &Vec<u8>) -> (res: bool)
    requires
        cbor@.len() <= MAX_DATA_LENGTH,
    ensures
        res == encodes_data(cbor@),
{
    minicbor::decode::<pallas_primitives::PlutusData>(cbor.as_slice()).is_ok()
}

/// `minicbor::decode` to a byte string. The contract gives the name
/// [`cbor_byte_string`] to what comes back, and claims nothing more.
#[verifier::external_body]
pub(crate) fn decode_byte_string(cbor: &Vec<u8>) -> (res: Option<Vec<u8>>)
    ensures
        match res {
            Some(bytes) => cbor_byte_string(cbor@) == Some(bytes@),
            None => cbor_byte_string(cbor@) is None,
        },
{
    minicbor::decode::<minicbor::bytes::ByteVec>(cbor.as_slice()).ok().map(|bytes| bytes.into())
}

} // verus!
