//! The binary codec of field values.
//!
//! Every field value is stored in bincode's variable-length integer encoding
//! with big-endian byte order. The encoder and the decoder are bincode's own;
//! the two functions that call them are the only unverified code of this
//! module.

use vstd::prelude::*;

verus! {

#[verifier::external_type_specification]
#[verifier::external_body]
pub struct ExEncodeError(bincode::error::EncodeError);

#[verifier::external_type_specification]
#[verifier::external_body]
pub struct ExDecodeError(bincode::error::DecodeError);

/// The most bytes that one decoded value may claim: half the address space,
/// the most that a single allocation can hold.
pub const DECODE_LIMIT: usize = usize::MAX / 2;

/// The configuration of the codec: bincode's standard one, with big-endian
/// byte order and with the byte limit of decoding. Its `default()` is the
/// one value of this type; whoever encodes or decodes a field uses it.
pub type Configuration = bincode::config::Configuration<
    bincode::config::BigEndian,
    bincode::config::Varint,
    bincode::config::Limit<DECODE_LIMIT>,
>;

/// The byte string that stands for a field without a stored value: one zero
/// byte. Every field type kept in a table has to decode it.
pub open spec fn absent_encoding() -> Seq<u8> {
    seq![0u8]
}

/// The bytes that are decoded in place of a missing field.
pub fn absent_bytes() -> (bytes: Vec<u8>)
    ensures
        bytes@ == absent_encoding(),
{
    let mut bytes: Vec<u8> = Vec::new();
    bytes.push(0u8);
    bytes
}

/// Calls `bincode::serde::encode_to_vec` on `value`, with the configuration
/// of the codec; its byte limit has no part in encoding. Nothing is claimed of
/// the bytes that come back: they are bincode's encoding of `value`, which
/// depends on how the type of `value` presents itself to the encoder.
#[verifier::external_body]
pub(crate) fn encode_value<T: ?Sized + serde::Serialize>(value: &T) -> (encoded: Result<
    Vec<u8>,
    bincode::error::EncodeError,
>) {
    bincode::serde::encode_to_vec(value, Configuration::default())
}

/// Calls `bincode::serde::decode_from_reader` on a reader over `bytes`, with
/// the configuration of the codec. Nothing is claimed of the value that
/// comes back, nor that all of `bytes` is read. The byte limit makes bincode
/// answer a length prefix that no allocation could serve with an error,
/// before it allocates.
#[verifier::external_body]
pub(crate) fn decode_value<T: serde::de::DeserializeOwned>(bytes: &[u8]) -> (decoded: Result<
    T,
    bincode::error::DecodeError,
>) {
    let reader = std::io::BufReader::new(std::io::Cursor::new(bytes));
    bincode::serde::decode_from_reader(reader, Configuration::default())
}

} // verus!
