//! The RLP codec and the Keccak hash, as the `rlp` and `tiny_keccak` crates
//! provide them. Nothing in this file is proved: each function states what
//! the crate's function is taken to do.

use vstd::prelude::*;

verus! {

/// The ways in which reading RLP fails.
#[derive(Debug, Clone, Copy, PartialEq, Eq, Structural)]
pub enum DecodeError {
    /// A number does not fit its type.
    RlpIsTooBig,
    /// The input ends before the item does.
    RlpIsTooShort,
    /// A list was expected.
    RlpExpectedToBeList,
    /// A byte string was expected.
    RlpExpectedToBeData,
    /// The list has another number of items than expected.
    RlpIncorrectListLen,
    /// The length of a byte string is written with a leading zero.
    RlpDataLenWithZeroPrefix,
    /// The length of a list is written with a leading zero.
    RlpListLenWithZeroPrefix,
    /// A value is written in a longer form than it needs.
    RlpInvalidIndirection,
    /// The length that an item declares does not match its bytes.
    RlpInconsistentLengthAndData,
    /// The length of an item cannot be represented.
    RlpInvalidLength,
    /// An error of a decoder outside this crate.
    Custom,
}

#[verifier::external_type_specification]
#[verifier::external_body]
pub struct ExDecodeError(rlp::DecoderError);

/// The byte strings that a vector of byte vectors holds.
pub open spec fn byte_strings(items: Seq<Vec<u8>>) -> Seq<Seq<u8>> {
    Seq::new(items.len(), |i: int| items[i]@)
}

/// The RLP encoding of a list whose items are the given byte strings.
pub uninterp spec fn rlp_list_encoding(items: Seq<Seq<u8>>) -> Seq<u8>;

/// The kind of an error of the RLP decoder.
pub uninterp spec fn decoder_error_kind(error: rlp::DecoderError) -> DecodeError;

/// The number of items of the RLP list that `bytes` encode, or why it cannot be told.
pub uninterp spec fn rlp_item_count(bytes: Seq<u8>) -> Result<nat, DecodeError>;

/// The encoding of the item at `index` of the RLP list that `bytes` encode,
/// or why it cannot be had.
pub uninterp spec fn rlp_raw_at(bytes: Seq<u8>, index: nat) -> Result<Seq<u8>, DecodeError>;

/// The byte string that `bytes` encode as one RLP item, or why they encode none.
pub uninterp spec fn rlp_payload(bytes: Seq<u8>) -> Result<Seq<u8>, DecodeError>;

/// The Keccak-256 digest of `bytes`.
pub uninterp spec fn keccak256_digest(bytes: Seq<u8>) -> Seq<u8>;

/// What a result of the decoder says, with the error reduced to its kind.
pub open spec fn decoded<T>(result: Result<T, rlp::DecoderError>) -> Result<T, DecodeError> {
    match result {
        Ok(value) => Ok(value),
        Err(error) => Err(decoder_error_kind(error)),
    }
}

/// `rlp::encode_list` on byte vectors: the encoding of the list of these
/// byte strings, each encoded as one data item.
#[verifier::external_body]
pub(crate) fn encode_list(items: &Vec<Vec<u8>>) -> (r: Vec<u8>)
    ensures
        r@ == rlp_list_encoding(byte_strings(items@)),
{
    rlp::encode_list::<Vec<u8>, Vec<u8>>(items.as_slice())
}

/// Tells the variants of `rlp::DecoderError` apart.
#[verifier::external_body]
pub(crate) fn decoder_error(error: rlp::DecoderError) -> (r: DecodeError)
    ensures
        r == decoder_error_kind(error),
{
    match error {
        rlp::DecoderError::RlpIsTooBig => DecodeError::RlpIsTooBig,
        rlp::DecoderError::RlpIsTooShort => DecodeError::RlpIsTooShort,
        rlp::DecoderError::RlpExpectedToBeList => DecodeError::RlpExpectedToBeList,
        rlp::DecoderError::RlpExpectedToBeData => DecodeError::RlpExpectedToBeData,
        rlp::DecoderError::RlpIncorrectListLen => DecodeError::RlpIncorrectListLen,
        rlp::DecoderError::RlpDataLenWithZeroPrefix => DecodeError::RlpDataLenWithZeroPrefix,
        rlp::DecoderError::RlpListLenWithZeroPrefix => DecodeError::RlpListLenWithZeroPrefix,
        rlp::DecoderError::RlpInvalidIndirection => DecodeError::RlpInvalidIndirection,
        rlp::DecoderError::RlpInconsistentLengthAndData => DecodeError::RlpInconsistentLengthAndData,
        rlp::DecoderError::RlpInvalidLength => DecodeError::RlpInvalidLength,
        rlp::DecoderError::Custom(_) => DecodeError::Custom,
    }
}

/// `rlp::Rlp::item_count` on the item that `bytes` hold.
#[verifier::external_body]
pub(crate) fn item_count(bytes: &[u8]) -> (r: Result<usize, rlp::DecoderError>)
    ensures
        match decoded(r) {
            Ok(count) => rlp_item_count(bytes@) == Ok::<nat, DecodeError>(count as nat),
            Err(kind) => rlp_item_count(bytes@) == Err::<nat, DecodeError>(kind),
        },
{
    rlp::Rlp::new(bytes).item_count()
}

/// `rlp::Rlp::at`, and `as_raw` on what it gives: the bytes of one item of a list.
#[verifier::external_body]
pub(crate) fn raw_at(bytes: &[u8], index: usize) -> (r: Result<Vec<u8>, rlp::DecoderError>)
    ensures
        match decoded(r) {
            Ok(raw) => rlp_raw_at(bytes@, index as nat) == Ok::<Seq<u8>, DecodeError>(raw@),
            Err(kind) => rlp_raw_at(bytes@, index as nat) == Err::<Seq<u8>, DecodeError>(kind),
        },
{
    rlp::Rlp::new(bytes).at(index).map(|item| item.as_raw().to_vec())
}

/// `rlp::Rlp::as_val` for a byte vector: the byte string that one item holds.
#[verifier::external_body]
pub(crate) fn payload(bytes: &[u8]) -> (r: Result<Vec<u8>, rlp::DecoderError>)
    ensures
        match decoded(r) {
            Ok(data) => rlp_payload(bytes@) == Ok::<Seq<u8>, DecodeError>(data@),
            Err(kind) => rlp_payload(bytes@) == Err::<Seq<u8>, DecodeError>(kind),
        },
{
    rlp::Rlp::new(bytes).as_val::<Vec<u8>>()
}

/// `tiny_keccak::keccak256`: the Keccak-256 digest, which has 32 bytes.
#[verifier::external_body]
pub(crate) fn keccak256(bytes: &[u8]) -> (r: [u8; 32])
    ensures
        r@ == keccak256_digest(bytes@),
{
    tiny_keccak::keccak256(bytes)
}

} // verus!
