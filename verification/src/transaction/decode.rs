//! Reading a signed transaction back from its RLP encoding.

use vstd::prelude::*;

use super::bytes::{
    big_endian, big_endian_value, has_leading_zero, lemma_big_endian_len, lemma_minimal_is_suffix,
    lemma_padded_minimal, lemma_pow256_values, lemma_value_of_big_endian, lemma_value_of_minimal, minimal, padded, u64_from_bytes,
};
use super::codec::{
    decoder_error, item_count, payload, raw_at, rlp_item_count, rlp_payload, rlp_raw_at,
    DecodeError,
};
use super::{
    Address, Bytes, SignedTransaction, SignedTransactionView, Transaction, TransactionView, U256,
};

verus! {

/// The number of `width` bytes that a byte string stands for: it may not
/// start with a zero byte, nor be longer than `width`.
pub open spec fn uint_from_payload(data: Seq<u8>, width: nat) -> Result<Seq<u8>, DecodeError> {
    if has_leading_zero(data) {
        Err(DecodeError::RlpInvalidIndirection)
    } else if data.len() <= width {
        Ok(padded(data, width))
    } else {
        Err(DecodeError::RlpIsTooBig)
    }
}

/// The 64-bit number that a byte string stands for.
pub open spec fn u64_from_payload(data: Seq<u8>) -> Result<u64, DecodeError> {
    if has_leading_zero(data) {
        Err(DecodeError::RlpInvalidIndirection)
    } else if data.len() <= 8 {
        Ok(big_endian_value(data) as u64)
    } else {
        Err(DecodeError::RlpIsTooBig)
    }
}

/// The address that a byte string stands for: it has 20 bytes.
pub open spec fn address_from_payload(data: Seq<u8>) -> Result<Seq<u8>, DecodeError> {
    if data.len() < 20 {
        Err(DecodeError::RlpIsTooShort)
    } else if data.len() > 20 {
        Err(DecodeError::RlpIsTooBig)
    } else {
        Ok(data)
    }
}

/// The byte string of the item at `index` of the list that `bytes` encode.
pub open spec fn payload_at(bytes: Seq<u8>, index: nat) -> Result<Seq<u8>, DecodeError> {
    match rlp_raw_at(bytes, index) {
        Ok(raw) => rlp_payload(raw),
        Err(e) => Err(e),
    }
}

/// The number of `width` bytes at `index` of the list that `bytes` encode.
pub open spec fn uint_at(bytes: Seq<u8>, index: nat, width: nat) -> Result<Seq<u8>, DecodeError> {
    match payload_at(bytes, index) {
        Ok(data) => uint_from_payload(data, width),
        Err(e) => Err(e),
    }
}

/// The 64-bit number at `index` of the list that `bytes` encode.
pub open spec fn u64_at(bytes: Seq<u8>, index: nat) -> Result<u64, DecodeError> {
    match payload_at(bytes, index) {
        Ok(data) => u64_from_payload(data),
        Err(e) => Err(e),
    }
}

/// Whether an encoded item is the empty byte string or the empty list.
pub open spec fn is_empty_item(raw: Seq<u8>) -> bool {
    raw.len() > 0 && (raw[0] == 0xc0 || raw[0] == 0x80)
}

/// Whether an encoded item is a byte string.
pub open spec fn is_data_item(raw: Seq<u8>) -> bool {
    raw.len() > 0 && raw[0] < 0xc0
}

/// The recipient at `index` of the list that `bytes` encode: none where the
/// item is the empty byte string.
pub open spec fn recipient_at(bytes: Seq<u8>, index: nat) -> Result<Option<Seq<u8>>, DecodeError> {
    match rlp_raw_at(bytes, index) {
        Err(e) => Err(e),
        Ok(raw) => if is_empty_item(raw) {
            if is_data_item(raw) {
                Ok(None)
            } else {
                Err(DecodeError::RlpExpectedToBeData)
            }
        } else {
            match rlp_payload(raw) {
                Err(e) => Err(e),
                Ok(data) => match address_from_payload(data) {
                    Ok(address) => Ok(Some(address)),
                    Err(e) => Err(e),
                },
            }
        },
    }
}

/// The signed transaction that `bytes` encode, or the first error met when
/// the fields are read in their order. The sender is not part of the
/// encoding: it is read as the zero address.
pub open spec fn decoded_transaction(bytes: Seq<u8>) -> Result<SignedTransactionView, DecodeError> {
    match rlp_item_count(bytes) {
        Err(e) => Err(e),
        Ok(count) => if count != 9 {
            Err(DecodeError::RlpIncorrectListLen)
        } else {
            match uint_at(bytes, 0, 32) {
                Err(e) => Err(e),
                Ok(nonce) => match uint_at(bytes, 1, 32) {
                    Err(e) => Err(e),
                    Ok(gas_price) => match uint_at(bytes, 2, 32) {
                        Err(e) => Err(e),
                        Ok(gas) => match recipient_at(bytes, 3) {
                            Err(e) => Err(e),
                            Ok(to) => match uint_at(bytes, 4, 32) {
                                Err(e) => Err(e),
                                Ok(value) => match payload_at(bytes, 5) {
                                    Err(e) => Err(e),
                                    Ok(data) => match u64_at(bytes, 6) {
                                        Err(e) => Err(e),
                                        Ok(v) => match uint_at(bytes, 7, 32) {
                                            Err(e) => Err(e),
                                            Ok(r) => match uint_at(bytes, 8, 32) {
                                                Err(e) => Err(e),
                                                Ok(s) => Ok(
                                                    SignedTransactionView {
                                                        transaction: TransactionView {
                                                            from: padded(Seq::empty(), 20),
                                                            to,
                                                            nonce,
                                                            gas,
                                                            gas_price,
                                                            value,
                                                            data,
                                                        },
                                                        v,
                                                        r,
                                                        s,
                                                    },
                                                ),
                                            },
                                        },
                                    },
                                },
                            },
                        },
                    },
                },
            }
        },
    }
}

/// The view of a result that holds a signed transaction.
pub open spec fn decoded_view(result: Result<SignedTransaction, DecodeError>) -> Result<
    SignedTransactionView,
    DecodeError,
> {
    match result {
        Ok(signed) => Ok(signed@),
        Err(e) => Err(e),
    }
}

/// The view of a result that holds a 256-bit number.
pub open spec fn number_view(result: Result<U256, DecodeError>) -> Result<Seq<u8>, DecodeError> {
    match result {
        Ok(number) => Ok(number@),
        Err(e) => Err(e),
    }
}

/// The view of a result that holds a byte vector.
pub open spec fn data_view(result: Result<Vec<u8>, DecodeError>) -> Result<Seq<u8>, DecodeError> {
    match result {
        Ok(data) => Ok(data@),
        Err(e) => Err(e),
    }
}

/// The view of a result that holds an optional address.
pub open spec fn recipient_view(result: Result<Option<Address>, DecodeError>) -> Result<
    Option<Seq<u8>>,
    DecodeError,
> {
    match result {
        Ok(to) => Ok(super::optional_address_view(to)),
        Err(e) => Err(e),
    }
}

/// Reads the byte string at `index` of the list that `bytes` encode.
pub fn read_payload(bytes: &[u8], index: usize) -> (r: Result<Vec<u8>, DecodeError>)
    ensures
        data_view(r) == payload_at(bytes@, index as nat),
{
    match raw_at(bytes, index) {
        Err(e) => Err(decoder_error(e)),
        Ok(raw) => match payload(raw.as_slice()) {
            Err(e) => Err(decoder_error(e)),
            Ok(data) => Ok(data),
        },
    }
}

/// Reads a 256-bit number from the byte string that stands for it.
pub fn read_uint(data: &[u8]) -> (r: Result<U256, DecodeError>)
    ensures
        number_view(r) == uint_from_payload(data@, 32),
{
    if data.len() > 0 && data[0] == 0 {
        Err(DecodeError::RlpInvalidIndirection)
    } else if data.len() <= 32 {
        Ok(U256::from_big_endian(data))
    } else {
        Err(DecodeError::RlpIsTooBig)
    }
}

/// Reads a 64-bit number from the byte string that stands for it.
pub fn read_u64(data: &[u8]) -> (r: Result<u64, DecodeError>)
    ensures
        r == u64_from_payload(data@),
{
    if data.len() > 0 && data[0] == 0 {
        Err(DecodeError::RlpInvalidIndirection)
    } else if data.len() <= 8 {
        Ok(u64_from_bytes(data))
    } else {
        Err(DecodeError::RlpIsTooBig)
    }
}

/// Reads an address from the byte string that stands for it.
pub fn read_address(data: &[u8]) -> (r: Result<Address, DecodeError>)
    ensures
        match r {
            Ok(address) => address_from_payload(data@) == Ok::<Seq<u8>, DecodeError>(address@),
            Err(e) => address_from_payload(data@) == Err::<Seq<u8>, DecodeError>(e),
        },
{
    if data.len() < 20 {
        Err(DecodeError::RlpIsTooShort)
    } else if data.len() > 20 {
        Err(DecodeError::RlpIsTooBig)
    } else {
        let mut out = [0u8; 20];
        let mut i: usize = 0;
        while i < 20
            invariant
                i <= 20,
                data@.len() == 20,
                out@.len() == 20,
                forall|j: int| 0 <= j < i ==> out@[j] == data@[j],
            decreases 20 - i,
        {
            out[i] = data[i];
            i += 1;
        }
        assert(out@ =~= data@);
        Ok(Address { bytes: out })
    }
}

/// Reads the 256-bit number at `index` of the list that `bytes` encode.
pub fn read_uint_at(bytes: &[u8], index: usize) -> (r: Result<U256, DecodeError>)
    ensures
        number_view(r) == uint_at(bytes@, index as nat, 32),
{
    match read_payload(bytes, index) {
        Err(e) => Err(e),
        Ok(data) => read_uint(data.as_slice()),
    }
}

/// Reads the recipient at `index` of the list that `bytes` encode.
pub fn read_recipient_at(bytes: &[u8], index: usize) -> (r: Result<Option<Address>, DecodeError>)
    ensures
        recipient_view(r) == recipient_at(bytes@, index as nat),
{
    match raw_at(bytes, index) {
        Err(e) => Err(decoder_error(e)),
        Ok(raw) => {
            if raw.len() > 0 && (raw[0] == 0xc0 || raw[0] == 0x80) {
                if raw[0] < 0xc0 {
                    Ok(None)
                } else {
                    Err(DecodeError::RlpExpectedToBeData)
                }
            } else {
                match payload(raw.as_slice()) {
                    Err(e) => Err(decoder_error(e)),
                    Ok(data) => match read_address(data.as_slice()) {
                        Ok(address) => Ok(Some(address)),
                        Err(e) => Err(e),
                    },
                }
            }
        },
    }
}

impl SignedTransaction {
    /// Reads a signed transaction from its RLP encoding.
    ///
    /// The list must have nine items; the fields are read in their order and
    /// the first error ends the reading. The sender is not part of the
    /// encoding and is read as the zero address.
    pub fn decode(bytes: &[u8]) -> (r: Result<SignedTransaction, DecodeError>)
        ensures
            decoded_view(r) == decoded_transaction(bytes@),
    {
        let count = match item_count(bytes) {
            Err(e) => { return Err(decoder_error(e)); },
            Ok(count) => count,
        };
        if count != 9 {
            return Err(DecodeError::RlpIncorrectListLen);
        }
        let nonce = match read_uint_at(bytes, 0) {
            Err(e) => { return Err(e); },
            Ok(n) => n,
        };
        let gas_price = match read_uint_at(bytes, 1) {
            Err(e) => { return Err(e); },
            Ok(n) => n,
        };
        let gas = match read_uint_at(bytes, 2) {
            Err(e) => { return Err(e); },
            Ok(n) => n,
        };
        let to = match read_recipient_at(bytes, 3) {
            Err(e) => { return Err(e); },
            Ok(to) => to,
        };
        let value = match read_uint_at(bytes, 4) {
            Err(e) => { return Err(e); },
            Ok(n) => n,
        };
        let data = match read_payload(bytes, 5) {
            Err(e) => { return Err(e); },
            Ok(data) => data,
        };
        let v = match read_payload(bytes, 6) {
            Err(e) => { return Err(e); },
            Ok(data) => match read_u64(data.as_slice()) {
                Err(e) => { return Err(e); },
                Ok(v) => v,
            },
        };
        let r = match read_uint_at(bytes, 7) {
            Err(e) => { return Err(e); },
            Ok(n) => n,
        };
        let s = match read_uint_at(bytes, 8) {
            Err(e) => { return Err(e); },
            Ok(n) => n,
        };
        let from = Address { bytes: [0u8; 20] };
        assert(from@ =~= padded(Seq::empty(), 20));
        Ok(
            SignedTransaction {
                transaction: Transaction { from, to, nonce, gas, gas_price, value, data: Bytes(data) },
                v,
                r,
                s,
            },
        )
    }
}

/// A 256-bit number is read back from the byte string that it is written as.
pub proof fn lemma_uint_round_trip(number: Seq<u8>)
    requires
        number.len() == 32,
    ensures
        uint_from_payload(minimal(number), 32) == Ok::<Seq<u8>, DecodeError>(number),
{
    lemma_minimal_is_suffix(number);
    lemma_padded_minimal(number);
}

/// A 64-bit number is read back from the byte string that it is written as.
pub proof fn lemma_u64_round_trip(value: u64)
    ensures
        u64_from_payload(minimal(big_endian(value as nat, 8))) == Ok::<u64, DecodeError>(value),
{
    let written = big_endian(value as nat, 8);
    lemma_big_endian_len(value as nat, 8);
    lemma_minimal_is_suffix(written);
    lemma_value_of_minimal(written);
    lemma_pow256_values();
    lemma_value_of_big_endian(value as nat, 8);
}

/// A recipient is read back from the byte string that it is written as.
pub proof fn lemma_address_round_trip(address: Seq<u8>)
    requires
        address.len() == 20,
    ensures
        address_from_payload(address) == Ok::<Seq<u8>, DecodeError>(address),
{
}

/// Whether a transaction has fields of the lengths of their types.
pub open spec fn well_formed(signed: SignedTransactionView) -> bool {
    &&& signed.transaction.nonce.len() == 32
    &&& signed.transaction.gas_price.len() == 32
    &&& signed.transaction.gas.len() == 32
    &&& signed.transaction.value.len() == 32
    &&& signed.r.len() == 32
    &&& signed.s.len() == 32
    &&& signed.transaction.to matches Some(address) ==> address.len() == 20
}

/// Whether the RLP reader reads a list of byte strings back from the
/// encoding that the RLP writer gives it: the number of the items, and each
/// item as a byte string, the empty one in the form of the empty item.
pub open spec fn reads_back(fields: Seq<Seq<u8>>) -> bool {
    let encoded = super::codec::rlp_list_encoding(fields);
    &&& rlp_item_count(encoded) == Ok::<nat, DecodeError>(fields.len())
    &&& forall|i: nat|
        i < fields.len() ==> match #[trigger] rlp_raw_at(encoded, i) {
            Ok(raw) => {
                &&& rlp_payload(raw) == Ok::<Seq<u8>, DecodeError>(fields[i as int])
                &&& is_data_item(raw)
                &&& is_empty_item(raw) <==> fields[i as int].len() == 0
            },
            Err(_) => false,
        }
}

/// A signed transaction is read back from its encoding, but for the
/// sender, which is read as the zero address: this holds wherever the RLP
/// reader reads back the list that the RLP writer wrote.
pub proof fn lemma_round_trip(signed: SignedTransactionView)
    requires
        well_formed(signed),
        reads_back(super::signed_fields(signed)),
    ensures
        decoded_transaction(super::signed_encoding(signed)) == Ok::<
            SignedTransactionView,
            DecodeError,
        >(
            SignedTransactionView {
                transaction: TransactionView {
                    from: padded(Seq::empty(), 20),
                    ..signed.transaction
                },
                ..signed
            },
        ),
{
    let fields = super::signed_fields(signed);
    let encoded = super::signed_encoding(signed);
    assert(fields.len() == 9);
    assert(rlp_raw_at(encoded, 0) is Ok);
    assert(rlp_raw_at(encoded, 1) is Ok);
    assert(rlp_raw_at(encoded, 2) is Ok);
    assert(rlp_raw_at(encoded, 3) is Ok);
    assert(rlp_raw_at(encoded, 4) is Ok);
    assert(rlp_raw_at(encoded, 5) is Ok);
    assert(rlp_raw_at(encoded, 6) is Ok);
    assert(rlp_raw_at(encoded, 7) is Ok);
    assert(rlp_raw_at(encoded, 8) is Ok);
    lemma_uint_round_trip(signed.transaction.nonce);
    lemma_uint_round_trip(signed.transaction.gas_price);
    lemma_uint_round_trip(signed.transaction.gas);
    lemma_uint_round_trip(signed.transaction.value);
    lemma_uint_round_trip(signed.r);
    lemma_uint_round_trip(signed.s);
    lemma_u64_round_trip(signed.v);
    assert(uint_at(encoded, 0, 32) == Ok::<Seq<u8>, DecodeError>(signed.transaction.nonce));
    assert(uint_at(encoded, 1, 32) == Ok::<Seq<u8>, DecodeError>(signed.transaction.gas_price));
    assert(uint_at(encoded, 2, 32) == Ok::<Seq<u8>, DecodeError>(signed.transaction.gas));
    assert(recipient_at(encoded, 3) == Ok::<Option<Seq<u8>>, DecodeError>(signed.transaction.to));
    assert(uint_at(encoded, 4, 32) == Ok::<Seq<u8>, DecodeError>(signed.transaction.value));
    assert(payload_at(encoded, 5) == Ok::<Seq<u8>, DecodeError>(signed.transaction.data));
    assert(u64_at(encoded, 6) == Ok::<u64, DecodeError>(signed.v));
    assert(uint_at(encoded, 7, 32) == Ok::<Seq<u8>, DecodeError>(signed.r));
    assert(uint_at(encoded, 8, 32) == Ok::<Seq<u8>, DecodeError>(signed.s));
}

} // verus!
