//! Ethereum transactions: their fields, their signed form and its encoding.
//!
//! A signed transaction is written as an RLP list of nine byte strings, in
//! the order nonce, gas price, gas, recipient, value, data, `v`, `r`, `s`.
//! Numbers are written big-endian without leading zeros; an absent recipient
//! is the empty byte string.

use vstd::prelude::*;

pub mod bytes;
pub mod codec;
pub mod decode;
pub mod hex;
pub mod replay_protection;

use self::bytes::{
    big_endian, copy_bytes, lemma_big_endian_len,
    minimal, padded, strip_leading_zeros, u64_bytes, };
use self::codec::{
    byte_strings, encode_list, keccak256, keccak256_digest, rlp_list_encoding, };

verus! {

/// A 256-bit number, as its 32 bytes in big-endian order.
#[derive(Debug, Clone, Copy, PartialEq, Eq, Hash, Default)]
pub struct U256 {
    /// The bytes, most significant first.
    pub bytes: [u8; 32],
}

/// The address of an account: 20 bytes.
#[derive(Debug, Clone, Copy, PartialEq, Eq, Hash, Default)]
pub struct Address {
    /// The bytes of the address.
    pub bytes: [u8; 20],
}

/// A byte string that is written as hexadecimal text.
#[derive(Debug, Clone, PartialEq, Eq, Hash, Default)]
pub struct Bytes(pub Vec<u8>);

impl View for U256 {
    type V = Seq<u8>;

    open spec fn view(&self) -> Seq<u8> {
        self.bytes@
    }
}

impl View for Address {
    type V = Seq<u8>;

    open spec fn view(&self) -> Seq<u8> {
        self.bytes@
    }
}

impl View for Bytes {
    type V = Seq<u8>;

    open spec fn view(&self) -> Seq<u8> {
        self.0@
    }
}

impl U256 {
    /// The number zero.
    pub fn zero() -> (r: U256)
        ensures
            r@ == padded(Seq::empty(), 32),
    {
        let r = U256 { bytes: [0u8; 32] };
        assert(r@ =~= padded(Seq::empty(), 32));
        r
    }

    /// The number that at most 32 big-endian bytes stand for.
    pub fn from_big_endian(slice: &[u8]) -> (r: U256)
        requires
            slice@.len() <= 32,
        ensures
            r@ == padded(slice@, 32),
    {
        let mut out = [0u8; 32];
        let offset: usize = 32 - slice.len();
        let mut i: usize = 0;
        while i < slice.len()
            invariant
                i <= slice.len() <= 32,
                offset == 32 - slice@.len(),
                out@.len() == 32,
                forall|j: int| 0 <= j < offset ==> out@[j] == 0,
                forall|j: int| 0 <= j < i ==> out@[offset + j] == slice@[j],
            decreases slice.len() - i,
        {
            out[offset + i] = slice[i];
            i += 1;
        }
        assert(out@ =~= padded(slice@, 32));
        U256 { bytes: out }
    }

    /// The number `value`.
    pub fn from_u64(value: u64) -> (r: U256)
        ensures
            r@ == padded(big_endian(value as nat, 8), 32),
    {
        let low = u64_bytes(value);
        proof {
            lemma_big_endian_len(value as nat, 8);
        }
        U256::from_big_endian(low.as_slice())
    }

    /// The bytes of this number without leading zeros.
    pub fn to_minimal(&self) -> (r: Vec<u8>)
        ensures
            r@ == minimal(self@),
    {
        strip_leading_zeros(self.bytes.as_slice())
    }
}

impl Address {
    /// The address whose bytes are all `byte`.
    pub fn repeat_byte(byte: u8) -> (r: Address)
        ensures
            r@ == Seq::new(20, |i: int| byte),
    {
        let r = Address { bytes: [byte; 20] };
        assert(r@ =~= Seq::new(20, |i: int| byte));
        r
    }

    /// Whether this address has the given bytes.
    pub fn is(&self, other: &[u8; 20]) -> (r: bool)
        ensures
            r == (self@ == other@),
    {
        self::bytes::same_bytes(self.bytes.as_slice(), other.as_slice())
    }
}

impl Bytes {
    /// A copy of this byte string.
    pub fn duplicate(&self) -> (r: Bytes)
        ensures
            r@ == self@,
    {
        Bytes(copy_bytes(self.0.as_slice()))
    }
}

/// A transaction that is not signed yet.
#[derive(Debug, Clone, PartialEq, Eq, Hash, Default)]
pub struct Transaction {
    /// The sender.
    pub from: Address,
    /// The recipient; none where the transaction creates a contract.
    pub to: Option<Address>,
    /// The sender's transaction count.
    pub nonce: U256,
    /// The gas limit.
    pub gas: U256,
    /// The price of one unit of gas.
    pub gas_price: U256,
    /// The amount that is transferred.
    pub value: U256,
    /// The call data.
    pub data: Bytes,
}

/// The mathematical content of a [`Transaction`].
pub struct TransactionView {
    pub from: Seq<u8>,
    pub to: Option<Seq<u8>>,
    pub nonce: Seq<u8>,
    pub gas: Seq<u8>,
    pub gas_price: Seq<u8>,
    pub value: Seq<u8>,
    pub data: Seq<u8>,
}

/// The view of an optional address.
pub open spec fn optional_address_view(address: Option<Address>) -> Option<Seq<u8>> {
    match address {
        Some(a) => Some(a@),
        None => None,
    }
}

impl View for Transaction {
    type V = TransactionView;

    open spec fn view(&self) -> TransactionView {
        TransactionView {
            from: self.from@,
            to: optional_address_view(self.to),
            nonce: self.nonce@,
            gas: self.gas@,
            gas_price: self.gas_price@,
            value: self.value@,
            data: self.data@,
        }
    }
}

impl Transaction {
    /// A copy of this transaction.
    pub fn duplicate(&self) -> (r: Transaction)
        ensures
            r@ == self@,
    {
        Transaction {
            from: self.from,
            to: self.to,
            nonce: self.nonce,
            gas: self.gas,
            gas_price: self.gas_price,
            value: self.value,
            data: self.data.duplicate(),
        }
    }
}

/// A transaction together with the chain that it is to be signed for.
#[derive(Debug, Clone, PartialEq, Eq, Hash)]
pub struct SignTransaction {
    /// The transaction.
    pub transaction: Transaction,
    /// The id of the chain.
    pub chain_id: u64,
}

/// A transaction with its signature.
#[derive(Debug, Clone, PartialEq, Eq, Hash)]
pub struct SignedTransaction {
    /// The transaction.
    pub transaction: Transaction,
    /// The recovery byte of the signature, with the chain id folded in.
    pub v: u64,
    /// The first half of the signature.
    pub r: U256,
    /// The second half of the signature.
    pub s: U256,
}

/// The mathematical content of a [`SignedTransaction`].
pub struct SignedTransactionView {
    pub transaction: TransactionView,
    pub v: u64,
    pub r: Seq<u8>,
    pub s: Seq<u8>,
}

impl View for SignedTransaction {
    type V = SignedTransactionView;

    open spec fn view(&self) -> SignedTransactionView {
        SignedTransactionView {
            transaction: self.transaction@,
            v: self.v,
            r: self.r@,
            s: self.s@,
        }
    }
}

/// The byte string that stands for the recipient.
pub open spec fn recipient_field(to: Option<Seq<u8>>) -> Seq<u8> {
    match to {
        Some(address) => address,
        None => Seq::empty(),
    }
}

/// The nine byte strings of a signed transaction, in the order in which they are written.
pub open spec fn signed_fields(signed: SignedTransactionView) -> Seq<Seq<u8>> {
    seq![
        minimal(signed.transaction.nonce),
        minimal(signed.transaction.gas_price),
        minimal(signed.transaction.gas),
        recipient_field(signed.transaction.to),
        minimal(signed.transaction.value),
        signed.transaction.data,
        minimal(big_endian(signed.v as nat, 8)),
        minimal(signed.r),
        minimal(signed.s),
    ]
}

/// The RLP encoding of a signed transaction.
pub open spec fn signed_encoding(signed: SignedTransactionView) -> Seq<u8> {
    rlp_list_encoding(signed_fields(signed))
}

/// What is signed: the transaction with the chain id in the place of `v`
/// and zero in the places of `r` and `s`.
pub open spec fn unsigned_form(transaction: TransactionView, chain_id: u64) -> SignedTransactionView {
    SignedTransactionView {
        transaction,
        v: chain_id,
        r: padded(Seq::empty(), 32),
        s: padded(Seq::empty(), 32),
    }
}

/// The hash that is signed for a transaction on a chain.
pub open spec fn signing_hash(transaction: TransactionView, chain_id: u64) -> Seq<u8> {
    keccak256_digest(signed_encoding(unsigned_form(transaction, chain_id)))
}

/// The recovery byte that a `v` carries; 4 where it carries none.
pub open spec fn spec_standard_v(v: u64) -> u8 {
    if v == 27 {
        0
    } else if v == 28 {
        1
    } else if v >= 35 {
        ((v - 1) % 2) as u8
    } else {
        4
    }
}

impl SignTransaction {
    /// A transaction to be signed for the chain `chain_id`.
    pub fn owned(tx: Transaction, chain_id: u64) -> (r: SignTransaction)
        ensures
            r.transaction == tx,
            r.chain_id == chain_id,
    {
        SignTransaction { transaction: tx, chain_id }
    }

    /// The hash that is signed.
    pub fn hash(&self) -> (r: [u8; 32])
        ensures
            r@ == signing_hash(self.transaction@, self.chain_id),
    {
        let unsigned = SignedTransaction {
            transaction: self.transaction.duplicate(),
            v: self.chain_id,
            r: U256::zero(),
            s: U256::zero(),
        };
        unsigned.hash()
    }
}

impl SignedTransaction {
    /// The signed form of `transaction` for the chain `chain_id`, from the
    /// recovery byte `v` and the two halves `r` and `s` of the signature.
    pub fn new(transaction: Transaction, chain_id: u64, v: u8, r: [u8; 32], s: [u8; 32]) -> (signed:
        SignedTransaction)
        requires
            replay_protection::spec_add(v, chain_id) <= u64::MAX,
        ensures
            signed@ == (SignedTransactionView {
                transaction: transaction@,
                v: replay_protection::spec_add(v, chain_id) as u64,
                r: r@,
                s: s@,
            }),
    {
        let v = crate::transaction::replay_protection::add(v, chain_id);
        SignedTransaction { transaction, v, r: U256 { bytes: r }, s: U256 { bytes: s } }
    }

    /// The recovery byte of the signature; 4 where `v` carries none.
    pub fn standard_v(&self) -> (r: u8)
        ensures
            r == spec_standard_v(self.v),
    {
        let v = self.v;
        if v == 27 {
            0
        } else if v == 28 {
            1
        } else if v >= 35 {
            ((v - 1) % 2) as u8
        } else {
            4
        }
    }

    /// The id of the chain that the signature is for, if `v` carries one.
    pub fn chain_id(&self) -> (r: Option<u64>)
        ensures
            r == replay_protection::spec_chain_id(self.v),
    {
        replay_protection::chain_id(self.v)
    }

    /// The Keccak-256 hash of the encoding of this signed transaction.
    pub fn hash(&self) -> (r: [u8; 32])
        ensures
            r@ == keccak256_digest(signed_encoding(self@)),
    {
        let encoded = self.to_rlp();
        keccak256(encoded.as_slice())
    }

    /// The hash that was signed: that of the transaction for the chain that
    /// `v` names, or for chain 0 where it names none.
    pub fn bare_hash(&self) -> (r: [u8; 32])
        ensures
            r@ == signing_hash(
                self.transaction@,
                match replay_protection::spec_chain_id(self.v) {
                    Some(id) => id,
                    None => 0,
                },
            ),
    {
        let chain_id = match self.chain_id() {
            Some(id) => id,
            None => 0,
        };
        SignTransaction { transaction: self.transaction.duplicate(), chain_id }.hash()
    }

    /// The nine byte strings of this signed transaction.
    pub fn fields(&self) -> (r: Vec<Vec<u8>>)
        ensures
            byte_strings(r@) == signed_fields(self@),
    {
        let mut items: Vec<Vec<u8>> = Vec::new();
        items.push(self.transaction.nonce.to_minimal());
        items.push(self.transaction.gas_price.to_minimal());
        items.push(self.transaction.gas.to_minimal());
        items.push(
            match &self.transaction.to {
                None => Vec::new(),
                Some(address) => copy_bytes(address.bytes.as_slice()),
            },
        );
        items.push(self.transaction.value.to_minimal());
        items.push(copy_bytes(self.transaction.data.0.as_slice()));
        let v = u64_bytes(self.v);
        items.push(strip_leading_zeros(v.as_slice()));
        items.push(self.r.to_minimal());
        items.push(self.s.to_minimal());
        assert(byte_strings(items@) =~= signed_fields(self@));
        items
    }

    /// The RLP encoding of this signed transaction.
    pub fn to_rlp(&self) -> (r: Vec<u8>)
        ensures
            r@ == signed_encoding(self@),
    {
        let items = self.fields();
        encode_list(&items)
    }
}

} // verus!
