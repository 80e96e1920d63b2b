use jsonrpc_proxy::transaction::codec::DecodeError;
use jsonrpc_proxy::transaction::replay_protection;
use jsonrpc_proxy::transaction::{
    Address, Bytes, SignTransaction, SignedTransaction, Transaction, U256,
};

fn sample(to: Option<Address>) -> Transaction {
    Transaction {
        from: Default::default(),
        to,
        nonce: U256::from_u64(5),
        gas_price: U256::from_u64(15),
        gas: U256::from_u64(69),
        data: Default::default(),
        value: U256::from_u64(1_000),
    }
}

#[test]
fn transaction_rlp_round_trip() {
    let transaction = Transaction {
        from: Default::default(),
        to: None,
        nonce: U256::from_u64(5),
        gas_price: U256::from_u64(15),
        gas: U256::from_u64(69),
        data: Default::default(),
        value: U256::from_u64(1_000),
    };
    let t = SignedTransaction::new(transaction, 105, 0, [1; 32], [1; 32]);

    let encoded = t.to_rlp();
    let decoded = SignedTransaction::decode(&encoded).unwrap();

    assert_eq!(t, decoded);
}

#[test]
fn transaction_rlp_round_trip2() {
    let transaction = Transaction {
        from: Default::default(),
        to: Some(Address::repeat_byte(5)),
        nonce: U256::from_u64(5),
        gas_price: U256::from_u64(15),
        gas: U256::from_u64(69),
        data: Default::default(),
        value: U256::from_u64(1_000),
    };
    let t = SignedTransaction::new(transaction, 105, 0, [1; 32], [1; 32]);

    let encoded = t.to_rlp();
    let decoded = SignedTransaction::decode(&encoded).unwrap();

    assert_eq!(t, decoded);
}

#[test]
fn signed_transaction_is_a_list_of_nine_byte_strings() {
    let t = SignedTransaction::new(sample(None), 105, 0, [1; 32], [1; 32]);
    let mut expected: Vec<u8> = vec![0xf8, 0x4c, 0x05, 0x0f, 0x45, 0x80, 0x82, 0x03, 0xe8, 0x80, 0x81, 0xf5];
    expected.push(0xa0);
    expected.extend_from_slice(&[1u8; 32]);
    expected.push(0xa0);
    expected.extend_from_slice(&[1u8; 32]);
    assert_eq!(t.to_rlp(), expected);
    assert_eq!(t.fields().len(), 9);
    assert_eq!(t.fields()[3], Vec::<u8>::new());
    assert_eq!(t.fields()[4], vec![0x03, 0xe8]);
}

#[test]
fn encoding_matches_the_rlp_crate() {
    let t = SignedTransaction::new(sample(Some(Address::repeat_byte(5))), 1, 1, [2; 32], [3; 32]);
    let mut stream = rlp::RlpStream::new();
    stream.begin_list(9);
    stream.append(&5u64);
    stream.append(&15u64);
    stream.append(&69u64);
    stream.append(&vec![5u8; 20]);
    stream.append(&1_000u64);
    stream.append(&Vec::<u8>::new());
    stream.append(&38u64);
    stream.append(&vec![2u8; 32]);
    stream.append(&vec![3u8; 32]);
    assert_eq!(t.to_rlp(), stream.out());
}

#[test]
fn sender_is_zero_after_decoding() {
    let mut transaction = sample(None);
    transaction.from = Address::repeat_byte(9);
    let t = SignedTransaction::new(transaction, 105, 0, [1; 32], [1; 32]);
    let decoded = SignedTransaction::decode(&t.to_rlp()).unwrap();
    assert_eq!(decoded.transaction.from, Address::default());
    assert_eq!(decoded.transaction.nonce, t.transaction.nonce);
    assert_eq!(decoded.v, 245);
}

#[test]
fn round_trip_with_data_and_large_numbers() {
    let mut transaction = sample(Some(Address::repeat_byte(0xab)));
    transaction.data = Bytes(vec![0, 1, 2, 0, 255]);
    transaction.value = U256 { bytes: [0xff; 32] };
    transaction.nonce = U256::zero();
    let t = SignedTransaction::new(transaction, u32::MAX as u64, 1, [0xfe; 32], [0x7f; 32]);
    let decoded = SignedTransaction::decode(&t.to_rlp()).unwrap();
    assert_eq!(t, decoded);
}

#[test]
fn decode_rejects_a_list_of_another_length() {
    let encoded = rlp::encode_list::<Vec<u8>, Vec<u8>>(&[vec![1u8], vec![2u8]]);
    assert_eq!(SignedTransaction::decode(&encoded), Err(DecodeError::RlpIncorrectListLen));
}

#[test]
fn decode_rejects_what_is_no_list() {
    assert_eq!(SignedTransaction::decode(&[0x05]), Err(DecodeError::RlpExpectedToBeList));
    assert_eq!(SignedTransaction::decode(&[]), Err(DecodeError::RlpExpectedToBeList));
}

fn nine(items: [Vec<u8>; 9]) -> Vec<u8> {
    rlp::encode_list::<Vec<u8>, Vec<u8>>(&items)
}

fn valid_items() -> [Vec<u8>; 9] {
    [vec![5], vec![15], vec![69], vec![], vec![3, 0xe8], vec![], vec![245], vec![1; 32], vec![1; 32]]
}

#[test]
fn decode_rejects_a_number_with_a_leading_zero() {
    let mut items = valid_items();
    items[0] = vec![0, 5];
    assert_eq!(SignedTransaction::decode(&nine(items)), Err(DecodeError::RlpInvalidIndirection));
}

#[test]
fn decode_rejects_a_number_that_is_too_big() {
    let mut items = valid_items();
    items[4] = vec![1; 33];
    assert_eq!(SignedTransaction::decode(&nine(items)), Err(DecodeError::RlpIsTooBig));
    let mut items = valid_items();
    items[6] = vec![1; 9];
    assert_eq!(SignedTransaction::decode(&nine(items)), Err(DecodeError::RlpIsTooBig));
}

#[test]
fn decode_rejects_a_recipient_of_another_length() {
    let mut items = valid_items();
    items[3] = vec![1; 19];
    assert_eq!(SignedTransaction::decode(&nine(items)), Err(DecodeError::RlpIsTooShort));
    let mut items = valid_items();
    items[3] = vec![1; 21];
    assert_eq!(SignedTransaction::decode(&nine(items)), Err(DecodeError::RlpIsTooBig));
}

#[test]
fn decode_rejects_an_empty_list_as_recipient() {
    let mut stream = rlp::RlpStream::new();
    stream.begin_list(9);
    stream.append(&5u64).append(&15u64).append(&69u64);
    stream.begin_list(0);
    stream.append(&1_000u64).append(&Vec::<u8>::new()).append(&245u64);
    stream.append(&vec![1u8; 32]).append(&vec![1u8; 32]);
    assert_eq!(SignedTransaction::decode(&stream.out()), Err(DecodeError::RlpExpectedToBeData));
}

#[test]
fn decode_rejects_a_list_in_the_place_of_a_number() {
    let mut stream = rlp::RlpStream::new();
    stream.begin_list(9);
    stream.begin_list(1).append(&5u64);
    stream.append(&15u64).append(&69u64).append(&Vec::<u8>::new());
    stream.append(&1_000u64).append(&Vec::<u8>::new()).append(&245u64);
    stream.append(&vec![1u8; 32]).append(&vec![1u8; 32]);
    assert_eq!(SignedTransaction::decode(&stream.out()), Err(DecodeError::RlpExpectedToBeData));
}

#[test]
fn replay_protection_adds_and_extracts_the_chain_id() {
    assert_eq!(replay_protection::add(0, 105), 245);
    assert_eq!(replay_protection::add(1, 1), 38);
    assert_eq!(replay_protection::chain_id(245), Some(105));
    assert_eq!(replay_protection::chain_id(38), Some(1));
    assert_eq!(replay_protection::chain_id(35), Some(0));
    assert_eq!(replay_protection::chain_id(34), None);
    assert_eq!(replay_protection::chain_id(27), None);
    assert_eq!(replay_protection::checked_add(1, u64::MAX / 2), None);
    assert_eq!(replay_protection::checked_add(0, (u64::MAX - 35) / 2), Some(u64::MAX - 35 - (u64::MAX - 35) % 2 + 35));
}

#[test]
fn standard_v_recovers_the_recovery_byte() {
    let with = |v: u64| {
        let mut t = SignedTransaction::new(sample(None), 0, 0, [1; 32], [1; 32]);
        t.v = v;
        t
    };
    assert_eq!(with(27).standard_v(), 0);
    assert_eq!(with(28).standard_v(), 1);
    assert_eq!(with(35).standard_v(), 0);
    assert_eq!(with(36).standard_v(), 1);
    assert_eq!(with(245).standard_v(), 0);
    assert_eq!(with(246).standard_v(), 1);
    assert_eq!(with(0).standard_v(), 4);
    assert_eq!(with(34).standard_v(), 4);
    assert_eq!(with(245).chain_id(), Some(105));
    assert_eq!(with(28).chain_id(), None);
}

#[test]
fn hashes_are_keccak_of_the_encoding() {
    let t = SignedTransaction::new(sample(None), 105, 0, [1; 32], [1; 32]);
    assert_eq!(t.hash(), tiny_keccak::keccak256(&t.to_rlp()));
    let unsigned = SignedTransaction {
        transaction: sample(None),
        v: 105,
        r: U256::zero(),
        s: U256::zero(),
    };
    assert_eq!(SignTransaction::owned(sample(None), 105).hash(), unsigned.hash());
    assert_eq!(t.bare_hash(), unsigned.hash());
    assert_ne!(t.hash(), t.bare_hash());
    let plain = SignedTransaction { transaction: sample(None), v: 27, r: U256::zero(), s: U256::zero() };
    assert_eq!(plain.bare_hash(), SignTransaction::owned(sample(None), 0).hash());
}

#[test]
fn numbers_are_big_endian() {
    let five = U256::from_u64(5);
    assert_eq!(five.bytes[31], 5);
    assert_eq!(five.bytes[..31], [0u8; 31]);
    assert_eq!(five.to_minimal(), vec![5]);
    assert_eq!(U256::zero().to_minimal(), Vec::<u8>::new());
    assert_eq!(U256::from_u64(0x0102).to_minimal(), vec![1, 2]);
    assert_eq!(U256::from_big_endian(&[1, 0]).to_minimal(), vec![1, 0]);
    assert_eq!(U256::from_u64(u64::MAX).to_minimal(), vec![0xff; 8]);
}

#[test]
fn bytes_are_written_as_hex() {
    assert_eq!(Bytes(vec![]).to_hex(), "0x");
    assert_eq!(Bytes(vec![0x00, 0x01, 0xab, 0xff]).to_hex(), "0x0001abff");
}
