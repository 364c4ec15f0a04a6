//! Tests of envelope encoding and signing: wire-format compatibility with
//! the reference clients, determinism, and the token-transfer calldata.

use tokenbridge::envelope::{encode, AccessItem, Signature, TransactionParam};
use tokenbridge::signer::{
    encode_erc20_transfer_data, sign_erc20, sign_raw, sign_raw_tx, TxBroadcastRequest, TxRequest,
};

fn eip155_envelope() -> TransactionParam {
    TransactionParam {
        to: Some(vec![0x35; 20]),
        nonce: 9,
        gas: 21000,
        gas_price: 20_000_000_000,
        value: 1_000_000_000_000_000_000,
        data: Vec::new(),
        transaction_type: None,
        access_list: Vec::new(),
        max_priority_fee_per_gas: 20_000_000_000,
    }
}

/// The worked example of the EIP-155 specification: the unsigned encoding,
/// the signed raw bytes and the recovery value must match the reference
/// byte for byte.
#[test]
fn eip155_reference_vector() {
    let tx = eip155_envelope();
    let unsigned = encode(&tx, 1, None);
    assert_eq!(
        hex::encode(&unsigned),
        "ec098504a817c800825208943535353535353535353535353535353535353535880de0b6b3a764000080018080"
    );
    let key = [0x46u8; 32];
    let signed = sign_raw(&tx, &key, 1).unwrap();
    assert_eq!(signed.v, 37);
    let mut expected = String::new();
    expected.push_str("f86c098504a817c800825208943535353535353535353535353535353535353535880de0");
    expected.push_str("b6b3a76400008025a028ef61340bd939bc2195fe537567866003e1a15d3c71ff63e159");
    expected.push_str("0620aa636276a067cbe9d8997f761aecb703304b3800ccf555c9f3dc64214b297fb196");
    expected.push_str("6a3b6d83");
    assert_eq!(hex::encode(&signed.raw_transaction), expected);
}

/// The unsigned legacy encoding agrees with an independent RLP encoder.
#[test]
fn legacy_encoding_cross_check() {
    let tx = eip155_envelope();
    let unsigned = encode(&tx, 1, None);
    let mut stream = rlp::RlpStream::new();
    stream.begin_list(9);
    stream.append(&9u64);
    stream.append(&20_000_000_000u64);
    stream.append(&21000u64);
    stream.append(&vec![0x35u8; 20]);
    stream.append(&1_000_000_000_000_000_000u64);
    stream.append(&Vec::<u8>::new());
    stream.append(&1u64);
    stream.append(&0u8);
    stream.append(&0u8);
    assert_eq!(unsigned, stream.out().to_vec());
}

/// A dynamic-fee envelope encodes behind its `0x02` type byte and agrees
/// with an independent RLP encoder.
#[test]
fn eip1559_encoding_cross_check() {
    let tx = TransactionParam {
        to: Some(vec![0x11; 20]),
        nonce: 3,
        gas: 30000,
        gas_price: 150,
        value: 42,
        data: vec![0xde, 0xad],
        transaction_type: Some(2),
        access_list: Vec::new(),
        max_priority_fee_per_gas: 7,
    };
    let unsigned = encode(&tx, 5, None);
    let mut stream = rlp::RlpStream::new();
    stream.begin_list(9);
    stream.append(&5u64);
    stream.append(&3u64);
    stream.append(&7u64);
    stream.append(&150u64);
    stream.append(&30000u64);
    stream.append(&vec![0x11u8; 20]);
    stream.append(&42u64);
    stream.append(&vec![0xdeu8, 0xad]);
    stream.begin_list(0);
    let mut expected = vec![2u8];
    expected.extend_from_slice(&stream.out());
    assert_eq!(unsigned, expected);
}

/// An access-list envelope encodes its entries as `[address, [keys]]`
/// pairs behind the `0x01` type byte.
#[test]
fn access_list_encoding_cross_check() {
    let tx = TransactionParam {
        to: Some(vec![0x22; 20]),
        nonce: 1,
        gas: 21000,
        gas_price: 1000,
        value: 0,
        data: Vec::new(),
        transaction_type: Some(1),
        access_list: vec![AccessItem {
            address: vec![0x33; 20],
            storage_keys: vec![vec![0x44; 32], vec![0x55; 32]],
        }],
        max_priority_fee_per_gas: 1000,
    };
    let unsigned = encode(&tx, 7, None);
    let mut stream = rlp::RlpStream::new();
    stream.begin_list(8);
    stream.append(&7u64);
    stream.append(&1u64);
    stream.append(&1000u64);
    stream.append(&21000u64);
    stream.append(&vec![0x22u8; 20]);
    stream.append(&0u8);
    stream.append(&Vec::<u8>::new());
    stream.begin_list(1);
    stream.begin_list(2);
    stream.append(&vec![0x33u8; 20]);
    stream.begin_list(2);
    stream.append(&vec![0x44u8; 32]);
    stream.append(&vec![0x55u8; 32]);
    let mut expected = vec![1u8];
    expected.extend_from_slice(&stream.out());
    assert_eq!(unsigned, expected);
}

/// Signing is deterministic: equal inputs give byte-identical output
/// across calls.
#[test]
fn signing_deterministic() {
    let tx = eip155_envelope();
    let key = [0x46u8; 32];
    let a = sign_raw(&tx, &key, 1).unwrap();
    let b = sign_raw(&tx, &key, 1).unwrap();
    assert_eq!(a.raw_transaction, b.raw_transaction);
    assert_eq!(a.transaction_hash, b.transaction_hash);
    assert_eq!((a.v, a.r, a.s), (b.v, b.r, b.s));
}

/// The signed envelope appends the signature in place of the replay
/// protection fields, and the transaction hash digests the signed bytes.
#[test]
fn signed_encoding_carries_signature() {
    let tx = eip155_envelope();
    let key = [0x46u8; 32];
    let st = sign_raw(&tx, &key, 1).unwrap();
    let sig = Signature { v: st.v, r: st.r.clone(), s: st.s.clone() };
    assert_eq!(st.raw_transaction, encode(&tx, 1, Some(&sig)));
    assert_eq!(
        st.transaction_hash,
        web3::signing::keccak256(&st.raw_transaction).to_vec()
    );
    assert_eq!(
        st.message_hash,
        web3::signing::keccak256(&encode(&tx, 1, None)).to_vec()
    );
}

/// An invalid key (the zero scalar) is refused; a valid one succeeds.
#[test]
fn signer_rejects_invalid_key() {
    let tx = eip155_envelope();
    assert!(sign_raw(&tx, &[0u8; 32], 1).is_err());
    assert!(sign_raw(&tx, &[0u8; 16], 1).is_err());
    assert!(sign_raw(&tx, &[0x46u8; 32], 1).is_ok());
}

/// The token-transfer calldata starts with the well-known selector of
/// `transfer(address,uint256)` and carries the padded recipient and value.
#[test]
fn erc20_transfer_calldata() {
    let recipient = vec![0xabu8; 20];
    let data = encode_erc20_transfer_data(&recipient, 100_000_000);
    assert_eq!(data.len(), 68);
    assert_eq!(&data[0..4], &[0xa9, 0x05, 0x9c, 0xbb]);
    assert_eq!(&data[4..16], &[0u8; 12]);
    assert_eq!(&data[16..36], &recipient[..]);
    let mut word = [0u8; 32];
    word[28..32].copy_from_slice(&100_000_000u32.to_be_bytes());
    assert_eq!(&data[36..68], &word[..]);
}

/// The wire entry point parses its decimal and hex string fields and signs
/// the same envelope as the typed path.
#[test]
fn sign_raw_tx_matches_typed_path() {
    let req = TxBroadcastRequest {
        network_rpc: String::from("http://localhost:8545"),
        bridge_address: String::from("0x3535353535353535353535353535353535353535"),
        tx: TxRequest {
            chain_id: String::from("1"),
            to: String::from("0x3535353535353535353535353535353535353535"),
            nonce: String::from("9"),
            value: String::from("1000000000000000000"),
            gas: String::from("21000"),
            gas_price: String::from("20000000000"),
        },
        token_address: None,
        abi: None,
    };
    let key = [0x46u8; 32];
    let st = sign_raw_tx(&req, &key).unwrap();
    let direct = sign_raw(&eip155_envelope(), &key, 1).unwrap();
    assert_eq!(st.raw_transaction, direct.raw_transaction);
}

/// Malformed numeric and address fields are rejected, each with its own
/// error.
#[test]
fn sign_raw_tx_rejects_bad_fields() {
    let good = TxRequest {
        chain_id: String::from("1"),
        to: String::from("0x3535353535353535353535353535353535353535"),
        nonce: String::from("9"),
        value: String::from("1000000000000000000"),
        gas: String::from("21000"),
        gas_price: String::from("20000000000"),
    };
    let base = |tx: TxRequest| TxBroadcastRequest {
        network_rpc: String::from("http://localhost:8545"),
        bridge_address: String::from("0x3535353535353535353535353535353535353535"),
        tx,
        token_address: None,
        abi: None,
    };
    let key = [0x46u8; 32];
    let mut bad_value = good.clone();
    bad_value.value = String::from("12x4");
    assert_eq!(
        sign_raw_tx(&base(bad_value), &key).unwrap_err(),
        tokenbridge::error::BridgeError::DecodeError
    );
    let mut bad_to = good.clone();
    bad_to.to = String::from("0x123");
    assert_eq!(
        sign_raw_tx(&base(bad_to), &key).unwrap_err(),
        tokenbridge::error::BridgeError::AddressParse
    );
    let mut bad_chain = good.clone();
    bad_chain.chain_id = String::from("99999999999999999999999999999");
    assert_eq!(
        sign_raw_tx(&base(bad_chain), &key).unwrap_err(),
        tokenbridge::error::BridgeError::DecodeError
    );
    // Parses as a 64-bit value but exceeds the replay-protection limit.
    let mut huge_chain = good.clone();
    huge_chain.chain_id = String::from("18000000000000000000");
    assert_eq!(
        sign_raw_tx(&base(huge_chain), &key).unwrap_err(),
        tokenbridge::error::BridgeError::DecodeError
    );
}

/// A token-transfer signing request must carry the token contract and its
/// interface; the signed envelope pays the contract, not the recipient.
#[test]
fn sign_erc20_builds_contract_call() {
    let tx = TxRequest {
        chain_id: String::from("2"),
        to: String::from("0x1111111111111111111111111111111111111111"),
        nonce: String::from("0"),
        value: String::from("100000000"),
        gas: String::from("60000"),
        gas_price: String::from("1000000000"),
    };
    let req = TxBroadcastRequest {
        network_rpc: String::from("http://localhost:8545"),
        bridge_address: String::from("0x2222222222222222222222222222222222222222"),
        tx,
        token_address: Some(String::from("0x4444444444444444444444444444444444444444")),
        abi: Some(String::from("[]")),
    };
    let key = [0x46u8; 32];
    let st = sign_erc20(&req, &key).unwrap();
    let expected_env = TransactionParam {
        to: Some(vec![0x44; 20]),
        nonce: 0,
        gas: 60000,
        gas_price: 1_000_000_000,
        value: 0,
        data: encode_erc20_transfer_data(&vec![0x11; 20], 100_000_000),
        transaction_type: None,
        access_list: Vec::new(),
        max_priority_fee_per_gas: 1_000_000_000,
    };
    let direct = sign_raw(&expected_env, &key, 2).unwrap();
    assert_eq!(st.raw_transaction, direct.raw_transaction);

    let mut no_token = req.clone();
    no_token.token_address = None;
    assert_eq!(
        sign_erc20(&no_token, &key).unwrap_err(),
        tokenbridge::error::BridgeError::UnknownToken
    );
}
