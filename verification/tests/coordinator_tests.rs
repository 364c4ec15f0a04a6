//! End-to-end scenarios over the coordinator and the in-memory ledger:
//! quoting, deposit verification, the origin-hash lock, release
//! preparation, finalisation, and their failure paths.

use tokenbridge::amount::Amount;
use tokenbridge::coordinator::{
    check_broadcast_state, check_deposit, build_release_request, receipt_outcome, request_tx,
    failure_disposition, validate_confirmed_block, validate_tx_hash, verify_deposit,
    DepositObservation, QuoteContext, ReleaseContext, RequestedTransaction,
};
use tokenbridge::error::{BridgeError, MismatchField};
use tokenbridge::ledger::{AssetClass, Ledger, Network, Status, TokenAddress};
use tokenbridge::signer::sign_raw_tx;
use tokenbridge::signer::{TxBroadcastRequest, TxRequest};

const WEI: u128 = 1_000_000_000_000_000_000;

fn network(name: &str, chain_id: u64, decimals: u32, bridge_byte: u8, rate: Amount) -> Network {
    Network {
        network_name: String::from(name),
        network_rpc: format!("http://{}.example:8545", name),
        chain_id,
        decimal_value: decimals,
        bridge_address: vec![bridge_byte; 20],
        bridge_fee_rate: rate,
        min_confirmations: 2,
    }
}

/// Networks A (chain 1) and B (chain 2), native tokens on each; B charges
/// a fee rate of 0.001.
fn native_fixture() -> Ledger {
    let mut l = Ledger::new();
    let fee_rate = Amount { mantissa: 1, scale: 3 };
    let a = l.add_network(network("a", 1, 18, 0xAA, fee_rate));
    let b = l.add_network(network("b", 2, 18, 0xBB, fee_rate));
    l.add_token(TokenAddress {
        network_id: a,
        token_address: None,
        token_symbol: String::from("ETH"),
        asset_type: AssetClass::Native,
        abi_json: None,
    });
    l.add_token(TokenAddress {
        network_id: b,
        token_address: None,
        token_symbol: String::from("ETH"),
        asset_type: AssetClass::Native,
        abi_json: None,
    });
    l
}

fn quote_request(amount: Amount) -> RequestedTransaction {
    RequestedTransaction {
        sender_address: String::from("0x5555555555555555555555555555555555555555"),
        receiver_address: String::from("0x9999999999999999999999999999999999999999"),
        origin_network: Some(0),
        destin_network: Some(1),
        from_token_address: 0,
        to_token_address: 1,
        transfer_amount: amount,
        created_by: 7,
    }
}

fn quote_ctx(balance: u128) -> QuoteContext {
    QuoteContext {
        from_token_decimals: None,
        sender_balance: balance,
        gas_limit: 21000,
        base_fee_per_gas: 1_000_000_000,
        now: 1000,
    }
}

fn h1() -> String {
    format!("0x{}", "11".repeat(32))
}

/// The native happy path: a 1.0 quote owes a 1.001 deposit paid to the
/// destination bridge account; the verified deposit passes the lock, the
/// release pays exactly 1.0 to the recipient, and a succeeding receipt
/// finalizes the transfer as SUCCESS with the destination hash recorded.
#[test]
fn s1_native_happy_path() {
    let mut l = native_fixture();
    let one = Amount { mantissa: 1, scale: 0 };
    let resp = request_tx(&mut l, &quote_request(one), &quote_ctx(2 * WEI)).unwrap();
    assert_eq!(resp.transfer_amount, 1_001_000_000_000_000_000);
    assert_eq!(resp.receiver_address, vec![0xBB; 20]);
    assert_eq!(resp.max_priority_fee_per_gas, 0);

    let hash = validate_tx_hash(&h1()).unwrap();
    check_broadcast_state(&l, resp.id).unwrap();
    let t = l.get_transaction(resp.id).unwrap().clone();
    let deposit = DepositObservation::NativeTx {
        from: vec![0x55; 20],
        to: Some(vec![0xAA; 20]),
        value_hi: 0,
        value_lo: 1_001_000_000_000_000_000,
    };
    let origin_bridge = vec![0xAA; 20];
    check_deposit(&t, &origin_bridge, &deposit).unwrap();
    assert_eq!(validate_confirmed_block(102, 100, 2).unwrap(), 2);
    l.set_origin_hash(resp.id, hash, 1001).unwrap();

    let to_token = l.get_token_address_by_id(1).unwrap().clone();
    let rc = ReleaseContext { chain_id: 2, nonce: 0, gas_price: 1_000_000_000, gas: 21000 };
    let release = build_release_request(&t, &to_token, &rc).unwrap();
    assert_eq!(release.value, WEI);
    assert_eq!(release.to, vec![0x99; 20]);
    assert!(release.token_address.is_none());

    let signer_req = TxBroadcastRequest {
        network_rpc: String::from("http://b.example:8545"),
        bridge_address: String::from("0xbbbbbbbbbbbbbbbbbbbbbbbbbbbbbbbbbbbbbbbb"),
        tx: TxRequest {
            chain_id: release.chain_id.to_string(),
            to: hex::encode(&release.to),
            nonce: release.nonce.to_string(),
            value: release.value.to_string(),
            gas: release.gas.to_string(),
            gas_price: release.gas_price.to_string(),
        },
        token_address: None,
        abi: None,
    };
    let signed = sign_raw_tx(&signer_req, &[0x46u8; 32]).unwrap();
    assert!(!signed.raw_transaction.is_empty());

    assert_eq!(receipt_outcome(Some(1)), Some(Status::Success));
    let dest_hash = vec![0x22u8; 32];
    l.finalize(resp.id, Some(dest_hash.clone()), Status::Success, 1002).unwrap();
    let t = l.get_transaction(resp.id).unwrap();
    assert_eq!(t.destin_tx_hash.as_deref(), Some(&dest_hash[..]));
    let status_row = l.get_tx_status(resp.id).unwrap();
    assert_eq!(
        l.get_transaction_status(status_row).unwrap().status_name,
        Status::Success
    );
}

/// The token happy path: a 100.0 quote under six decimals owes a
/// 100.1-token deposit; the transfer event's topics carry sender and
/// bridge, its data the exact value.
#[test]
fn s2_erc20_happy_path() {
    let mut l = Ledger::new();
    let fee_rate = Amount { mantissa: 1, scale: 3 };
    let a = l.add_network(network("a", 1, 18, 0xAA, fee_rate));
    let b = l.add_network(network("b", 2, 18, 0xBB, fee_rate));
    l.add_token(TokenAddress {
        network_id: a,
        token_address: Some(vec![0xCA; 20]),
        token_symbol: String::from("USDC"),
        asset_type: AssetClass::Erc20,
        abi_json: Some(String::from("[]")),
    });
    l.add_token(TokenAddress {
        network_id: b,
        token_address: Some(vec![0xCB; 20]),
        token_symbol: String::from("USDC"),
        asset_type: AssetClass::Erc20,
        abi_json: Some(String::from("[]")),
    });
    let hundred = Amount { mantissa: 100, scale: 0 };
    let ctx = QuoteContext {
        from_token_decimals: Some(6),
        sender_balance: 1_000_000_000,
        gas_limit: 60000,
        base_fee_per_gas: 0,
        now: 2000,
    };
    let resp = request_tx(&mut l, &quote_request(hundred), &ctx).unwrap();
    assert_eq!(resp.transfer_amount, 100_100_000);
    let t = l.get_transaction(resp.id).unwrap().clone();
    assert_eq!(t.transfer_amount, 100_000_000);
    assert_eq!(t.bridge_fee, 100_000);

    let mut topic_from = vec![0u8; 12];
    topic_from.extend_from_slice(&[0x55; 20]);
    let mut topic_to = vec![0u8; 12];
    topic_to.extend_from_slice(&[0xAA; 20]);
    let mut data = vec![0u8; 32];
    data[28..32].copy_from_slice(&100_100_000u32.to_be_bytes());
    let deposit = DepositObservation::Erc20Receipt {
        topics: vec![vec![0xEE; 32], topic_from, topic_to],
        data,
    };
    check_deposit(&t, &vec![0xAA; 20], &deposit).unwrap();

    let to_token = l.get_token_address_by_id(1).unwrap().clone();
    let rc = ReleaseContext { chain_id: 2, nonce: 5, gas_price: 100, gas: 60000 };
    let release = build_release_request(&t, &to_token, &rc).unwrap();
    assert_eq!(release.value, 100_000_000);
    assert_eq!(release.token_address.as_deref(), Some(&[0xCBu8; 20][..]));
}

/// A deposit whose value differs from the owed total fails verification
/// with a value mismatch and the transfer stays pending.
#[test]
fn s3_mismatched_value() {
    let mut l = native_fixture();
    let one = Amount { mantissa: 1, scale: 0 };
    let resp = request_tx(&mut l, &quote_request(one), &quote_ctx(2 * WEI)).unwrap();
    let t = l.get_transaction(resp.id).unwrap().clone();
    let deposit = DepositObservation::NativeTx {
        from: vec![0x55; 20],
        to: Some(vec![0xAA; 20]),
        value_hi: 0,
        value_lo: 1_000_200_000_000_000_000,
    };
    assert_eq!(
        check_deposit(&t, &vec![0xAA; 20], &deposit).unwrap_err(),
        BridgeError::OnChainMismatch(MismatchField::Value)
    );
    // Nothing was persisted: the transfer is still pending and unlocked.
    check_broadcast_state(&l, resp.id).unwrap();
    assert!(l.get_transaction(resp.id).unwrap().origin_tx_hash.is_none());
}

/// A deposit only one block deep is refused; one more block makes it pass.
#[test]
fn s4_confirmation_too_shallow() {
    assert_eq!(
        validate_confirmed_block(101, 100, 2).unwrap_err(),
        BridgeError::InsufficientConfirmations
    );
    assert_eq!(validate_confirmed_block(102, 100, 2).unwrap(), 2);
    assert_eq!(
        validate_confirmed_block(99, 100, 2).unwrap_err(),
        BridgeError::InsufficientConfirmations
    );
}

/// Two broadcast attempts with the same deposit: exactly one passes the
/// origin-hash lock; the second is refused with an illegal transition.
#[test]
fn s5_double_broadcast() {
    let mut l = native_fixture();
    let one = Amount { mantissa: 1, scale: 0 };
    let resp = request_tx(&mut l, &quote_request(one), &quote_ctx(2 * WEI)).unwrap();
    let hash = validate_tx_hash(&h1()).unwrap();
    l.set_origin_hash(resp.id, hash.clone(), 1001).unwrap();
    assert_eq!(
        l.set_origin_hash(resp.id, hash, 1002).unwrap_err(),
        BridgeError::IllegalTransition
    );
    assert_eq!(
        check_broadcast_state(&l, resp.id).unwrap_err(),
        BridgeError::IllegalTransition
    );
}

/// A reverted destination receipt finalizes the transfer as FAIL with the
/// destination hash recorded.
#[test]
fn s6_destination_revert() {
    let mut l = native_fixture();
    let one = Amount { mantissa: 1, scale: 0 };
    let resp = request_tx(&mut l, &quote_request(one), &quote_ctx(2 * WEI)).unwrap();
    l.set_origin_hash(resp.id, validate_tx_hash(&h1()).unwrap(), 1001).unwrap();
    assert_eq!(receipt_outcome(Some(0)), Some(Status::Fail));
    let dest_hash = vec![0x33u8; 32];
    l.finalize(resp.id, Some(dest_hash.clone()), Status::Fail, 1002).unwrap();
    let t = l.get_transaction(resp.id).unwrap();
    assert_eq!(t.destin_tx_hash.as_deref(), Some(&dest_hash[..]));
    let status_row = l.get_tx_status(resp.id).unwrap();
    assert_eq!(l.get_transaction_status(status_row).unwrap().status_name, Status::Fail);
}

/// The one-step deposit verification: a valid deposit takes the lock and
/// records the origin hash; a second attempt is refused; a shallow deposit
/// leaves the ledger untouched.
#[test]
fn verify_deposit_pipeline() {
    let mut l = native_fixture();
    let one = Amount { mantissa: 1, scale: 0 };
    let resp = request_tx(&mut l, &quote_request(one), &quote_ctx(2 * WEI)).unwrap();
    let deposit = DepositObservation::NativeTx {
        from: vec![0x55; 20],
        to: Some(vec![0xAA; 20]),
        value_hi: 0,
        value_lo: 1_001_000_000_000_000_000,
    };
    // Too shallow: refused, nothing persisted.
    assert_eq!(
        verify_deposit(&mut l, resp.id, &h1(), &deposit, 101, 100, 1001).unwrap_err(),
        BridgeError::InsufficientConfirmations
    );
    assert!(l.get_transaction(resp.id).unwrap().origin_tx_hash.is_none());
    // Deep enough: the lock is taken and the hash recorded.
    verify_deposit(&mut l, resp.id, &h1(), &deposit, 102, 100, 1002).unwrap();
    assert_eq!(
        l.get_transaction(resp.id).unwrap().origin_tx_hash.as_deref(),
        Some(&[0x11u8; 32][..])
    );
    // A second identical attempt fails the entry check.
    assert_eq!(
        verify_deposit(&mut l, resp.id, &h1(), &deposit, 103, 100, 1003).unwrap_err(),
        BridgeError::IllegalTransition
    );
}

/// Re-submitting a broadcast after finalisation is refused as already
/// finalized, the terminal status stands, and no second destination hash
/// can be recorded.
#[test]
fn broadcast_idempotent_after_success() {
    let mut l = native_fixture();
    let one = Amount { mantissa: 1, scale: 0 };
    let resp = request_tx(&mut l, &quote_request(one), &quote_ctx(2 * WEI)).unwrap();
    l.set_origin_hash(resp.id, validate_tx_hash(&h1()).unwrap(), 1001).unwrap();
    let dest_hash = vec![0x22u8; 32];
    l.finalize(resp.id, Some(dest_hash.clone()), Status::Success, 1002).unwrap();

    assert_eq!(
        check_broadcast_state(&l, resp.id).unwrap_err(),
        BridgeError::AlreadyFinalized
    );
    assert_eq!(
        l.finalize(resp.id, Some(vec![0x77u8; 32]), Status::Fail, 1003).unwrap_err(),
        BridgeError::AlreadyFinalized
    );
    let t = l.get_transaction(resp.id).unwrap();
    assert_eq!(t.destin_tx_hash.as_deref(), Some(&dest_hash[..]));
    let status_row = l.get_tx_status(resp.id).unwrap();
    assert_eq!(
        l.get_transaction_status(status_row).unwrap().status_name,
        Status::Success
    );
}

/// The quote validation ladder: each rejected input yields its own error.
#[test]
fn quote_validation_errors() {
    let mut l = native_fixture();
    let one = Amount { mantissa: 1, scale: 0 };
    let ctx = quote_ctx(2 * WEI);

    let mut zero = quote_request(Amount { mantissa: 0, scale: 0 });
    zero.transfer_amount = Amount { mantissa: 0, scale: 0 };
    assert_eq!(request_tx(&mut l, &zero, &ctx).unwrap_err(), BridgeError::InvalidAmount);

    let mut same = quote_request(one);
    same.destin_network = Some(0);
    assert_eq!(request_tx(&mut l, &same, &ctx).unwrap_err(), BridgeError::SameNetwork);

    let mut no_origin = quote_request(one);
    no_origin.origin_network = None;
    assert_eq!(request_tx(&mut l, &no_origin, &ctx).unwrap_err(), BridgeError::UnknownNetwork);

    let mut bad_net = quote_request(one);
    bad_net.destin_network = Some(9);
    assert_eq!(request_tx(&mut l, &bad_net, &ctx).unwrap_err(), BridgeError::UnknownNetwork);

    let mut bad_token = quote_request(one);
    bad_token.from_token_address = 9;
    assert_eq!(request_tx(&mut l, &bad_token, &ctx).unwrap_err(), BridgeError::UnknownToken);

    let mut crossed = quote_request(one);
    crossed.from_token_address = 1;
    crossed.to_token_address = 0;
    assert_eq!(
        request_tx(&mut l, &crossed, &ctx).unwrap_err(),
        BridgeError::TokenNetworkMismatch
    );

    let mut bad_sender = quote_request(one);
    bad_sender.sender_address = String::from("0x1234");
    assert_eq!(request_tx(&mut l, &bad_sender, &ctx).unwrap_err(), BridgeError::AddressParse);

    assert_eq!(
        request_tx(&mut l, &quote_request(one), &quote_ctx(WEI)).unwrap_err(),
        BridgeError::InsufficientBalance
    );

    let huge = Amount { mantissa: u128::MAX, scale: 0 };
    assert_eq!(
        request_tx(&mut l, &quote_request(huge), &ctx).unwrap_err(),
        BridgeError::AmountOverflow
    );

    // Nothing was persisted by any rejected quote.
    assert!(l.get_all_tx().is_empty());
}

/// The deposit decoder refuses a receipt without a usable transfer event.
#[test]
fn erc20_deposit_decode_errors() {
    let mut l = native_fixture();
    let one = Amount { mantissa: 1, scale: 0 };
    let resp = request_tx(&mut l, &quote_request(one), &quote_ctx(2 * WEI)).unwrap();
    let t = l.get_transaction(resp.id).unwrap().clone();
    let no_topics = DepositObservation::Erc20Receipt { topics: Vec::new(), data: vec![0u8; 32] };
    assert_eq!(
        check_deposit(&t, &vec![0xAA; 20], &no_topics).unwrap_err(),
        BridgeError::DecodeError
    );
    let bad_data = DepositObservation::Erc20Receipt {
        topics: vec![vec![0xEE; 32], vec![0u8; 32], vec![0u8; 32]],
        data: vec![0u8; 31],
    };
    assert_eq!(
        check_deposit(&t, &vec![0xAA; 20], &bad_data).unwrap_err(),
        BridgeError::DecodeError
    );
}

/// A bad deposit hash is rejected before anything else runs.
#[test]
fn broadcast_rejects_bad_hash() {
    assert_eq!(validate_tx_hash("11".repeat(33).as_str()).unwrap_err(), BridgeError::BadHash);
    assert_eq!(validate_tx_hash("0x1234").unwrap_err(), BridgeError::BadHash);
    assert_eq!(
        validate_tx_hash(format!("0x{}", "zz".repeat(32)).as_str()).unwrap_err(),
        BridgeError::BadHash
    );
}

/// Upstream failures leave a transfer pending; any other failure after the
/// lock finalizes it as failed.
#[test]
fn failure_dispositions() {
    assert_eq!(failure_disposition(&BridgeError::ChainUnavailable), None);
    assert_eq!(failure_disposition(&BridgeError::SignerUnavailable), None);
    assert_eq!(failure_disposition(&BridgeError::ReceiptTimeout), None);
    assert_eq!(failure_disposition(&BridgeError::DecodeError), None);
    assert_eq!(
        failure_disposition(&BridgeError::OnChainMismatch(MismatchField::Value)),
        Some(Status::Fail)
    );
    assert!(BridgeError::ChainUnavailable.is_transient());
    assert!(!BridgeError::LedgerError.is_transient());
}

/// The unknown-transfer paths.
#[test]
fn unknown_transfer_errors() {
    let mut l = native_fixture();
    assert_eq!(
        check_broadcast_state(&l, 0).unwrap_err(),
        BridgeError::UnknownTransfer
    );
    assert_eq!(
        l.set_origin_hash(0, vec![0u8; 32], 1).unwrap_err(),
        BridgeError::UnknownTransfer
    );
    assert_eq!(
        l.finalize(0, None, Status::Fail, 1).unwrap_err(),
        BridgeError::UnknownTransfer
    );
}
