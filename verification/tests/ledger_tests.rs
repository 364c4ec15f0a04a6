//! Tests of the ledger rows, lookups and the authorization decision.

use tokenbridge::amount::Amount;
use tokenbridge::auth::{auth, Claims};
use tokenbridge::error::BridgeError;
use tokenbridge::ledger::{
    asset_class_from_str, AssetClass, Bridge, Ledger, Network, RequestInsertTx, Status,
    TokenAddress,
};

fn fixture() -> Ledger {
    let mut l = Ledger::new();
    let rate = Amount { mantissa: 1, scale: 3 };
    l.add_network(Network {
        network_name: String::from("a"),
        network_rpc: String::from("http://a.example:8545"),
        chain_id: 1,
        decimal_value: 18,
        bridge_address: vec![0xAA; 20],
        bridge_fee_rate: rate,
        min_confirmations: 2,
    });
    l.add_network(Network {
        network_name: String::from("b"),
        network_rpc: String::from("http://b.example:8545"),
        chain_id: 2,
        decimal_value: 18,
        bridge_address: vec![0xBB; 20],
        bridge_fee_rate: rate,
        min_confirmations: 2,
    });
    l.add_token(TokenAddress {
        network_id: 0,
        token_address: None,
        token_symbol: String::from("ETH"),
        asset_type: AssetClass::Native,
        abi_json: None,
    });
    l.add_token(TokenAddress {
        network_id: 1,
        token_address: Some(vec![0xCB; 20]),
        token_symbol: String::from("USDC"),
        asset_type: AssetClass::Erc20,
        abi_json: Some(String::from("[]")),
    });
    l
}

fn quoted(l: &mut Ledger) -> usize {
    l.quote_transfer(
        RequestInsertTx {
            sender_address: vec![0x55; 20],
            receiver_address: vec![0x99; 20],
            from_token_address: 0,
            to_token_address: 1,
            origin_network: 0,
            destin_network: 1,
            transfer_amount: 1_000,
            bridge_fee: 1,
            created_by: 7,
        },
        100,
    )
}

/// A quoted transfer starts pending with both hashes null and its fields
/// as requested.
#[test]
fn quote_inserts_pending_row() {
    let mut l = fixture();
    let id = quoted(&mut l);
    let t = l.get_transaction(id).unwrap();
    assert_eq!(t.transfer_amount, 1_000);
    assert_eq!(t.bridge_fee, 1);
    assert!(t.origin_tx_hash.is_none());
    assert!(t.destin_tx_hash.is_none());
    let srow = l.get_tx_status(id).unwrap();
    assert_eq!(l.get_transaction_status(srow).unwrap().status_name, Status::Pending);
    assert_eq!(l.get_all_tx().len(), 1);
    assert_eq!(l.get_all_tx_status().len(), 1);
}

/// The origin hash is written once and the write latches the lock; the
/// hash never changes afterwards.
#[test]
fn origin_hash_write_once() {
    let mut l = fixture();
    let id = quoted(&mut l);
    let h = vec![0x11u8; 32];
    l.set_origin_hash(id, h.clone(), 101).unwrap();
    assert_eq!(l.get_transaction(id).unwrap().origin_tx_hash.as_deref(), Some(&h[..]));
    assert_eq!(
        l.set_origin_hash(id, vec![0x22u8; 32], 102).unwrap_err(),
        BridgeError::IllegalTransition
    );
    assert_eq!(l.get_transaction(id).unwrap().origin_tx_hash.as_deref(), Some(&h[..]));
}

/// Finalizing records the destination hash only while it is null, and a
/// terminal transfer refuses further transitions.
#[test]
fn finalize_is_terminal() {
    let mut l = fixture();
    let id = quoted(&mut l);
    let h = vec![0x44u8; 32];
    l.finalize(id, Some(h.clone()), Status::Fail, 103).unwrap();
    let t = l.get_transaction(id).unwrap();
    assert_eq!(t.destin_tx_hash.as_deref(), Some(&h[..]));
    let srow = l.get_tx_status(id).unwrap();
    assert_eq!(l.get_transaction_status(srow).unwrap().status_name, Status::Fail);
    assert_eq!(
        l.finalize(id, Some(vec![0x55u8; 32]), Status::Success, 104).unwrap_err(),
        BridgeError::AlreadyFinalized
    );
    // A terminal transfer also refuses the origin-hash lock.
    assert_eq!(
        l.set_origin_hash(id, vec![0x66u8; 32], 105).unwrap_err(),
        BridgeError::IllegalTransition
    );
}

/// Finalizing one transfer leaves every other transfer untouched.
#[test]
fn finalize_touches_one_transfer() {
    let mut l = fixture();
    let first = quoted(&mut l);
    let second = quoted(&mut l);
    l.finalize(first, None, Status::Success, 106).unwrap();
    let srow = l.get_tx_status(second).unwrap();
    assert_eq!(l.get_transaction_status(srow).unwrap().status_name, Status::Pending);
}

/// Lookups answer exactly for existing rows.
#[test]
fn lookups() {
    let mut l = fixture();
    l.add_bridge(Bridge {
        destination_network_id: 1,
        bridge_address: vec![0xBB; 20],
        bridge_fee_rate: Amount { mantissa: 1, scale: 3 },
    });
    assert_eq!(l.get_all_networks().len(), 2);
    assert_eq!(l.get_all_token_address().len(), 2);
    assert_eq!(l.get_all_bridge_info().len(), 1);
    assert_eq!(l.get_network_by_id(1).unwrap().chain_id, 2);
    assert_eq!(l.get_bridge_info(0).unwrap().destination_network_id, 1);
    assert_eq!(l.get_token_abi_by_id(1).unwrap(), "[]");
    assert_eq!(l.get_token_abi_by_id(0).unwrap_err(), BridgeError::UnknownToken);
    assert_eq!(l.get_network_by_id(5).unwrap_err(), BridgeError::UnknownNetwork);
    assert_eq!(l.get_token_address_by_id(5).unwrap_err(), BridgeError::UnknownToken);
    assert_eq!(l.get_transaction(0).unwrap_err(), BridgeError::UnknownTransfer);
    assert_eq!(l.get_transaction_status(0).unwrap_err(), BridgeError::LedgerError);
}

/// The persisted asset-class codes map to the enumeration; anything else
/// is an unsupported asset.
#[test]
fn asset_class_codes() {
    assert_eq!(asset_class_from_str("0").unwrap(), AssetClass::Native);
    assert_eq!(asset_class_from_str("1").unwrap(), AssetClass::Erc20);
    assert_eq!(asset_class_from_str("2").unwrap_err(), BridgeError::UnsupportedAsset);
    assert_eq!(asset_class_from_str("").unwrap_err(), BridgeError::UnsupportedAsset);
}

/// Only the configured operator with the admin role may sign.
#[test]
fn authorization_decision() {
    let expected = String::from("operator-key");
    let good = Claims {
        sub: String::from("operator-key"),
        role: String::from("admin"),
        iat: 0,
        exp: 10,
    };
    assert!(auth(&good, &expected).is_ok());
    let wrong_role = Claims { role: String::from("viewer"), ..good.clone() };
    assert!(auth(&wrong_role, &expected).is_err());
    let wrong_sub = Claims { sub: String::from("someone-else"), ..good };
    let denied = auth(&wrong_sub, &expected).unwrap_err();
    assert_eq!(denied.status, "fail");
}
