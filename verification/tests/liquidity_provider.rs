use std::collections::HashMap;

use centiiv::address::Address;
use centiiv::auth::Auth;
use centiiv::liquidity_manager::LPSettingManagerContract;
use centiiv::liquidity_provider::error::ContractError;
use centiiv::liquidity_provider::liquidity_provider::LPContract;
use centiiv::liquidity_provider::storage_types::{Effects, Event, OrderParams};
use centiiv::transfer::Transfer;

/// A token ledger that carries out the transfers the protocol asks for.
struct Token {
    balances: HashMap<Vec<u8>, i128>,
}

impl Token {
    fn new() -> Token {
        Token { balances: HashMap::new() }
    }

    fn mint(&mut self, to: &Address, amount: i128) {
        *self.balances.entry(to.key.clone()).or_insert(0) += amount;
    }

    fn balance(&self, who: &Address) -> i128 {
        *self.balances.get(&who.key).unwrap_or(&0)
    }

    fn transfer(&mut self, transfer: &Transfer) {
        assert!(transfer.amount >= 0, "negative transfer");
        assert!(self.balance(&transfer.from) >= transfer.amount, "balance too low");
        *self.balances.entry(transfer.from.key.clone()).or_insert(0) -= transfer.amount;
        *self.balances.entry(transfer.to.key.clone()).or_insert(0) += transfer.amount;
    }

    fn apply(&mut self, effects: &Effects) {
        for transfer in effects.transfers.iter() {
            self.transfer(transfer);
        }
    }
}

struct TestAddresses {
    admin: Address,
    treasury: Address,
    aggregator: Address,
    sender: Address,
    lp_node: Address,
    refund_address: Address,
    temporary_wallet: Address,
}

struct SetupResult {
    lp: LPContract,
    settings: LPSettingManagerContract,
    usdc_asset: Address,
    token: Token,
    addresses: TestAddresses,
}

fn address(tag: u8) -> Address {
    Address::new(vec![tag; 32])
}

fn all_auths(addresses: &TestAddresses) -> Auth {
    let mut auth = Auth::none();
    auth.approve(addresses.admin.clone());
    auth.approve(addresses.treasury.clone());
    auth.approve(addresses.aggregator.clone());
    auth.approve(addresses.sender.clone());
    auth.approve(addresses.lp_node.clone());
    auth.approve(addresses.refund_address.clone());
    auth.approve(addresses.temporary_wallet.clone());
    auth
}

fn setup() -> SetupResult {
    let addresses = TestAddresses {
        admin: address(100),
        treasury: address(101),
        aggregator: address(102),
        sender: address(103),
        lp_node: address(104),
        refund_address: address(105),
        temporary_wallet: address(106),
    };
    let usdc_asset = address(110);
    let settings_contract_id = address(111);
    let auth = all_auths(&addresses);

    let mut settings = LPSettingManagerContract::new();
    settings.initialize(
        &auth,
        addresses.admin.clone(),
        addresses.treasury.clone(),
        addresses.aggregator.clone(),
    );

    let mut lp = LPContract::new();
    lp.init(&auth, addresses.admin.clone(), usdc_asset.clone(), settings_contract_id);

    SetupResult { lp, settings, usdc_asset, token: Token::new(), addresses }
}

fn order_params(setup: &SetupResult, order_id: &Vec<u8>, amount: i128, refund: &Address) -> OrderParams {
    OrderParams {
        order_id: order_id.clone(),
        token: setup.usdc_asset.clone(),
        sender: setup.addresses.sender.clone(),
        temporary_wallet_address: setup.addresses.temporary_wallet.clone(),
        amount,
        rate: 9500_i64,
        refund_address: refund.clone(),
        message_hash: b"hash123".to_vec(),
    }
}

#[test]
fn test_register_lp_node() {
    let mut setup_result = setup();
    let lp_id = vec![1u8; 32];
    let result = setup_result.lp.register_lp_node(lp_id, 1000);
    assert!(result.is_ok());
}

#[test]
fn test_create_order() {
    let mut setup_result = setup();
    let order_id = vec![2u8; 32];
    let amount = 100_0000000_i128;
    let sender_fee = 10_0000000_i128;

    let lp_id = vec![1u8; 32];
    let result = setup_result.lp.register_lp_node(lp_id, 1000);
    assert!(result.is_ok());

    let params = order_params(
        &setup_result,
        &order_id,
        amount,
        &setup_result.addresses.refund_address,
    );
    let params_order_id = params.order_id.clone();

    setup_result.token.mint(&setup_result.addresses.sender, amount + sender_fee);

    let auth = all_auths(&setup_result.addresses);
    let result = setup_result.lp.create_order(&setup_result.settings.settings(), &auth, params);
    assert!(result.is_ok());

    let order = setup_result.lp.get_order_info(&order_id).unwrap();
    assert_eq!(order.sender.key, setup_result.addresses.sender.key);
    assert_eq!(order.amount, amount);
    assert_eq!(params_order_id, order_id);
    assert_eq!(order.protocol_fee, amount / 100);
}

#[test]
fn test_settle_full_order() {
    let mut setup_result = setup();
    let lp_id = vec![1u8; 32];
    let result = setup_result.lp.register_lp_node(lp_id, 1000);
    assert!(result.is_ok());

    let amount = 100_i128;
    setup_result.token.mint(&setup_result.addresses.sender, amount);

    let order_id = vec![2u8; 32];
    let settle_percent = 100_000_i128;
    let params = order_params(&setup_result, &order_id, amount, &address(120));

    let auth = all_auths(&setup_result.addresses);
    let created = setup_result
        .lp
        .create_order(&setup_result.settings.settings(), &auth, params)
        .unwrap();
    setup_result.token.apply(&created);

    let created_order = setup_result.lp.get_order_info(&order_id).unwrap();
    assert!(!created_order.is_fulfilled);
    assert!(!created_order.is_refunded);
    assert_eq!(created_order.amount, amount);

    let temp_wallet_balance_after_create =
        setup_result.token.balance(&setup_result.addresses.temporary_wallet);
    assert_eq!(
        temp_wallet_balance_after_create, amount,
        "Temporary wallet should have all tokens after order creation"
    );

    let result = setup_result.lp.settle(
        &setup_result.settings.settings(),
        &auth,
        order_id.clone(),
        setup_result.addresses.lp_node.clone(),
        settle_percent,
    );
    assert!(result.is_ok(), "Settle failed: {:?}", result.err());

    let settled_order = setup_result.lp.get_order_info(&order_id).unwrap();
    assert!(settled_order.is_fulfilled, "Order should be fulfilled");
    assert_eq!(settled_order.current_bps, 0, "Current BPS should be 0");
    assert_eq!(settled_order.amount, 0, "Remaining amount should be 0");

    let transfer_result = setup_result.lp.execute_settlement_transfer(&auth, order_id.clone(), &setup_result.addresses.treasury);
    assert!(
        transfer_result.is_ok(),
        "Transfer execution failed: {:?}",
        transfer_result.err()
    );
    setup_result.token.apply(&transfer_result.unwrap());

    let lp_balance = setup_result.token.balance(&setup_result.addresses.lp_node);
    let temp_wallet_balance_after_settle =
        setup_result.token.balance(&setup_result.addresses.temporary_wallet);

    assert_eq!(lp_balance, 99, "LP should receive 99 tokens");
    assert_eq!(
        temp_wallet_balance_after_settle, 0,
        "Temporary wallet should be empty after settlement"
    );
}

#[test]
fn test_refund_order() {
    let mut setup_result = setup();
    let lp_id = vec![1u8; 32];
    let result = setup_result.lp.register_lp_node(lp_id, 1000);
    assert!(result.is_ok());

    let amount = 100_i128;
    setup_result.token.mint(&setup_result.addresses.sender, amount);

    let order_id = vec![4u8; 32];
    let params = order_params(
        &setup_result,
        &order_id,
        amount,
        &setup_result.addresses.refund_address,
    );

    let auth = all_auths(&setup_result.addresses);
    let created = setup_result
        .lp
        .create_order(&setup_result.settings.settings(), &auth, params)
        .unwrap();
    setup_result.token.apply(&created);

    let created_order = setup_result.lp.get_order_info(&order_id).unwrap();
    assert!(!created_order.is_fulfilled);
    assert!(!created_order.is_refunded);
    assert_eq!(created_order.amount, amount);

    let temp_wallet_balance_after_create =
        setup_result.token.balance(&setup_result.addresses.temporary_wallet);
    assert_eq!(
        temp_wallet_balance_after_create, amount,
        "Temporary wallet should have all tokens after order creation"
    );

    let refund_fee = 1_i128;
    let result =
        setup_result.lp.refund(&setup_result.settings.settings(), &auth, order_id.clone(), refund_fee);
    assert!(result.is_ok(), "Refund initiation failed: {:?}", result.err());

    let refunded_order = setup_result.lp.get_order_info(&order_id).unwrap();
    assert!(refunded_order.is_refunded, "Order should be marked as refunded");

    let transfer_result = setup_result.lp.execute_refund_transfer(&auth, order_id.clone(), &setup_result.addresses.treasury);
    assert!(
        transfer_result.is_ok(),
        "Refund transfer failed: {:?}",
        transfer_result.err()
    );
    setup_result.token.apply(&transfer_result.unwrap());

    let refund_address_balance = setup_result.token.balance(&setup_result.addresses.refund_address);
    let temp_wallet_balance_after_refund =
        setup_result.token.balance(&setup_result.addresses.temporary_wallet);

    assert_eq!(
        refund_address_balance, 99,
        "Refund address should have 99 tokens (100 amount - 1 protocol fee)"
    );
    assert_eq!(
        temp_wallet_balance_after_refund, 0,
        "Temporary wallet should be empty after refund"
    );

    let final_order = setup_result.lp.get_order_info(&order_id).unwrap();
    assert_eq!(final_order.current_bps, 0, "Current BPS should be 0");
}

#[test]
fn test_pause_and_unpause_contract() {
    let mut setup_result = setup();
    let auth = all_auths(&setup_result.addresses);

    let is_paused_initial = setup_result.settings.is_paused();
    assert!(!is_paused_initial, "Contract should start unpaused");

    let pause_result = setup_result.settings.pause(&auth);
    assert!(pause_result.is_ok(), "Pause should succeed");

    let is_paused_after = setup_result.settings.is_paused();
    assert!(is_paused_after, "Contract should be paused after pause()");

    let unpause_result = setup_result.settings.unpause(&auth);
    assert!(unpause_result.is_ok(), "Unpause should succeed");

    let is_paused_final = setup_result.settings.is_paused();
    assert!(!is_paused_final, "Contract should be unpaused after unpause()");
}

#[test]
fn test_create_order_fails_when_paused() {
    let mut setup_result = setup();
    let auth = all_auths(&setup_result.addresses);

    setup_result.settings.pause(&auth).unwrap();

    let order_id = vec![5u8; 32];
    let amount = 100_i128;
    let params = order_params(
        &setup_result,
        &order_id,
        amount,
        &setup_result.addresses.refund_address,
    );

    setup_result.token.mint(&setup_result.addresses.sender, amount);

    let result = setup_result.lp.create_order(&setup_result.settings.settings(), &auth, params);

    assert!(result.is_err(), "Create order should fail when contract is paused");
    assert_eq!(result.err().unwrap(), ContractError::Paused);
    assert!(setup_result.lp.get_order_info(&order_id).is_err());
}

#[test]
fn test_settle_fails_when_paused() {
    let mut setup_result = setup();
    let auth = all_auths(&setup_result.addresses);

    let order_id = vec![6u8; 32];
    let amount = 100_i128;
    setup_result.token.mint(&setup_result.addresses.sender, amount);

    let params = order_params(&setup_result, &order_id, amount, &address(120));
    let created = setup_result
        .lp
        .create_order(&setup_result.settings.settings(), &auth, params)
        .unwrap();
    setup_result.token.apply(&created);

    setup_result.settings.pause(&auth).unwrap();

    let result = setup_result.lp.settle(
        &setup_result.settings.settings(),
        &auth,
        order_id.clone(),
        setup_result.addresses.lp_node.clone(),
        100_000_i128,
    );

    assert!(result.is_err(), "Settle should fail when contract is paused");
    assert_eq!(result.err().unwrap(), ContractError::Paused);
}

#[test]
fn test_refund_fails_when_paused() {
    let mut setup_result = setup();
    let auth = all_auths(&setup_result.addresses);

    let order_id = vec![7u8; 32];
    let amount = 100_i128;
    setup_result.token.mint(&setup_result.addresses.sender, amount);

    let params = order_params(
        &setup_result,
        &order_id,
        amount,
        &setup_result.addresses.refund_address,
    );
    let created = setup_result
        .lp
        .create_order(&setup_result.settings.settings(), &auth, params)
        .unwrap();
    setup_result.token.apply(&created);

    setup_result.settings.pause(&auth).unwrap();

    let result =
        setup_result.lp.refund(&setup_result.settings.settings(), &auth, order_id.clone(), 1_i128);

    assert!(result.is_err(), "Refund should fail when contract is paused");
    assert_eq!(result.err().unwrap(), ContractError::Paused);
}

#[test]
fn test_execute_transfers_work_when_paused() {
    let mut setup_result = setup();
    let auth = all_auths(&setup_result.addresses);

    let order_id = vec![8u8; 32];
    let amount = 100_i128;
    setup_result.token.mint(&setup_result.addresses.sender, amount);

    let params = order_params(&setup_result, &order_id, amount, &address(120));
    let created = setup_result
        .lp
        .create_order(&setup_result.settings.settings(), &auth, params)
        .unwrap();
    setup_result.token.apply(&created);

    setup_result
        .lp
        .settle(
            &setup_result.settings.settings(),
            &auth,
            order_id.clone(),
            setup_result.addresses.lp_node.clone(),
            100_000_i128,
        )
        .unwrap();

    setup_result.settings.pause(&auth).unwrap();

    let transfer_result = setup_result.lp.execute_settlement_transfer(&auth, order_id.clone(), &setup_result.addresses.treasury);

    assert!(
        transfer_result.is_ok(),
        "Execute settlement transfer should work even when contract is paused"
    );
    setup_result.token.apply(&transfer_result.unwrap());

    let lp_balance = setup_result.token.balance(&setup_result.addresses.lp_node);
    assert_eq!(lp_balance, 99, "LP should receive tokens even when paused");
}

#[test]
fn test_only_admin_can_pause() {
    let mut setup_result = setup();

    let _non_admin = address(121);
    let auth = all_auths(&setup_result.addresses);

    let result = setup_result.settings.pause(&auth);
    assert!(result.is_ok());

    let admin_pause_result = setup_result.settings.pause(&auth);
    assert!(admin_pause_result.is_ok(), "Admin should be able to pause");
}

#[test]
fn test_operations_resume_after_unpause() {
    let mut setup_result = setup();
    let auth = all_auths(&setup_result.addresses);

    setup_result.settings.pause(&auth).unwrap();
    setup_result.settings.unpause(&auth).unwrap();

    let order_id = vec![9u8; 32];
    let amount = 100_i128;
    setup_result.token.mint(&setup_result.addresses.sender, amount);

    let params = order_params(
        &setup_result,
        &order_id,
        amount,
        &setup_result.addresses.refund_address,
    );
    let result = setup_result.lp.create_order(&setup_result.settings.settings(), &auth, params);

    assert!(result.is_ok(), "Should be able to create order after unpause");
}

#[test]
fn pause_by_another_party_is_unauthorized() {
    let mut setup_result = setup();
    let auth = Auth::only(address(121));
    let result = setup_result.settings.pause(&auth);
    assert_eq!(
        result,
        Err(centiiv::liquidity_manager::ContractError::Unauthorized)
    );
    assert!(!setup_result.settings.is_paused());
}

#[test]
fn order_created_event_carries_the_order() {
    let mut setup_result = setup();
    let auth = all_auths(&setup_result.addresses);
    let order_id = vec![3u8; 32];
    let params = order_params(
        &setup_result,
        &order_id,
        250_i128,
        &setup_result.addresses.refund_address,
    );
    let effects = setup_result
        .lp
        .create_order(&setup_result.settings.settings(), &auth, params)
        .unwrap();
    assert_eq!(effects.transfers.len(), 1);
    assert_eq!(effects.transfers[0].from.key, setup_result.addresses.sender.key);
    assert_eq!(effects.transfers[0].to.key, setup_result.addresses.temporary_wallet.key);
    assert_eq!(effects.transfers[0].amount, 250);
    match effects.event {
        Event::OrderCreated { order_id: id, amount, protocol_fee, rate, message_hash, .. } => {
            assert_eq!(id, order_id);
            assert_eq!(amount, 250);
            assert_eq!(protocol_fee, 2);
            assert_eq!(rate, 9500);
            assert_eq!(message_hash, b"hash123".to_vec());
        }
        other => panic!("unexpected event {:?}", other),
    }
    let order = setup_result.lp.get_order_info(&order_id).unwrap();
    assert_eq!(order.token.key, setup_result.usdc_asset.key);
    assert_eq!(order.current_bps, 100_000);
    assert_eq!(setup_result.lp.get_nonce(&setup_result.addresses.sender), 1);
}
