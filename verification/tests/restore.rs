use centiiv::address::Address;
use centiiv::auth::Auth;
use centiiv::escrow::{EscrowContract, EscrowData, EscrowStatus};
use centiiv::liquidity_manager::{LPSettingManagerContract, Roles, Settings};
use centiiv::liquidity_provider::error::ContractError;
use centiiv::liquidity_provider::liquidity_provider::LPContract;
use centiiv::liquidity_provider::storage_types::{LpNode, Order, PendingRefund, PendingSettlement};
use centiiv::payment::{Payment, PaymentModule, PaymentStatus};
use centiiv::wallet::WalletContract;

fn address(tag: u8) -> Address {
    Address::new(vec![tag; 32])
}

fn settings() -> Settings {
    Settings {
        paused: false,
        protocol_fee_percent: 1000,
        max_bps: 100_000,
        treasury: address(2),
        relayer: address(3),
    }
}

fn order(order_id: Vec<u8>, amount: i128, current_bps: i128) -> Order {
    Order {
        order_id,
        sender: address(4),
        token: address(8),
        temporary_wallet_address: address(7),
        protocol_fee: 5,
        is_fulfilled: false,
        is_refunded: false,
        refund_address: address(6),
        current_bps,
        amount,
        rate: 1,
        message_hash: vec![1],
    }
}

#[test]
fn order_validity_is_told_apart() {
    assert!(order(vec![1], 10, 100_000).is_valid());
    assert!(order(vec![1], 0, 1).is_valid());
    assert!(!order(vec![1], -1, 100_000).is_valid());
    assert!(!order(vec![1], 10, 100_001).is_valid());
    assert!(!order(vec![1], 10, -1).is_valid());
    assert!(!order(vec![1], 10, 0).is_valid());
    let mut fulfilled = order(vec![1], 0, 0);
    fulfilled.is_fulfilled = true;
    assert!(fulfilled.is_valid());
    fulfilled.is_refunded = true;
    assert!(!fulfilled.is_valid());
    let mut early = order(vec![1], 10, 5);
    early.is_refunded = true;
    assert!(!early.is_valid());
    assert_eq!(order(vec![1, 2], 3, 4).clone(), order(vec![1, 2], 3, 4));
}

#[test]
fn protocol_goes_on_from_what_was_put_back() {
    let mut lp = LPContract::new();
    lp.init(&Auth::only(address(1)), address(1), address(8), address(9));
    lp.restore_order(order(vec![5], 400, 40_000));
    lp.restore_nonce(&address(4), 17);
    lp.restore_lp_node(vec![6], LpNode { capacity: 12 });
    assert_eq!(lp.get_nonce(&address(4)), 17);
    assert_eq!(lp.get_lp_node(&vec![6]), Some(LpNode { capacity: 12 }));
    assert_eq!(lp.get_order_info(&vec![5]).unwrap(), order(vec![5], 400, 40_000));
    assert_eq!(
        lp.register_lp_node(vec![6], 1).err(),
        Some(ContractError::LpNodeIdAlreadyExists)
    );

    lp.settle(&settings(), &Auth::only(address(3)), vec![5], address(5), 10_000).unwrap();
    let stored = lp.get_order_info(&vec![5]).unwrap();
    assert_eq!(stored.amount, 300);
    assert_eq!(stored.current_bps, 30_000);
    assert_eq!(
        lp.get_pending_settlement(&vec![5]),
        Some(PendingSettlement {
            order_id: vec![5],
            protocol_fee: 1,
            transfer_amount: 99,
            liquidity_provider: address(5),
            settle_percent: 10_000,
        })
    );

    let mut other = LPContract::new();
    other.restore_order(stored);
    other.restore_pending_settlement(lp.get_pending_settlement(&vec![5]).unwrap());
    let paid = other
        .execute_settlement_transfer(&Auth::only(address(7)), vec![5], &address(2))
        .unwrap();
    assert_eq!(paid.transfers.len(), 2);
    assert_eq!(paid.transfers[0].amount, 1);
    assert_eq!(paid.transfers[1].amount, 99);
    assert!(other.get_pending_settlement(&vec![5]).is_none());

    other.restore_pending_refund(PendingRefund { order_id: vec![5], fee: 0, refund_amount: 300 });
    assert_eq!(
        other.get_pending_refund(&vec![5]),
        Some(PendingRefund { order_id: vec![5], fee: 0, refund_amount: 300 })
    );
    let refunded = other
        .execute_refund_transfer(&Auth::only(address(7)), vec![5], &address(2))
        .unwrap();
    assert_eq!(refunded.transfers.len(), 1);
    assert_eq!(refunded.transfers[0].to, address(6));
    assert_eq!(refunded.transfers[0].amount, 300);
}

#[test]
fn authorizers_are_named_by_the_protocol() {
    assert_eq!(LPContract::commitment_authorizer(&settings()), Some(address(3)));
    let mut paused = settings();
    paused.paused = true;
    assert_eq!(LPContract::commitment_authorizer(&paused), None);

    let mut lp = LPContract::new();
    assert_eq!(lp.transfer_authorizer(&vec![5]), None);
    lp.restore_order(order(vec![5], 400, 40_000));
    assert_eq!(lp.transfer_authorizer(&vec![5]), Some(address(7)));
    assert_eq!(lp.transfer_authorizer(&vec![5, 0]), None);
}

#[test]
fn settings_go_on_from_what_was_put_back() {
    let fresh = LPSettingManagerContract::restore(None, 0, false);
    assert_eq!(fresh.get_fee_details(), (0, 100_000));
    assert!(!fresh.is_paused());

    let roles = Roles { admin: address(1), treasury: address(2), relayer: address(3) };
    let mut settings = LPSettingManagerContract::restore(Some(roles), 250, true);
    assert_eq!(settings.get_fee_details(), (250, 100_000));
    assert!(settings.is_paused());
    assert_eq!(settings.get_admin_address(), address(1));
    assert_eq!(settings.get_treasury_address(), address(2));
    assert_eq!(settings.get_relayer_address(), address(3));
    assert_eq!(settings.unpause(&Auth::only(address(1))), Ok(()));
    assert!(!settings.is_paused());
    assert_eq!(settings.get_fee_details(), (250, 100_000));
}

#[test]
fn wallet_escrow_and_payments_go_on_from_what_was_put_back() {
    let mut wallet = WalletContract::new();
    wallet.init(&Auth::only(address(1)), address(1), address(8), address(3));
    wallet.restore_balance(&address(4), 70);
    assert_eq!(wallet.get_balance(&address(4)), 70);
    assert_eq!(wallet.get_balance(&address(5)), 0);
    wallet.transfer(&Auth::only(address(4)), &address(4), &address(5), 30).unwrap();
    assert_eq!(wallet.get_balance(&address(4)), 40);
    assert_eq!(wallet.get_balance(&address(5)), 30);

    let mut desk = EscrowContract::new(&Auth::only(address(1)), address(9), &address(1), address(8), address(10));
    let locked = EscrowData {
        user_id: address(4),
        lp_node_id: address(5),
        amount: 25,
        status: EscrowStatus::Locked,
        timeout: 1000,
    };
    desk.restore_escrow(vec![1], locked.clone());
    assert_eq!(desk.get_escrow_status(&vec![1]), Some(locked));
    let released = desk.release_funds(&Auth::only(address(5)), vec![1], address(5)).unwrap();
    assert_eq!(released.from, address(9));
    assert_eq!(released.to, address(5));
    assert_eq!(released.amount, 25);

    let mut module = PaymentModule::new(&Auth::only(address(1)), &address(1), address(8));
    let payment = Payment {
        payment_id: vec![2],
        invoice_id: vec![3],
        sender: address(4),
        receiver: address(5),
        amount: 9,
        status: PaymentStatus::Pending,
        stellar_tx_id: vec![0; 32],
    };
    module.restore_payment(payment.clone());
    assert_eq!(module.get_payment_status(&vec![2]), Some(payment));
    assert!(module.get_payment_status(&vec![3]).is_none());
}
