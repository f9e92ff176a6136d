use centiiv::address::Address;
use centiiv::auth::Auth;
use centiiv::escrow::{ContractError, EscrowContract, EscrowStatus};
use centiiv::wallet::WalletContract;

fn address(tag: u8) -> Address {
    Address::new(vec![tag; 32])
}

fn generate_addresses(tag: u8) -> Address {
    address(tag)
}

fn all_auths() -> Auth {
    let mut auth = Auth::none();
    let mut tag = 1u8;
    while tag <= 12 {
        auth.approve(address(tag));
        tag += 1;
    }
    auth
}

fn setup() -> (EscrowContract, WalletContract, Address, Address, (Address, Address)) {
    let admin = generate_addresses(1);
    let buyer = generate_addresses(2);
    let central_account = generate_addresses(3);
    let token_address = generate_addresses(4);
    let wallet_id = generate_addresses(5);
    let escrow_id = generate_addresses(6);

    let mut wallet = WalletContract::new();
    wallet.init(&all_auths(), admin.clone(), token_address.clone(), central_account);

    let escrow = EscrowContract::new(
        &all_auths(),
        escrow_id,
        &admin,
        token_address.clone(),
        wallet_id.clone(),
    );
    (escrow, wallet, token_address, wallet_id, (buyer, admin))
}

#[test]
fn test_initialize() {
    let (escrow, _wallet, token_address, wallet_id, _) = setup();
    assert_eq!(escrow.get_usdc_address().key, token_address.key);
    assert_eq!(escrow.get_wallet_address().key, wallet_id.key);
}

#[test]
fn test_lock_and_release() {
    let (mut escrow, mut wallet, _token_address, _wallet_id, (buyer, _admin)) = setup();
    let lp_node = address(7);
    let req_id = vec![1u8, 2, 3, 4];
    let now = 1_000u64;

    wallet.deposit(&all_auths(), &buyer, 10000, 10000).unwrap();

    let locked = escrow
        .lock_funds(&all_auths(), req_id.clone(), buyer.clone(), lp_node.clone(), 1000, 60, now)
        .unwrap();
    wallet.transfer(&all_auths(), &locked.from, &locked.to, locked.amount).unwrap();

    let escrow_data = escrow.get_escrow_status(&req_id).unwrap();
    assert_eq!(escrow_data.amount, 1000);
    assert_eq!(escrow_data.status, EscrowStatus::Locked);
    assert_eq!(escrow_data.timeout, 1_060);

    let released = escrow.release_funds(&all_auths(), req_id.clone(), lp_node.clone()).unwrap();
    wallet.transfer(&all_auths(), &released.from, &released.to, released.amount).unwrap();

    let lp_balance = wallet.get_balance(&lp_node);
    let escrow_after = escrow.get_escrow_status(&req_id).unwrap();
    assert_eq!(escrow_after.status, EscrowStatus::Released);
    assert_eq!(lp_balance, 1000);
    assert_eq!(wallet.get_balance(&buyer), 9000);
    assert_eq!(wallet.get_balance(&escrow.get_address()), 0);
}

#[test]
fn test_unauthorized_release_attempt() {
    let (mut escrow, mut wallet, _token_address, _wallet_id, (buyer, _admin)) = setup();
    let lp_node = address(7);
    let attacker = address(8);
    let req_id = vec![9u8, 9, 9, 9];

    wallet.deposit(&all_auths(), &buyer, 5000, 10000).unwrap();
    escrow
        .lock_funds(&all_auths(), req_id.clone(), buyer.clone(), lp_node.clone(), 1000, 60, 0)
        .unwrap();

    let result = escrow.release_funds(&all_auths(), req_id.clone(), attacker);
    assert!(result.is_err());
    assert_eq!(result.err(), Some(ContractError::InvalidEscrowState));
    assert_eq!(escrow.get_escrow_status(&req_id).unwrap().status, EscrowStatus::Locked);
}

#[test]
fn test_double_lock_same_request() {
    let (mut escrow, mut wallet, _token_address, _wallet_id, (buyer, _admin)) = setup();
    let lp_node = address(7);
    let req_id = vec![5u8, 5, 5, 5];

    wallet.deposit(&all_auths(), &buyer, 5000, 10000).unwrap();
    escrow
        .lock_funds(&all_auths(), req_id.clone(), buyer.clone(), lp_node.clone(), 1000, 60, 0)
        .unwrap();

    let result =
        escrow.lock_funds(&all_auths(), req_id.clone(), buyer.clone(), lp_node.clone(), 500, 60, 0);
    assert!(result.is_err());
    assert_eq!(result.err(), Some(ContractError::RequestIDAlreadyUsed));
    assert_eq!(escrow.get_escrow_status(&req_id).unwrap().amount, 1000);
}

#[test]
fn test_release_without_lock() {
    let (mut escrow, _wallet, _token_address, _wallet_id, (_buyer, _admin)) = setup();
    let lp_node = address(7);
    let fake_req_id = vec![8u8, 8, 8, 8];

    let tofail = escrow.release_funds(&all_auths(), fake_req_id.clone(), lp_node);
    assert!(tofail.is_err());
    assert!(escrow.get_escrow_status(&fake_req_id).is_none());
}

#[test]
fn escrow_is_refunded_to_its_user_after_the_timeout_only() {
    let (mut escrow, _wallet, _token_address, _wallet_id, (buyer, _admin)) = setup();
    let lp_node = address(7);
    let req_id = vec![1u8];
    escrow
        .lock_funds(&all_auths(), req_id.clone(), buyer.clone(), lp_node.clone(), 1000, 60, 100)
        .unwrap();

    assert_eq!(
        escrow.refund_funds(&all_auths(), req_id.clone(), buyer.clone(), 159).err(),
        Some(ContractError::TimeoutNotReached)
    );
    assert_eq!(
        escrow.refund_funds(&all_auths(), req_id.clone(), lp_node.clone(), 160).err(),
        Some(ContractError::InvalidEscrowState)
    );
    assert_eq!(
        escrow.refund_funds(&Auth::only(lp_node.clone()), req_id.clone(), buyer.clone(), 160).err(),
        Some(ContractError::Unauthorized)
    );
    assert_eq!(
        escrow.refund_funds(&all_auths(), vec![2u8], buyer.clone(), 160).err(),
        Some(ContractError::InvalidEscrowState)
    );
    let refund = escrow.refund_funds(&all_auths(), req_id.clone(), buyer.clone(), 160).unwrap();
    assert_eq!(refund.from.key, escrow.get_address().key);
    assert_eq!(refund.to.key, buyer.key);
    assert_eq!(refund.amount, 1000);
    assert_eq!(escrow.get_escrow_status(&req_id).unwrap().status, EscrowStatus::Refunded);

    assert_eq!(
        escrow.refund_funds(&all_auths(), req_id.clone(), buyer.clone(), 200).err(),
        Some(ContractError::InvalidEscrowState)
    );
    assert_eq!(
        escrow.release_funds(&all_auths(), req_id.clone(), lp_node.clone()).err(),
        Some(ContractError::InvalidEscrowState)
    );
}

#[test]
fn lock_needs_the_user_and_the_node() {
    let (mut escrow, _wallet, _token_address, _wallet_id, (buyer, _admin)) = setup();
    let lp_node = address(7);
    assert_eq!(
        escrow
            .lock_funds(&Auth::only(lp_node.clone()), vec![1], buyer.clone(), lp_node.clone(), 10, 1, 0)
            .err(),
        Some(ContractError::Unauthorized)
    );
    assert_eq!(
        escrow
            .lock_funds(&Auth::only(buyer.clone()), vec![1], buyer.clone(), lp_node.clone(), 10, 1, 0)
            .err(),
        Some(ContractError::Unauthorized)
    );
    assert!(escrow.get_escrow_status(&vec![1]).is_none());
    assert_eq!(
        escrow.release_funds(&Auth::none(), vec![1], lp_node.clone()).err(),
        Some(ContractError::Unauthorized)
    );
}
