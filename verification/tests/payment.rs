use std::collections::HashMap;

use centiiv::address::Address;
use centiiv::auth::Auth;
use centiiv::payment::{PaymentContractError, PaymentModule, PaymentStatus};
use centiiv::transfer::Transfer;

struct Token {
    balances: HashMap<Vec<u8>, i128>,
}

impl Token {
    fn mint(&mut self, to: &Address, amount: i128) {
        *self.balances.entry(to.key.clone()).or_insert(0) += amount;
    }

    fn balance(&self, who: &Address) -> i128 {
        *self.balances.get(&who.key).unwrap_or(&0)
    }

    fn transfer(&mut self, transfer: &Transfer) {
        assert!(transfer.amount >= 0);
        assert!(self.balance(&transfer.from) >= transfer.amount);
        *self.balances.entry(transfer.from.key.clone()).or_insert(0) -= transfer.amount;
        *self.balances.entry(transfer.to.key.clone()).or_insert(0) += transfer.amount;
    }
}

fn address(tag: u8) -> Address {
    Address::new(vec![tag; 32])
}

fn all_auths() -> Auth {
    let mut auth = Auth::none();
    auth.approve(address(1));
    auth.approve(address(2));
    auth.approve(address(3));
    auth
}

fn setup() -> (PaymentModule, Address, Token, (Address, Address)) {
    let admin = address(1);
    let buyer = address(2);
    let token_address = address(4);
    let mut token = Token { balances: HashMap::new() };
    token.mint(&buyer, 10000);
    let module = PaymentModule::new(&all_auths(), &admin, token_address.clone());
    (module, token_address, token, (buyer, admin))
}

#[test]
fn test_test_initialize() {
    let (module, token_address, _token, _) = setup();
    assert_eq!(module.get_usdc_address().key, token_address.key);
}

#[test]
fn test_make_payment() {
    let (mut module, _token_address, mut token, (buyer, _admin)) = setup();
    let seller = address(3);
    let payment_id = vec![1u8; 32];
    let invoice_id = vec![2u8; 32];
    let amount = 500;

    let (result, transfer) = module
        .make_payment(
            &all_auths(),
            payment_id.clone(),
            invoice_id.clone(),
            buyer.clone(),
            seller.clone(),
            amount,
        )
        .unwrap();
    token.transfer(&transfer);

    assert_eq!(result, payment_id);

    let seller_balance = token.balance(&seller);
    assert_eq!(seller_balance, amount);

    let stored = module.get_payment_status(&payment_id);
    assert!(stored.is_some());
    let stored = stored.unwrap();
    assert_eq!(stored.payment_id, payment_id);
    assert_eq!(stored.invoice_id, invoice_id);
    assert_eq!(stored.sender.key, buyer.key);
    assert_eq!(stored.receiver.key, seller.key);
    assert_eq!(stored.amount, amount);
    assert_eq!(stored.status, PaymentStatus::Completed);
    assert_eq!(stored.stellar_tx_id, vec![0u8; 32]);
}

#[test]
fn payment_is_made_once_for_a_positive_amount_by_its_sender() {
    let (mut module, _token_address, _token, (buyer, _admin)) = setup();
    let seller = address(3);
    assert_eq!(
        module
            .make_payment(&Auth::only(seller.clone()), vec![1], vec![2], buyer.clone(), seller.clone(), 0)
            .err(),
        Some(PaymentContractError::Unauthorized)
    );
    assert_eq!(
        module
            .make_payment(&all_auths(), vec![1], vec![2], buyer.clone(), seller.clone(), 0)
            .err(),
        Some(PaymentContractError::AmountMustBePositive)
    );
    assert_eq!(
        module
            .make_payment(&all_auths(), vec![1], vec![2], buyer.clone(), seller.clone(), -3)
            .err(),
        Some(PaymentContractError::AmountMustBePositive)
    );
    assert!(module.get_payment_status(&vec![1]).is_none());
    assert!(module
        .make_payment(&all_auths(), vec![1], vec![2], buyer.clone(), seller.clone(), 7)
        .is_ok());
    assert_eq!(
        module
            .make_payment(&all_auths(), vec![1], vec![3], buyer.clone(), seller.clone(), 9)
            .err(),
        Some(PaymentContractError::PaymentIDAlreadyExists)
    );
    assert_eq!(module.get_payment_status(&vec![1]).unwrap().amount, 7);
}
