use vstd::prelude::*;
use crate::address::Address;
use crate::address::bytes_clone;
use crate::auth::Auth;
use crate::store::ByteMap;
use crate::store::viewed;
use crate::store::lemma_viewed_insert;
use crate::transfer::Transfer;
use crate::transfer::TransferView;

verus! {

/// Why a payment was turned down.
#[derive(Clone, Copy, Debug, PartialEq, Eq, Structural)]
pub enum PaymentContractError {
    PaymentIDAlreadyExists,
    AmountMustBePositive,
    Unauthorized,
}

/// How far a payment has come.
#[derive(Clone, Copy, Debug, PartialEq, Eq, Structural)]
pub enum PaymentStatus {
    Pending,
    Completed,
    Failed,
}

/// The length of a ledger transaction identifier, in bytes.
pub const TX_ID_LEN: usize = 32;

/// A payment of an invoice, from a customer to a merchant.
#[derive(Debug, PartialEq, Eq)]
pub struct Payment {
    pub payment_id: Vec<u8>,
    pub invoice_id: Vec<u8>,
    pub sender: Address,
    pub receiver: Address,
    pub amount: i128,
    pub status: PaymentStatus,
    pub stellar_tx_id: Vec<u8>,
}

/// What a payment holds.
pub struct PaymentView {
    pub payment_id: Seq<u8>,
    pub invoice_id: Seq<u8>,
    pub sender: Seq<u8>,
    pub receiver: Seq<u8>,
    pub amount: int,
    pub status: PaymentStatus,
    pub stellar_tx_id: Seq<u8>,
}

impl View for Payment {
    type V = PaymentView;

    open spec fn view(&self) -> PaymentView {
        PaymentView {
            payment_id: self.payment_id@,
            invoice_id: self.invoice_id@,
            sender: self.sender@,
            receiver: self.receiver@,
            amount: self.amount as int,
            status: self.status,
            stellar_tx_id: self.stellar_tx_id@,
        }
    }
}

impl Clone for Payment {
    fn clone(&self) -> (copy: Payment)
        ensures
            copy@ == self@,
    {
        Payment {
            payment_id: bytes_clone(&self.payment_id),
            invoice_id: bytes_clone(&self.invoice_id),
            sender: self.sender.clone(),
            receiver: self.receiver.clone(),
            amount: self.amount,
            status: self.status,
            stellar_tx_id: bytes_clone(&self.stellar_tx_id),
        }
    }
}

/// The transaction identifier of a payment whose ledger transaction is not
/// known: thirty-two zero bytes.
pub open spec fn blank_tx_id() -> Seq<u8> {
    Seq::new(TX_ID_LEN as nat, |i: int| 0u8)
}

/// Thirty-two zero bytes.
pub fn make_blank_tx_id() -> (id: Vec<u8>)
    ensures
        id@ == blank_tx_id(),
{
    let mut id: Vec<u8> = Vec::new();
    let mut i: usize = 0;
    while i < TX_ID_LEN
        invariant
            i <= TX_ID_LEN,
            id@.len() == i,
            forall|j: int| 0 <= j < i ==> id@[j] == 0u8,
        decreases TX_ID_LEN - i,
    {
        id.push(0u8);
        i += 1;
    }
    assert(id@ =~= blank_tx_id());
    id
}

/// The payments made, each kept under its identifier.
pub struct PaymentModule {
    usdc: Address,
    payments: ByteMap<Payment>,
}

/// Why a payment cannot be made, if it cannot.
pub open spec fn make_payment_error(
    payments: Map<Seq<u8>, PaymentView>,
    auth: Set<Seq<u8>>,
    payment_id: Seq<u8>,
    sender: Seq<u8>,
    amount: int,
) -> Option<PaymentContractError> {
    if !auth.contains(sender) {
        Some(PaymentContractError::Unauthorized)
    } else if amount <= 0 {
        Some(PaymentContractError::AmountMustBePositive)
    } else if payments.contains_key(payment_id) {
        Some(PaymentContractError::PaymentIDAlreadyExists)
    } else {
        None
    }
}

impl PaymentModule {
    /// The module's validity.
    pub closed spec fn wf(&self) -> bool {
        self.payments.wf()
    }

    /// The payments, each under its identifier.
    pub closed spec fn payments(&self) -> Map<Seq<u8>, PaymentView> {
        viewed(self.payments@)
    }

    /// The token that payments are made in.
    pub closed spec fn usdc(&self) -> Seq<u8> {
        self.usdc@
    }

    /// A payment module for the token `usdc_asset`, with no payment made.
    pub fn new(auth: &Auth, admin: &Address, usdc_asset: Address) -> (module: PaymentModule)
        requires
            auth@.contains(admin@),
        ensures
            module.wf(),
            module.payments() == Map::<Seq<u8>, PaymentView>::empty(),
            module.usdc() == usdc_asset@,
    {
        let module = PaymentModule { usdc: usdc_asset, payments: ByteMap::new() };
        proof {
            assert(module.payments() =~= Map::<Seq<u8>, PaymentView>::empty());
        }
        module
    }

    /// Puts back a payment that was kept elsewhere, under its identifier.
    pub fn restore_payment(&mut self, payment: Payment)
        requires
            old(self).wf(),
        ensures
            final(self).wf(),
            final(self).usdc() == old(self).usdc(),
            final(self).payments() == old(self).payments().insert(payment.payment_id@, payment@),
    {
        let key = bytes_clone(&payment.payment_id);
        proof {
            lemma_viewed_insert(self.payments@, key@, payment);
        }
        self.payments.insert(key, payment);
    }

    /// Pays `amount` from `sender` to `receiver` for the invoice
    /// `invoice_id`, and keeps the payment under `payment_id` as completed.
    /// Hands back the payment's identifier and the transfer from the sender
    /// to the receiver.
    pub fn make_payment(
        &mut self,
        auth: &Auth,
        payment_id: Vec<u8>,
        invoice_id: Vec<u8>,
        sender: Address,
        receiver: Address,
        amount: i128,
    ) -> (result: Result<(Vec<u8>, Transfer), PaymentContractError>)
        requires
            old(self).wf(),
        ensures
            final(self).wf(),
            final(self).usdc() == old(self).usdc(),
            match result {
                Ok(made) => {
                    &&& made.0@ == payment_id@
                    &&& make_payment_error(
                        old(self).payments(),
                        auth@,
                        payment_id@,
                        sender@,
                        amount as int,
                    ) is None
                    &&& final(self).payments() == old(self).payments().insert(
                        payment_id@,
                        PaymentView {
                            payment_id: payment_id@,
                            invoice_id: invoice_id@,
                            sender: sender@,
                            receiver: receiver@,
                            amount: amount as int,
                            status: PaymentStatus::Completed,
                            stellar_tx_id: blank_tx_id(),
                        },
                    )
                    &&& made.1@ == (TransferView {
                        from: sender@,
                        to: receiver@,
                        amount: amount as int,
                    })
                },
                Err(e) => {
                    &&& make_payment_error(
                        old(self).payments(),
                        auth@,
                        payment_id@,
                        sender@,
                        amount as int,
                    ) == Some(e)
                    &&& final(self).payments() == old(self).payments()
                },
            },
    {
        if !auth.has(&sender) {
            return Err(PaymentContractError::Unauthorized);
        }
        if amount <= 0 {
            return Err(PaymentContractError::AmountMustBePositive);
        }
        if self.payments.contains_key(&payment_id) {
            return Err(PaymentContractError::PaymentIDAlreadyExists);
        }
        let transfer = Transfer { from: sender.clone(), to: receiver.clone(), amount };
        let key = bytes_clone(&payment_id);
        let payment = Payment {
            payment_id,
            invoice_id,
            sender,
            receiver,
            amount,
            status: PaymentStatus::Completed,
            stellar_tx_id: make_blank_tx_id(),
        };
        proof {
            lemma_viewed_insert(self.payments@, key@, payment);
        }
        self.payments.insert(bytes_clone(&key), payment);
        Ok((key, transfer))
    }

    /// The token that payments are made in.
    pub fn get_usdc_address(&self) -> (usdc: Address)
        ensures
            usdc@ == self.usdc(),
    {
        self.usdc.clone()
    }

    /// The payment kept under `payment_id`, if there is one.
    pub fn get_payment_status(&self, payment_id: &Vec<u8>) -> (payment: Option<Payment>)
        requires
            self.wf(),
        ensures
            match payment {
                Some(found) => self.payments().contains_key(payment_id@) && found@
                    == self.payments()[payment_id@],
                None => !self.payments().contains_key(payment_id@),
            },
    {
        match self.payments.get(payment_id) {
            Some(payment) => Some(payment.clone()),
            None => None,
        }
    }
}

} // verus!
