use vstd::prelude::*;
use crate::address::Address;
use crate::address::bytes_clone;
use crate::auth::Auth;
use crate::store::ByteMap;
use crate::transfer::Transfer;
use crate::transfer::TransferView;

verus! {

/// Why a wallet operation was turned down.
#[derive(Clone, Copy, Debug, PartialEq, Eq, Structural)]
pub enum WalletError {
    InsufficientFunds,
    InvalidAmount,
    Unauthorized,
}

/// What the wallet is set up with: the token it holds and the account that
/// holds it.
#[derive(Debug, PartialEq, Eq)]
pub struct WalletConfig {
    pub usdc: Address,
    pub central: Address,
}

/// A book of balances, one for each address, backed by tokens held in one
/// central account.
pub struct WalletContract {
    config: Option<WalletConfig>,
    balances: ByteMap<i128>,
}

/// Why `amount` cannot move out of a balance of `from_balance`, if it cannot.
pub open spec fn transfer_error(from_balance: int, amount: int) -> Option<WalletError> {
    if amount <= 0 {
        Some(WalletError::InvalidAmount)
    } else if from_balance < amount {
        Some(WalletError::InsufficientFunds)
    } else {
        None
    }
}

/// Why `amount` cannot be deposited by an address that holds `token_balance`
/// tokens, if it cannot.
pub open spec fn deposit_error(
    auth: Set<Seq<u8>>,
    depositor: Seq<u8>,
    amount: int,
    token_balance: int,
) -> Option<WalletError> {
    if !auth.contains(depositor) {
        Some(WalletError::Unauthorized)
    } else if amount <= 0 {
        Some(WalletError::InvalidAmount)
    } else if amount > token_balance {
        Some(WalletError::InsufficientFunds)
    } else {
        None
    }
}

impl WalletContract {
    /// The wallet's validity: no balance is negative.
    pub closed spec fn wf(&self) -> bool {
        &&& self.balances.wf()
        &&& forall|who: Seq<u8>| #[trigger]
            self.balances@.contains_key(who) ==> self.balances@[who] >= 0
    }

    /// Whether `init` has run.
    pub closed spec fn is_initialized(&self) -> bool {
        self.config.is_some()
    }

    /// The token that the wallet holds, once initialized.
    pub closed spec fn usdc(&self) -> Seq<u8> {
        self.config.unwrap().usdc@
    }

    /// The account that holds the tokens, once initialized.
    pub closed spec fn central(&self) -> Seq<u8> {
        self.config.unwrap().central@
    }

    /// The balance of `who`; nothing where none is kept.
    pub closed spec fn balance_of(&self, who: Seq<u8>) -> int {
        if self.balances@.contains_key(who) {
            self.balances@[who] as int
        } else {
            0
        }
    }

    /// No balance is negative.
    pub proof fn lemma_balance_not_negative(&self, who: Seq<u8>)
        requires
            self.wf(),
        ensures
            0 <= self.balance_of(who) <= i128::MAX,
    {
    }

    /// Whether `other` has this wallet's setup.
    pub open spec fn same_setup(&self, other: &WalletContract) -> bool {
        &&& self.is_initialized() == other.is_initialized()
        &&& self.usdc() == other.usdc()
        &&& self.central() == other.central()
    }

    /// Whether `other` has this wallet's balances.
    pub open spec fn same_balances(&self, other: &WalletContract) -> bool {
        forall|who: Seq<u8>| self.balance_of(who) == other.balance_of(who)
    }

    /// The balance of `who` once `amount` has moved from `from` to `to`.
    pub open spec fn balance_after_move(
        &self,
        from: Seq<u8>,
        to: Seq<u8>,
        amount: int,
        who: Seq<u8>,
    ) -> int {
        if from == to {
            self.balance_of(who)
        } else if who == from {
            self.balance_of(who) - amount
        } else if who == to {
            self.balance_of(who) + amount
        } else {
            self.balance_of(who)
        }
    }

    /// The wallet before `init`, with no balance in it.
    pub fn new() -> (wallet: WalletContract)
        ensures
            wallet.wf(),
            !wallet.is_initialized(),
            forall|who: Seq<u8>| wallet.balance_of(who) == 0,
    {
        WalletContract { config: None, balances: ByteMap::new() }
    }

    /// Sets the wallet up with the token it holds and its central account.
    pub fn init(&mut self, auth: &Auth, admin: Address, usdc_asset: Address, central_account: Address)
        requires
            old(self).wf(),
            !old(self).is_initialized(),
            auth@.contains(admin@),
        ensures
            final(self).wf(),
            final(self).is_initialized(),
            final(self).usdc() == usdc_asset@,
            final(self).central() == central_account@,
            final(self).same_balances(old(self)),
    {
        self.config = Some(WalletConfig { usdc: usdc_asset, central: central_account });
    }

    /// The balance of `stellar_address`.
    pub fn get_balance(&self, stellar_address: &Address) -> (balance: i128)
        requires
            self.wf(),
        ensures
            balance == self.balance_of(stellar_address@),
    {
        match self.balances.get(&stellar_address.key) {
            Some(balance) => *balance,
            None => 0,
        }
    }

    /// Whether `amount` can move out of the balance of `who`.
    pub fn covers(&self, who: &Address, amount: i128) -> (covered: bool)
        requires
            self.wf(),
        ensures
            covered == (transfer_error(self.balance_of(who@), amount as int) is None),
    {
        amount > 0 && self.get_balance(who) >= amount
    }

    /// Puts back a balance that was kept elsewhere.
    pub fn restore_balance(&mut self, who: &Address, balance: i128)
        requires
            old(self).wf(),
            balance >= 0,
        ensures
            final(self).wf(),
            final(self).same_setup(old(self)),
            forall|other: Seq<u8>|
                final(self).balance_of(other) == (if other == who@ {
                    balance as int
                } else {
                    old(self).balance_of(other)
                }),
    {
        self.set_balance(who, balance);
    }

    fn set_balance(&mut self, who: &Address, balance: i128)
        requires
            old(self).wf(),
            balance >= 0,
        ensures
            final(self).wf(),
            final(self).same_setup(old(self)),
            forall|other: Seq<u8>|
                final(self).balance_of(other) == (if other == who@ {
                    balance as int
                } else {
                    old(self).balance_of(other)
                }),
    {
        self.balances.insert(bytes_clone(&who.key), balance);
    }

    /// Credits `stellar_address` with `amount` that it deposits, and hands
    /// back the transfer of the tokens to the central account. The address
    /// must hold the tokens: `token_balance` is what it holds.
    pub fn deposit(
        &mut self,
        auth: &Auth,
        stellar_address: &Address,
        amount: i128,
        token_balance: i128,
    ) -> (result: Result<Transfer, WalletError>)
        requires
            old(self).wf(),
            old(self).is_initialized(),
            deposit_error(auth@, stellar_address@, amount as int, token_balance as int) is None
                ==> old(self).balance_of(stellar_address@) + amount <= i128::MAX,
        ensures
            final(self).wf(),
            final(self).same_setup(old(self)),
            match result {
                Ok(transfer) => {
                    &&& deposit_error(
                        auth@,
                        stellar_address@,
                        amount as int,
                        token_balance as int,
                    ) is None
                    &&& transfer@ == (TransferView {
                        from: stellar_address@,
                        to: old(self).central(),
                        amount: amount as int,
                    })
                    &&& forall|who: Seq<u8>|
                        final(self).balance_of(who) == old(self).balance_of(who) + (if who
                            == stellar_address@ {
                            amount as int
                        } else {
                            0
                        })
                },
                Err(e) => {
                    &&& deposit_error(
                        auth@,
                        stellar_address@,
                        amount as int,
                        token_balance as int,
                    ) == Some(e)
                    &&& final(self).same_balances(old(self))
                },
            },
    {
        if !auth.has(stellar_address) {
            return Err(WalletError::Unauthorized);
        }
        if amount <= 0 {
            return Err(WalletError::InvalidAmount);
        }
        if amount > token_balance {
            return Err(WalletError::InsufficientFunds);
        }
        let central = self.get_central_account();
        let current: i128 = self.get_balance(stellar_address);
        proof {
            self.lemma_balance_not_negative(stellar_address@);
        }
        self.set_balance(stellar_address, current + amount);
        Ok(Transfer { from: stellar_address.clone(), to: central, amount })
    }

    fn transfer_internal(&mut self, from_address: &Address, to_address: &Address, amount: i128) -> (result:
        Result<(), WalletError>)
        requires
            old(self).wf(),
            transfer_error(old(self).balance_of(from_address@), amount as int) is None
                && from_address@ != to_address@ ==> old(self).balance_of(to_address@) + amount
                <= i128::MAX,
        ensures
            final(self).wf(),
            final(self).same_setup(old(self)),
            match result {
                Ok(_) => {
                    &&& transfer_error(old(self).balance_of(from_address@), amount as int) is None
                    &&& forall|who: Seq<u8>|
                        final(self).balance_of(who) == old(self).balance_after_move(
                            from_address@,
                            to_address@,
                            amount as int,
                            who,
                        )
                },
                Err(e) => {
                    &&& transfer_error(old(self).balance_of(from_address@), amount as int) == Some(
                        e,
                    )
                    &&& final(self).same_balances(old(self))
                },
            },
    {
        if amount <= 0 {
            return Err(WalletError::InvalidAmount);
        }
        let from_balance: i128 = self.get_balance(from_address);
        if from_balance < amount {
            return Err(WalletError::InsufficientFunds);
        }
        self.set_balance(from_address, from_balance - amount);
        let to_balance: i128 = self.get_balance(to_address);
        proof {
            self.lemma_balance_not_negative(to_address@);
        }
        self.set_balance(to_address, to_balance + amount);
        Ok(())
    }

    /// Why `amount` cannot be withdrawn by `who`, if it cannot.
    pub open spec fn withdraw_error(&self, auth: Set<Seq<u8>>, who: Seq<u8>, amount: int) -> Option<
        WalletError,
    > {
        if !auth.contains(who) {
            Some(WalletError::Unauthorized)
        } else if transfer_error(self.balance_of(who), amount) is Some {
            transfer_error(self.balance_of(who), amount)
        } else if !auth.contains(self.central()) {
            Some(WalletError::Unauthorized)
        } else {
            None
        }
    }

    /// Takes `amount` off the balance of `stellar_address`, credits it to the
    /// central account's balance, and hands back the transfer of the tokens
    /// from the central account to the address.
    pub fn withdraw(&mut self, auth: &Auth, stellar_address: &Address, amount: i128) -> (result:
        Result<Transfer, WalletError>)
        requires
            old(self).wf(),
            old(self).is_initialized(),
            old(self).withdraw_error(auth@, stellar_address@, amount as int) is None
                && stellar_address@ != old(self).central() ==> old(self).balance_of(
                old(self).central(),
            ) + amount <= i128::MAX,
        ensures
            final(self).wf(),
            final(self).same_setup(old(self)),
            match result {
                Ok(transfer) => {
                    &&& old(self).withdraw_error(auth@, stellar_address@, amount as int) is None
                    &&& transfer@ == (TransferView {
                        from: old(self).central(),
                        to: stellar_address@,
                        amount: amount as int,
                    })
                    &&& forall|who: Seq<u8>|
                        final(self).balance_of(who) == old(self).balance_after_move(
                            stellar_address@,
                            old(self).central(),
                            amount as int,
                            who,
                        )
                },
                Err(e) => {
                    &&& old(self).withdraw_error(auth@, stellar_address@, amount as int) == Some(e)
                    &&& final(self).same_balances(old(self))
                },
            },
    {
        if !auth.has(stellar_address) {
            return Err(WalletError::Unauthorized);
        }
        let central = self.get_central_account();
        if amount <= 0 {
            return Err(WalletError::InvalidAmount);
        }
        if self.get_balance(stellar_address) < amount {
            return Err(WalletError::InsufficientFunds);
        }
        if !auth.has(&central) {
            return Err(WalletError::Unauthorized);
        }
        match self.transfer_internal(stellar_address, &central, amount) {
            Ok(_) => Ok(Transfer { from: central, to: stellar_address.clone(), amount }),
            Err(e) => Err(e),
        }
    }

    /// Why `amount` cannot move out of the balance of `from`, if it cannot.
    pub open spec fn transfer_rejection(&self, auth: Set<Seq<u8>>, from: Seq<u8>, amount: int)
        -> Option<WalletError> {
        if !auth.contains(from) {
            Some(WalletError::Unauthorized)
        } else {
            transfer_error(self.balance_of(from), amount)
        }
    }

    /// Moves `amount` from the balance of `from_address` to that of
    /// `to_address`.
    pub fn transfer(&mut self, auth: &Auth, from_address: &Address, to_address: &Address, amount: i128)
        -> (result: Result<(), WalletError>)
        requires
            old(self).wf(),
            old(self).transfer_rejection(auth@, from_address@, amount as int) is None
                && from_address@ != to_address@ ==> old(self).balance_of(to_address@) + amount
                <= i128::MAX,
        ensures
            final(self).wf(),
            final(self).same_setup(old(self)),
            match result {
                Ok(_) => {
                    &&& old(self).transfer_rejection(auth@, from_address@, amount as int) is None
                    &&& forall|who: Seq<u8>|
                        final(self).balance_of(who) == old(self).balance_after_move(
                            from_address@,
                            to_address@,
                            amount as int,
                            who,
                        )
                },
                Err(e) => {
                    &&& old(self).transfer_rejection(auth@, from_address@, amount as int) == Some(
                        e,
                    )
                    &&& final(self).same_balances(old(self))
                },
            },
    {
        if !auth.has(from_address) {
            return Err(WalletError::Unauthorized);
        }
        self.transfer_internal(from_address, to_address, amount)
    }

    /// The token that the wallet holds.
    pub fn get_usdc_address(&self) -> (usdc: Address)
        requires
            self.is_initialized(),
        ensures
            usdc@ == self.usdc(),
    {
        match &self.config {
            Some(config) => config.usdc.clone(),
            None => Address::new(Vec::new()),
        }
    }

    /// The account that holds the tokens.
    pub fn get_central_account(&self) -> (central: Address)
        requires
            self.is_initialized(),
        ensures
            central@ == self.central(),
    {
        match &self.config {
            Some(config) => config.central.clone(),
            None => Address::new(Vec::new()),
        }
    }
}

} // verus!
