use vstd::prelude::*;
use crate::address::Address;
use crate::auth::Auth;
use crate::store::ByteMap;
use crate::store::viewed;
use crate::store::lemma_viewed_insert;
use crate::transfer::Transfer;
use crate::transfer::TransferView;

verus! {

/// Why an escrow operation was turned down.
#[derive(Clone, Copy, Debug, PartialEq, Eq, Structural)]
pub enum ContractError {
    InvalidEscrowState,
    TimeoutNotReached,
    RequestIDAlreadyUsed,
    Unauthorized,
}

/// How far an escrow has come.
#[derive(Clone, Copy, Debug, PartialEq, Eq, Structural)]
pub enum EscrowStatus {
    Locked,
    Released,
    Refunded,
}

/// Funds of a user held for a liquidity provider node until they are
/// released to the node or, after the timeout, refunded to the user.
#[derive(Debug, PartialEq, Eq)]
pub struct EscrowData {
    pub user_id: Address,
    pub lp_node_id: Address,
    pub amount: i128,
    pub status: EscrowStatus,
    pub timeout: u64,
}

/// What an escrow holds.
pub struct EscrowDataView {
    pub user_id: Seq<u8>,
    pub lp_node_id: Seq<u8>,
    pub amount: int,
    pub status: EscrowStatus,
    pub timeout: int,
}

impl View for EscrowData {
    type V = EscrowDataView;

    open spec fn view(&self) -> EscrowDataView {
        EscrowDataView {
            user_id: self.user_id@,
            lp_node_id: self.lp_node_id@,
            amount: self.amount as int,
            status: self.status,
            timeout: self.timeout as int,
        }
    }
}

impl Clone for EscrowData {
    fn clone(&self) -> (copy: EscrowData)
        ensures
            copy@ == self@,
    {
        EscrowData {
            user_id: self.user_id.clone(),
            lp_node_id: self.lp_node_id.clone(),
            amount: self.amount,
            status: self.status,
            timeout: self.timeout,
        }
    }
}

/// The escrow desk: funds locked under request identifiers, held at the
/// desk's own address in the wallet.
pub struct EscrowContract {
    address: Address,
    usdc: Address,
    wallet: Address,
    escrows: ByteMap<EscrowData>,
}

/// Why funds cannot be locked under `request_id`, if they cannot.
pub open spec fn lock_error(
    escrows: Map<Seq<u8>, EscrowDataView>,
    auth: Set<Seq<u8>>,
    request_id: Seq<u8>,
    user_id: Seq<u8>,
    lp_node_id: Seq<u8>,
) -> Option<ContractError> {
    if !auth.contains(user_id) {
        Some(ContractError::Unauthorized)
    } else if escrows.contains_key(request_id) {
        Some(ContractError::RequestIDAlreadyUsed)
    } else if !auth.contains(lp_node_id) {
        Some(ContractError::Unauthorized)
    } else {
        None
    }
}

/// Why the funds under `request_id` cannot be released to `lp_node_id`, if
/// they cannot.
pub open spec fn release_error(
    escrows: Map<Seq<u8>, EscrowDataView>,
    auth: Set<Seq<u8>>,
    request_id: Seq<u8>,
    lp_node_id: Seq<u8>,
) -> Option<ContractError> {
    if !auth.contains(lp_node_id) {
        Some(ContractError::Unauthorized)
    } else if !escrows.contains_key(request_id) {
        Some(ContractError::InvalidEscrowState)
    } else if escrows[request_id].lp_node_id != lp_node_id || escrows[request_id].status
        != EscrowStatus::Locked {
        Some(ContractError::InvalidEscrowState)
    } else {
        None
    }
}

/// Why the funds under `request_id` cannot be refunded to `user_id` at the
/// time `now`, if they cannot.
pub open spec fn refund_error(
    escrows: Map<Seq<u8>, EscrowDataView>,
    auth: Set<Seq<u8>>,
    request_id: Seq<u8>,
    user_id: Seq<u8>,
    now: int,
) -> Option<ContractError> {
    if !auth.contains(user_id) {
        Some(ContractError::Unauthorized)
    } else if !escrows.contains_key(request_id) {
        Some(ContractError::InvalidEscrowState)
    } else if escrows[request_id].user_id != user_id || escrows[request_id].status
        != EscrowStatus::Locked {
        Some(ContractError::InvalidEscrowState)
    } else if now < escrows[request_id].timeout {
        Some(ContractError::TimeoutNotReached)
    } else {
        None
    }
}

impl EscrowContract {
    /// The escrow desk's validity.
    pub closed spec fn wf(&self) -> bool {
        self.escrows.wf()
    }

    /// The escrows, each under its request identifier.
    pub closed spec fn escrows(&self) -> Map<Seq<u8>, EscrowDataView> {
        viewed(self.escrows@)
    }

    /// The desk's own address, at which it holds the locked funds.
    pub closed spec fn address(&self) -> Seq<u8> {
        self.address@
    }

    /// The token that the desk deals in.
    pub closed spec fn usdc(&self) -> Seq<u8> {
        self.usdc@
    }

    /// The wallet that moves the funds.
    pub closed spec fn wallet(&self) -> Seq<u8> {
        self.wallet@
    }

    /// Whether `other` has this desk's setup.
    pub open spec fn same_setup(&self, other: &EscrowContract) -> bool {
        &&& self.address() == other.address()
        &&& self.usdc() == other.usdc()
        &&& self.wallet() == other.wallet()
    }

    /// An escrow desk at `address`, with nothing locked.
    pub fn new(
        auth: &Auth,
        address: Address,
        admin: &Address,
        usdc_asset: Address,
        wallet_contract: Address,
    ) -> (desk: EscrowContract)
        requires
            auth@.contains(admin@),
        ensures
            desk.wf(),
            desk.escrows() == Map::<Seq<u8>, EscrowDataView>::empty(),
            desk.address() == address@,
            desk.usdc() == usdc_asset@,
            desk.wallet() == wallet_contract@,
    {
        let desk = EscrowContract {
            address,
            usdc: usdc_asset,
            wallet: wallet_contract,
            escrows: ByteMap::new(),
        };
        proof {
            assert(desk.escrows() =~= Map::<Seq<u8>, EscrowDataView>::empty());
        }
        desk
    }

    /// Puts back an escrow that was kept elsewhere, under `request_id`.
    pub fn restore_escrow(&mut self, request_id: Vec<u8>, escrow: EscrowData)
        requires
            old(self).wf(),
        ensures
            final(self).wf(),
            final(self).same_setup(old(self)),
            final(self).escrows() == old(self).escrows().insert(request_id@, escrow@),
    {
        proof {
            lemma_viewed_insert(self.escrows@, request_id@, escrow);
        }
        self.escrows.insert(request_id, escrow);
    }

    /// Locks `amount` of `user_id` for `lp_node_id` under `request_id`, to be
    /// refundable `timeout` after `now`. Hands back the transfer from the user
    /// to the desk.
    pub fn lock_funds(
        &mut self,
        auth: &Auth,
        request_id: Vec<u8>,
        user_id: Address,
        lp_node_id: Address,
        amount: i128,
        timeout: u64,
        now: u64,
    ) -> (result: Result<Transfer, ContractError>)
        requires
            old(self).wf(),
            now + timeout <= u64::MAX,
        ensures
            final(self).wf(),
            final(self).same_setup(old(self)),
            match result {
                Ok(transfer) => {
                    &&& lock_error(old(self).escrows(), auth@, request_id@, user_id@, lp_node_id@)
                        is None
                    &&& final(self).escrows() == old(self).escrows().insert(
                        request_id@,
                        EscrowDataView {
                            user_id: user_id@,
                            lp_node_id: lp_node_id@,
                            amount: amount as int,
                            status: EscrowStatus::Locked,
                            timeout: now + timeout,
                        },
                    )
                    &&& transfer@ == (TransferView {
                        from: user_id@,
                        to: old(self).address(),
                        amount: amount as int,
                    })
                },
                Err(e) => {
                    &&& lock_error(old(self).escrows(), auth@, request_id@, user_id@, lp_node_id@)
                        == Some(e)
                    &&& final(self).escrows() == old(self).escrows()
                },
            },
    {
        if !auth.has(&user_id) {
            return Err(ContractError::Unauthorized);
        }
        if self.escrows.contains_key(&request_id) {
            return Err(ContractError::RequestIDAlreadyUsed);
        }
        if !auth.has(&lp_node_id) {
            return Err(ContractError::Unauthorized);
        }
        let transfer = Transfer {
            from: user_id.clone(),
            to: self.address.clone(),
            amount,
        };
        let escrow = EscrowData {
            user_id,
            lp_node_id,
            amount,
            status: EscrowStatus::Locked,
            timeout: now + timeout,
        };
        proof {
            lemma_viewed_insert(self.escrows@, request_id@, escrow);
        }
        self.escrows.insert(request_id, escrow);
        Ok(transfer)
    }

    /// Releases the funds locked under `request_id` to the node they were
    /// locked for. Hands back the transfer from the desk to the node.
    pub fn release_funds(&mut self, auth: &Auth, request_id: Vec<u8>, lp_node_id: Address) -> (result:
        Result<Transfer, ContractError>)
        requires
            old(self).wf(),
        ensures
            final(self).wf(),
            final(self).same_setup(old(self)),
            match result {
                Ok(transfer) => {
                    &&& release_error(old(self).escrows(), auth@, request_id@, lp_node_id@) is None
                    &&& final(self).escrows() == old(self).escrows().insert(
                        request_id@,
                        EscrowDataView {
                            status: EscrowStatus::Released,
                            ..old(self).escrows()[request_id@]
                        },
                    )
                    &&& transfer@ == (TransferView {
                        from: old(self).address(),
                        to: lp_node_id@,
                        amount: old(self).escrows()[request_id@].amount,
                    })
                },
                Err(e) => {
                    &&& release_error(old(self).escrows(), auth@, request_id@, lp_node_id@) == Some(
                        e,
                    )
                    &&& final(self).escrows() == old(self).escrows()
                },
            },
    {
        if !auth.has(&lp_node_id) {
            return Err(ContractError::Unauthorized);
        }
        let mut escrow = match self.escrows.get(&request_id) {
            Some(escrow) => escrow.clone(),
            None => {
                return Err(ContractError::InvalidEscrowState);
            },
        };
        if !escrow.lp_node_id.same(&lp_node_id) || escrow.status != EscrowStatus::Locked {
            return Err(ContractError::InvalidEscrowState);
        }
        let transfer = Transfer {
            from: self.address.clone(),
            to: lp_node_id,
            amount: escrow.amount,
        };
        escrow.status = EscrowStatus::Released;
        proof {
            lemma_viewed_insert(self.escrows@, request_id@, escrow);
        }
        self.escrows.insert(request_id, escrow);
        Ok(transfer)
    }

    /// Refunds the funds locked under `request_id` to the user who locked
    /// them, once the timeout has passed. Hands back the transfer from the
    /// desk to the user.
    pub fn refund_funds(&mut self, auth: &Auth, request_id: Vec<u8>, user_id: Address, now: u64) -> (result:
        Result<Transfer, ContractError>)
        requires
            old(self).wf(),
        ensures
            final(self).wf(),
            final(self).same_setup(old(self)),
            match result {
                Ok(transfer) => {
                    &&& refund_error(old(self).escrows(), auth@, request_id@, user_id@, now as int)
                        is None
                    &&& final(self).escrows() == old(self).escrows().insert(
                        request_id@,
                        EscrowDataView {
                            status: EscrowStatus::Refunded,
                            ..old(self).escrows()[request_id@]
                        },
                    )
                    &&& transfer@ == (TransferView {
                        from: old(self).address(),
                        to: user_id@,
                        amount: old(self).escrows()[request_id@].amount,
                    })
                },
                Err(e) => {
                    &&& refund_error(old(self).escrows(), auth@, request_id@, user_id@, now as int)
                        == Some(e)
                    &&& final(self).escrows() == old(self).escrows()
                },
            },
    {
        if !auth.has(&user_id) {
            return Err(ContractError::Unauthorized);
        }
        let mut escrow = match self.escrows.get(&request_id) {
            Some(escrow) => escrow.clone(),
            None => {
                return Err(ContractError::InvalidEscrowState);
            },
        };
        if !escrow.user_id.same(&user_id) || escrow.status != EscrowStatus::Locked {
            return Err(ContractError::InvalidEscrowState);
        }
        if now < escrow.timeout {
            return Err(ContractError::TimeoutNotReached);
        }
        let transfer = Transfer { from: self.address.clone(), to: user_id, amount: escrow.amount };
        escrow.status = EscrowStatus::Refunded;
        proof {
            lemma_viewed_insert(self.escrows@, request_id@, escrow);
        }
        self.escrows.insert(request_id, escrow);
        Ok(transfer)
    }

    /// The desk's own address.
    pub fn get_address(&self) -> (address: Address)
        ensures
            address@ == self.address(),
    {
        self.address.clone()
    }

    /// The token that the desk deals in.
    pub fn get_usdc_address(&self) -> (usdc: Address)
        ensures
            usdc@ == self.usdc(),
    {
        self.usdc.clone()
    }

    /// The wallet that moves the funds.
    pub fn get_wallet_address(&self) -> (wallet: Address)
        ensures
            wallet@ == self.wallet(),
    {
        self.wallet.clone()
    }

    /// The escrow under `request_id`, if there is one.
    pub fn get_escrow_status(&self, request_id: &Vec<u8>) -> (escrow: Option<EscrowData>)
        requires
            self.wf(),
        ensures
            match escrow {
                Some(data) => self.escrows().contains_key(request_id@) && data@
                    == self.escrows()[request_id@],
                None => !self.escrows().contains_key(request_id@),
            },
    {
        match self.escrows.get(request_id) {
            Some(escrow) => Some(escrow.clone()),
            None => None,
        }
    }
}

/// An escrow that has been released or refunded is neither released nor
/// refunded again.
pub proof fn lemma_escrow_ends_once(
    escrows: Map<Seq<u8>, EscrowDataView>,
    auth: Set<Seq<u8>>,
    request_id: Seq<u8>,
    party: Seq<u8>,
    now: int,
)
    requires
        escrows.contains_key(request_id),
        escrows[request_id].status != EscrowStatus::Locked,
    ensures
        release_error(escrows, auth, request_id, party) is Some,
        refund_error(escrows, auth, request_id, party, now) is Some,
{
}

} // verus!
