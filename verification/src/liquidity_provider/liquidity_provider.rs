use vstd::prelude::*;
use crate::address::Address;
use crate::address::bytes_clone;
use crate::auth::Auth;
use crate::fee::fee_of;
use crate::fee::lemma_share_bounds;
use crate::fee::mul_div_floor;
use crate::liquidity_manager::MAX_BPS;
use crate::liquidity_manager::Settings;
use crate::liquidity_manager::SettingsView;
use crate::liquidity_provider::error::ContractError;
use crate::liquidity_provider::order_store::OrderStore;
use crate::liquidity_provider::settlement::is_terminal;
use crate::liquidity_provider::settlement::lemma_settled_wf;
use crate::liquidity_provider::settlement::order_wf;
use crate::liquidity_provider::settlement::refund_error;
use crate::liquidity_provider::settlement::refund_of;
use crate::liquidity_provider::settlement::refunded;
use crate::liquidity_provider::settlement::settle_error;
use crate::liquidity_provider::settlement::settled;
use crate::liquidity_provider::settlement::settlement_of;
use crate::liquidity_provider::storage_types::Effects;
use crate::liquidity_provider::storage_types::EffectsView;
use crate::liquidity_provider::storage_types::Event;
use crate::liquidity_provider::storage_types::EventView;
use crate::liquidity_provider::storage_types::LpNode;
use crate::liquidity_provider::storage_types::Order;
use crate::liquidity_provider::storage_types::OrderParams;
use crate::liquidity_provider::storage_types::OrderParamsView;
use crate::liquidity_provider::storage_types::OrderView;
use crate::liquidity_provider::storage_types::PendingRefund;
use crate::liquidity_provider::storage_types::PendingRefundView;
use crate::liquidity_provider::storage_types::PendingSettlement;
use crate::liquidity_provider::storage_types::PendingSettlementView;
use crate::transfer::Transfer;
use crate::transfer::TransferView;
use crate::store::ByteMap;
use crate::store::viewed;
use crate::store::lemma_viewed_empty;
use crate::store::lemma_viewed_insert;
use crate::store::lemma_viewed_remove;

verus! {

/// What the protocol is set up with.
#[derive(Debug, PartialEq, Eq)]
pub struct Config {
    pub admin: Address,
    pub usdc: Address,
    pub settings_contract: Address,
}

/// What a configuration holds.
pub struct ConfigView {
    pub admin: Seq<u8>,
    pub usdc: Seq<u8>,
    pub settings_contract: Seq<u8>,
}

impl View for Config {
    type V = ConfigView;

    open spec fn view(&self) -> ConfigView {
        ConfigView {
            admin: self.admin@,
            usdc: self.usdc@,
            settings_contract: self.settings_contract@,
        }
    }
}

/// Everything the protocol keeps between operations.
pub struct LPState {
    pub config: Option<ConfigView>,
    pub orders: Map<Seq<u8>, OrderView>,
    pub pending_settlements: Map<Seq<u8>, PendingSettlementView>,
    pub pending_refunds: Map<Seq<u8>, PendingRefundView>,
    pub nonces: Map<Seq<u8>, i128>,
    pub nodes: Map<Seq<u8>, LpNode>,
}

/// How many orders `sender` has made.
pub open spec fn nonce_of(state: LPState, sender: Seq<u8>) -> int {
    if state.nonces.contains_key(sender) {
        state.nonces[sender] as int
    } else {
        0
    }
}

/// The settlement protocol: orders, the settlements and refunds decided on
/// them and not yet paid out, and the registry of liquidity provider nodes.
pub struct LPContract {
    config: Option<Config>,
    orders: OrderStore,
    pending_settlements: ByteMap<PendingSettlement>,
    pending_refunds: ByteMap<PendingRefund>,
    nonces: ByteMap<i128>,
    nodes: ByteMap<LpNode>,
}

impl View for LPContract {
    type V = LPState;

    closed spec fn view(&self) -> LPState {
        LPState {
            config: match self.config {
                Some(config) => Some(config@),
                None => None,
            },
            orders: self.orders@,
            pending_settlements: viewed(self.pending_settlements@),
            pending_refunds: viewed(self.pending_refunds@),
            nonces: self.nonces@,
            nodes: self.nodes@,
        }
    }
}

/// Why a node with `capacity` cannot be registered under `lp_node_id`, if it
/// cannot.
pub open spec fn register_lp_node_error(state: LPState, lp_node_id: Seq<u8>, capacity: int)
    -> Option<ContractError> {
    if capacity <= 0 {
        Some(ContractError::InvalidLpNodeParameters)
    } else if state.nodes.contains_key(lp_node_id) {
        Some(ContractError::LpNodeIdAlreadyExists)
    } else {
        None
    }
}

/// Why an order cannot be made from `params`, if it cannot.
pub open spec fn create_order_error(
    state: LPState,
    settings: SettingsView,
    auth: Set<Seq<u8>>,
    params: OrderParamsView,
) -> Option<ContractError> {
    if !auth.contains(params.sender) {
        Some(ContractError::Unauthorized)
    } else if settings.paused {
        Some(ContractError::Paused)
    } else if params.amount <= 0 {
        Some(ContractError::InvalidAmount)
    } else if params.message_hash.len() == 0 {
        Some(ContractError::InvalidMessageHash)
    } else if state.orders.contains_key(params.order_id) {
        Some(ContractError::OrderAlreadyExists)
    } else {
        None
    }
}

/// The order that is made from `params`: nothing of it settled, in the token
/// `usdc`, with the protocol fee that the settings give on its amount.
pub open spec fn new_order(params: OrderParamsView, usdc: Seq<u8>, settings: SettingsView)
    -> OrderView {
    OrderView {
        order_id: params.order_id,
        sender: params.sender,
        token: usdc,
        temporary_wallet_address: params.temporary_wallet_address,
        protocol_fee: fee_of(params.amount, settings.protocol_fee_percent, settings.max_bps),
        is_fulfilled: false,
        is_refunded: false,
        refund_address: params.refund_address,
        current_bps: settings.max_bps,
        amount: params.amount,
        rate: params.rate,
        message_hash: params.message_hash,
    }
}

/// The protocol once the order of `params` has been made.
pub open spec fn after_create_order(state: LPState, settings: SettingsView, params: OrderParamsView)
    -> LPState {
    LPState {
        orders: state.orders.insert(
            params.order_id,
            new_order(params, state.config.unwrap().usdc, settings),
        ),
        nonces: state.nonces.insert(params.sender, (nonce_of(state, params.sender) + 1) as i128),
        ..state
    }
}

/// What making the order of `params` asks for: the amount moves from the
/// sender to the temporary wallet.
pub open spec fn create_order_effects(settings: SettingsView, params: OrderParamsView)
    -> EffectsView {
    EffectsView {
        transfers: seq![
            TransferView {
                from: params.sender,
                to: params.temporary_wallet_address,
                amount: params.amount,
            },
        ],
        event: EventView::OrderCreated {
            order_id: params.order_id,
            sender: params.sender,
            refund_address: params.refund_address,
            amount: params.amount,
            protocol_fee: fee_of(params.amount, settings.protocol_fee_percent, settings.max_bps),
            rate: params.rate,
            message_hash: params.message_hash,
        },
    }
}

/// Why `settle_percent` of the order under `order_id` cannot be settled, if it
/// cannot.
pub open spec fn settle_rejection(
    state: LPState,
    settings: SettingsView,
    auth: Set<Seq<u8>>,
    order_id: Seq<u8>,
    settle_percent: int,
) -> Option<ContractError> {
    if settings.paused {
        Some(ContractError::Paused)
    } else if !auth.contains(settings.relayer) {
        Some(ContractError::Unauthorized)
    } else if settle_percent <= 0 || settle_percent > MAX_BPS {
        Some(ContractError::InvalidSettlePercent)
    } else if !state.orders.contains_key(order_id) {
        Some(ContractError::OrderNotFound)
    } else {
        settle_error(state.orders[order_id], settle_percent)
    }
}

/// The protocol once `settle_percent` of the order under `order_id` has been
/// settled for `liquidity_provider`: the order has given up its share, and the
/// record of the settlement stands in place of any earlier one.
pub open spec fn after_settle(
    state: LPState,
    settings: SettingsView,
    order_id: Seq<u8>,
    liquidity_provider: Seq<u8>,
    settle_percent: int,
) -> LPState {
    LPState {
        orders: state.orders.insert(order_id, settled(state.orders[order_id], settle_percent)),
        pending_settlements: state.pending_settlements.insert(
            order_id,
            settlement_of(
                state.orders[order_id],
                liquidity_provider,
                settle_percent,
                settings.protocol_fee_percent,
                settings.max_bps,
            ),
        ),
        ..state
    }
}

/// Why the settlement decided on the order under `order_id` cannot be paid
/// out, if it cannot.
pub open spec fn execute_settlement_rejection(
    state: LPState,
    auth: Set<Seq<u8>>,
    order_id: Seq<u8>,
) -> Option<ContractError> {
    if !state.orders.contains_key(order_id) {
        Some(ContractError::OrderNotFound)
    } else if !auth.contains(state.orders[order_id].temporary_wallet_address) {
        Some(ContractError::Unauthorized)
    } else if !state.pending_settlements.contains_key(order_id) {
        Some(ContractError::NoPendingSettlement)
    } else {
        None
    }
}

/// The transfers that pay out `pending`: the protocol fee to the treasury,
/// then the rest to the liquidity provider, each only if it is positive.
pub open spec fn settlement_transfers(
    order: OrderView,
    pending: PendingSettlementView,
    treasury: Seq<u8>,
) -> Seq<TransferView> {
    let to_treasury = if pending.protocol_fee > 0 {
        seq![
            TransferView {
                from: order.temporary_wallet_address,
                to: treasury,
                amount: pending.protocol_fee,
            },
        ]
    } else {
        Seq::empty()
    };
    let to_provider = if pending.transfer_amount > 0 {
        seq![
            TransferView {
                from: order.temporary_wallet_address,
                to: pending.liquidity_provider,
                amount: pending.transfer_amount,
            },
        ]
    } else {
        Seq::empty()
    };
    to_treasury + to_provider
}

/// The protocol once the settlement decided on the order under `order_id` has
/// been paid out: its record is gone.
pub open spec fn after_execute_settlement(state: LPState, order_id: Seq<u8>) -> LPState {
    LPState { pending_settlements: state.pending_settlements.remove(order_id), ..state }
}

/// Why the order under `order_id` cannot be refunded with `fee` retained, if
/// it cannot.
pub open spec fn refund_rejection(
    state: LPState,
    settings: SettingsView,
    auth: Set<Seq<u8>>,
    order_id: Seq<u8>,
    fee: int,
) -> Option<ContractError> {
    if settings.paused {
        Some(ContractError::Paused)
    } else if !auth.contains(settings.relayer) {
        Some(ContractError::Unauthorized)
    } else if !state.orders.contains_key(order_id) {
        Some(ContractError::OrderNotFound)
    } else {
        refund_error(state.orders[order_id], fee)
    }
}

/// The protocol once the order under `order_id` has been refunded with `fee`
/// retained: the order has ended, and the record of the refund stands.
pub open spec fn after_refund(state: LPState, order_id: Seq<u8>, fee: int) -> LPState {
    LPState {
        orders: state.orders.insert(order_id, refunded(state.orders[order_id])),
        pending_refunds: state.pending_refunds.insert(
            order_id,
            refund_of(state.orders[order_id], fee),
        ),
        ..state
    }
}

/// Why the refund decided on the order under `order_id` cannot be paid out,
/// if it cannot.
pub open spec fn execute_refund_rejection(state: LPState, auth: Set<Seq<u8>>, order_id: Seq<u8>)
    -> Option<ContractError> {
    if !state.orders.contains_key(order_id) {
        Some(ContractError::OrderNotFound)
    } else if !auth.contains(state.orders[order_id].temporary_wallet_address) {
        Some(ContractError::Unauthorized)
    } else if !state.pending_refunds.contains_key(order_id) {
        Some(ContractError::NoPendingRefund)
    } else {
        None
    }
}

/// The transfers that pay out `pending`: the retained fee to the treasury if
/// it is positive, then the rest to the refund address.
pub open spec fn refund_transfers(order: OrderView, pending: PendingRefundView, treasury: Seq<u8>)
    -> Seq<TransferView> {
    let to_treasury = if pending.fee > 0 {
        seq![
            TransferView {
                from: order.temporary_wallet_address,
                to: treasury,
                amount: pending.fee,
            },
        ]
    } else {
        Seq::empty()
    };
    to_treasury + seq![
        TransferView {
            from: order.temporary_wallet_address,
            to: order.refund_address,
            amount: pending.refund_amount,
        },
    ]
}

/// The protocol once the refund decided on the order under `order_id` has
/// been paid out: its record is gone.
pub open spec fn after_execute_refund(state: LPState, order_id: Seq<u8>) -> LPState {
    LPState { pending_refunds: state.pending_refunds.remove(order_id), ..state }
}

/// Every order of `state` is valid and kept under its own identifier.
pub open spec fn orders_valid(state: LPState) -> bool {
    forall|order_id: Seq<u8>| #[trigger]
        state.orders.contains_key(order_id) ==> order_wf(state.orders[order_id])
            && state.orders[order_id].order_id == order_id
}

/// Whatever operation is accepted, every order is valid after it if every
/// order was valid before it.
pub proof fn lemma_operations_keep_orders_valid(
    state: LPState,
    settings: SettingsView,
    auth: Set<Seq<u8>>,
    params: OrderParamsView,
    order_id: Seq<u8>,
    liquidity_provider: Seq<u8>,
    settle_percent: int,
    fee: int,
)
    requires
        orders_valid(state),
        0 <= settings.protocol_fee_percent <= settings.max_bps == MAX_BPS,
    ensures
        create_order_error(state, settings, auth, params) is None ==> orders_valid(
            after_create_order(state, settings, params),
        ),
        settle_rejection(state, settings, auth, order_id, settle_percent) is None ==> orders_valid(
            after_settle(state, settings, order_id, liquidity_provider, settle_percent),
        ),
        refund_rejection(state, settings, auth, order_id, fee) is None ==> orders_valid(
            after_refund(state, order_id, fee),
        ),
        orders_valid(after_execute_settlement(state, order_id)),
        orders_valid(after_execute_refund(state, order_id)),
{
    if create_order_error(state, settings, auth, params) is None {
        let next = after_create_order(state, settings, params);
        assert forall|id: Seq<u8>| #[trigger] next.orders.contains_key(id) implies order_wf(
            next.orders[id],
        ) && next.orders[id].order_id == id by {
            if id != params.order_id {
                assert(state.orders.contains_key(id));
            }
        }
    }
    if settle_rejection(state, settings, auth, order_id, settle_percent) is None {
        assert(state.orders.contains_key(order_id));
        lemma_settled_wf(state.orders[order_id], settle_percent);
        let next = after_settle(state, settings, order_id, liquidity_provider, settle_percent);
        assert forall|id: Seq<u8>| #[trigger] next.orders.contains_key(id) implies order_wf(
            next.orders[id],
        ) && next.orders[id].order_id == id by {
            if id != order_id {
                assert(state.orders.contains_key(id));
            }
        }
    }
    if refund_rejection(state, settings, auth, order_id, fee) is None {
        assert(state.orders.contains_key(order_id));
        let next = after_refund(state, order_id, fee);
        assert forall|id: Seq<u8>| #[trigger] next.orders.contains_key(id) implies order_wf(
            next.orders[id],
        ) && next.orders[id].order_id == id by {
            if id != order_id {
                assert(state.orders.contains_key(id));
            }
        }
    }
}

/// A settlement is paid out once: after it has been paid out, a second
/// attempt finds no record of it and is turned down.
pub proof fn lemma_settlement_paid_once(state: LPState, auth: Set<Seq<u8>>, order_id: Seq<u8>)
    requires
        execute_settlement_rejection(state, auth, order_id) is None,
    ensures
        execute_settlement_rejection(after_execute_settlement(state, order_id), auth, order_id)
            == Some(ContractError::NoPendingSettlement),
{
}

/// A refund is paid out once: after it has been paid out, a second attempt
/// finds no record of it and is turned down.
pub proof fn lemma_refund_paid_once(state: LPState, auth: Set<Seq<u8>>, order_id: Seq<u8>)
    requires
        execute_refund_rejection(state, auth, order_id) is None,
    ensures
        execute_refund_rejection(after_execute_refund(state, order_id), auth, order_id) == Some(
            ContractError::NoPendingRefund,
        ),
{
}

/// While the relayer has authorized and the protocol is not paused, settling
/// more basis points than an open order has left is turned down as an invalid
/// settle percent.
pub proof fn lemma_settle_beyond_remaining(
    state: LPState,
    settings: SettingsView,
    auth: Set<Seq<u8>>,
    order_id: Seq<u8>,
    settle_percent: int,
)
    requires
        !settings.paused,
        auth.contains(settings.relayer),
        state.orders.contains_key(order_id),
        !is_terminal(state.orders[order_id]),
        settle_percent > state.orders[order_id].current_bps,
    ensures
        settle_rejection(state, settings, auth, order_id, settle_percent) == Some(
            ContractError::InvalidSettlePercent,
        ),
{
}

/// While the relayer has authorized and the protocol is not paused, a refund
/// of an open order that retains more than the order's protocol fee is turned
/// down.
pub proof fn lemma_refund_fee_beyond_protocol_fee(
    state: LPState,
    settings: SettingsView,
    auth: Set<Seq<u8>>,
    order_id: Seq<u8>,
    fee: int,
)
    requires
        !settings.paused,
        auth.contains(settings.relayer),
        state.orders.contains_key(order_id),
        !is_terminal(state.orders[order_id]),
        fee > state.orders[order_id].protocol_fee,
    ensures
        refund_rejection(state, settings, auth, order_id, fee) == Some(
            ContractError::FeeExceedsProtocolFee,
        ),
{
}

/// While the protocol is paused no order is made, settled or refunded.
pub proof fn lemma_paused_takes_no_commitment(
    state: LPState,
    settings: SettingsView,
    auth: Set<Seq<u8>>,
    params: OrderParamsView,
    order_id: Seq<u8>,
    settle_percent: int,
    fee: int,
)
    requires
        settings.paused,
    ensures
        create_order_error(state, settings, auth, params) is Some,
        settle_rejection(state, settings, auth, order_id, settle_percent) == Some(
            ContractError::Paused,
        ),
        refund_rejection(state, settings, auth, order_id, fee) == Some(ContractError::Paused),
{
}

/// An order that has been fulfilled or refunded takes no further settlement
/// and no further refund.
pub proof fn lemma_terminal_order_stays(
    state: LPState,
    settings: SettingsView,
    auth: Set<Seq<u8>>,
    order_id: Seq<u8>,
    settle_percent: int,
    fee: int,
)
    requires
        state.orders.contains_key(order_id),
        is_terminal(state.orders[order_id]),
    ensures
        settle_rejection(state, settings, auth, order_id, settle_percent) is Some,
        refund_rejection(state, settings, auth, order_id, fee) is Some,
{
}

impl LPContract {
    /// The protocol's validity: every order is valid and kept under its own
    /// identifier, and no count of orders is negative.
    pub closed spec fn wf(&self) -> bool {
        &&& self.orders.wf()
        &&& self.pending_settlements.wf()
        &&& self.pending_refunds.wf()
        &&& self.nonces.wf()
        &&& self.nodes.wf()
        &&& forall|sender: Seq<u8>| #[trigger]
            self.nonces@.contains_key(sender) ==> 0 <= self.nonces@[sender]
    }

    /// Whether `init` has run.
    pub open spec fn is_initialized(&self) -> bool {
        self@.config is Some
    }

    /// At every moment each order is valid: its amount is not negative, it is
    /// not both fulfilled and refunded, and it has no basis points left
    /// exactly when it is one of the two.
    pub proof fn lemma_orders_valid(&self, order_id: Seq<u8>)
        requires
            self.wf(),
            self@.orders.contains_key(order_id),
        ensures
            order_wf(self@.orders[order_id]),
            self@.orders[order_id].order_id == order_id,
            0 <= self@.orders[order_id].amount,
            !(self@.orders[order_id].is_fulfilled && self@.orders[order_id].is_refunded),
            self@.orders[order_id].current_bps == 0 <==> (self@.orders[order_id].is_fulfilled
                || self@.orders[order_id].is_refunded),
    {
        self.orders.lemma_orders_valid(order_id);
    }

    /// At every moment all orders are valid.
    pub proof fn lemma_all_orders_valid(&self)
        requires
            self.wf(),
        ensures
            orders_valid(self@),
    {
        assert forall|id: Seq<u8>| #[trigger] self@.orders.contains_key(id) implies order_wf(
            self@.orders[id],
        ) && self@.orders[id].order_id == id by {
            self.orders.lemma_orders_valid(id);
        }
    }

    /// The protocol before `init`, with nothing in it.
    pub fn new() -> (contract: LPContract)
        ensures
            contract.wf(),
            contract@ == (LPState {
                config: None,
                orders: Map::empty(),
                pending_settlements: Map::empty(),
                pending_refunds: Map::empty(),
                nonces: Map::empty(),
                nodes: Map::empty(),
            }),
    {
        let contract = LPContract {
            config: None,
            orders: OrderStore::new(),
            pending_settlements: ByteMap::new(),
            pending_refunds: ByteMap::new(),
            nonces: ByteMap::new(),
            nodes: ByteMap::new(),
        };
        proof {
            lemma_viewed_empty::<PendingSettlement>();
            lemma_viewed_empty::<PendingRefund>();
        }
        contract
    }

    /// Sets the protocol up with its administrator, the token it moves and
    /// the address of its settings.
    pub fn init(
        &mut self,
        auth: &Auth,
        admin: Address,
        usdc_asset: Address,
        settings_contract: Address,
    )
        requires
            old(self).wf(),
            !old(self).is_initialized(),
            auth@.contains(admin@),
        ensures
            final(self).wf(),
            final(self)@ == (LPState {
                config: Some(
                    ConfigView {
                        admin: admin@,
                        usdc: usdc_asset@,
                        settings_contract: settings_contract@,
                    },
                ),
                ..old(self)@
            }),
    {
        self.config = Some(Config { admin, usdc: usdc_asset, settings_contract });
    }

    /// Registers a liquidity provider node with its capacity. A capacity that
    /// is not positive, and an identifier that is already registered, are
    /// turned down.
    pub fn register_lp_node(&mut self, lp_node_id: Vec<u8>, capacity: i128) -> (result: Result<
        Effects,
        ContractError,
    >)
        requires
            old(self).wf(),
        ensures
            final(self).wf(),
            match result {
                Ok(effects) => {
                    &&& register_lp_node_error(old(self)@, lp_node_id@, capacity as int) is None
                    &&& final(self)@ == (LPState {
                        nodes: old(self)@.nodes.insert(lp_node_id@, LpNode { capacity }),
                        ..old(self)@
                    })
                    &&& effects@ == (EffectsView {
                        transfers: Seq::empty(),
                        event: EventView::LpNodeRegistered {
                            lp_node_id: lp_node_id@,
                            capacity: capacity as int,
                        },
                    })
                },
                Err(e) => {
                    &&& register_lp_node_error(old(self)@, lp_node_id@, capacity as int) == Some(e)
                    &&& final(self)@ == old(self)@
                },
            },
    {
        if capacity <= 0 {
            return Err(ContractError::InvalidLpNodeParameters);
        }
        if self.nodes.contains_key(&lp_node_id) {
            return Err(ContractError::LpNodeIdAlreadyExists);
        }
        let key = bytes_clone(&lp_node_id);
        self.nodes.insert(key, LpNode { capacity });
        let effects = Effects {
            transfers: Vec::new(),
            event: Event::LpNodeRegistered { lp_node_id, capacity },
        };
        assert(effects@.transfers =~= Seq::empty());
        Ok(effects)
    }

    /// Makes an order: the sender pledges `params.amount`, which is to move
    /// to the temporary wallet, and the sender's count of orders goes up by
    /// one.
    pub fn create_order(&mut self, settings: &Settings, auth: &Auth, params: OrderParams) -> (result:
        Result<Effects, ContractError>)
        requires
            old(self).wf(),
            old(self).is_initialized(),
            settings.wf(),
            create_order_error(old(self)@, settings@, auth@, params@) is None ==> nonce_of(
                old(self)@,
                params@.sender,
            ) < i128::MAX,
        ensures
            final(self).wf(),
            match result {
                Ok(effects) => {
                    &&& create_order_error(old(self)@, settings@, auth@, params@) is None
                    &&& final(self)@ == after_create_order(old(self)@, settings@, params@)
                    &&& effects@ == create_order_effects(settings@, params@)
                },
                Err(e) => {
                    &&& create_order_error(old(self)@, settings@, auth@, params@) == Some(e)
                    &&& final(self)@ == old(self)@
                },
            },
    {
        if !auth.has(&params.sender) {
            return Err(ContractError::Unauthorized);
        }
        if settings.paused {
            return Err(ContractError::Paused);
        }
        if params.amount <= 0 {
            return Err(ContractError::InvalidAmount);
        }
        if params.message_hash.len() == 0 {
            return Err(ContractError::InvalidMessageHash);
        }
        if self.orders.has(&params.order_id) {
            return Err(ContractError::OrderAlreadyExists);
        }
        let usdc = match &self.config {
            Some(config) => config.usdc.clone(),
            None => Address::new(Vec::new()),
        };
        proof {
            lemma_share_bounds(
                params.amount as int,
                settings.protocol_fee_percent as int,
                settings.max_bps as int,
            );
        }
        let protocol_fee: i128 = mul_div_floor(
            params.amount,
            settings.protocol_fee_percent as i128,
            settings.max_bps as i128,
        );
        let mut transfers: Vec<Transfer> = Vec::new();
        transfers.push(
            Transfer {
                from: params.sender.clone(),
                to: params.temporary_wallet_address.clone(),
                amount: params.amount,
            },
        );
        let event = Event::OrderCreated {
            order_id: bytes_clone(&params.order_id),
            sender: params.sender.clone(),
            refund_address: params.refund_address.clone(),
            amount: params.amount,
            protocol_fee,
            rate: params.rate,
            message_hash: bytes_clone(&params.message_hash),
        };
        let sender_key = bytes_clone(&params.sender.key);
        let order = Order {
            order_id: params.order_id,
            sender: params.sender,
            token: usdc,
            temporary_wallet_address: params.temporary_wallet_address,
            protocol_fee,
            is_fulfilled: false,
            is_refunded: false,
            refund_address: params.refund_address,
            current_bps: settings.max_bps as i128,
            amount: params.amount,
            rate: params.rate,
            message_hash: params.message_hash,
        };
        self.orders.put(order);
        let nonce: i128 = match self.nonces.get(&sender_key) {
            Some(nonce) => *nonce,
            None => 0,
        };
        self.nonces.insert(sender_key, nonce + 1);
        let effects = Effects { transfers, event };
        proof {
            assert(effects@.transfers =~= create_order_effects(settings@, params@).transfers);
        }
        Ok(effects)
    }

    /// Decides a settlement: `settle_percent` basis points of the order under
    /// `order_id` are settled for `liquidity_provider`. The order gives up its
    /// share and the record of what is to be paid is kept; no value moves.
    pub fn settle(
        &mut self,
        settings: &Settings,
        auth: &Auth,
        order_id: Vec<u8>,
        liquidity_provider: Address,
        settle_percent: i128,
    ) -> (result: Result<Effects, ContractError>)
        requires
            old(self).wf(),
            settings.wf(),
        ensures
            final(self).wf(),
            match result {
                Ok(effects) => {
                    &&& settle_rejection(
                        old(self)@,
                        settings@,
                        auth@,
                        order_id@,
                        settle_percent as int,
                    ) is None
                    &&& final(self)@ == after_settle(
                        old(self)@,
                        settings@,
                        order_id@,
                        liquidity_provider@,
                        settle_percent as int,
                    )
                    &&& effects@ == (EffectsView {
                        transfers: Seq::empty(),
                        event: EventView::OrderSettled {
                            order_id: order_id@,
                            liquidity_provider: liquidity_provider@,
                            settle_percent: settle_percent as int,
                        },
                    })
                },
                Err(e) => {
                    &&& settle_rejection(
                        old(self)@,
                        settings@,
                        auth@,
                        order_id@,
                        settle_percent as int,
                    ) == Some(e)
                    &&& final(self)@ == old(self)@
                },
            },
    {
        if settings.paused {
            return Err(ContractError::Paused);
        }
        if !auth.has(&settings.relayer) {
            return Err(ContractError::Unauthorized);
        }
        if settle_percent <= 0 || settle_percent > MAX_BPS as i128 {
            return Err(ContractError::InvalidSettlePercent);
        }
        let mut order = match self.orders.get(&order_id) {
            Ok(order) => order,
            Err(e) => {
                return Err(e);
            },
        };
        proof {
            self.orders.lemma_orders_valid(order_id@);
        }
        let pending = match order.settle(liquidity_provider.clone(), settle_percent, settings) {
            Ok(pending) => pending,
            Err(e) => {
                return Err(e);
            },
        };
        proof {
            lemma_viewed_insert(self.pending_settlements@, order_id@, pending);
        }
        self.pending_settlements.insert(bytes_clone(&order_id), pending);
        self.orders.put(order);
        let effects = Effects {
            transfers: Vec::new(),
            event: Event::OrderSettled { order_id, liquidity_provider, settle_percent },
        };
        assert(effects@.transfers =~= Seq::empty());
        Ok(effects)
    }

    /// Pays out the settlement decided on the order under `order_id`: hands
    /// back the transfers that it calls for, the protocol fee going to
    /// `treasury`, and drops its record, so that it cannot be paid out twice.
    /// This is done whether or not the protocol is paused.
    pub fn execute_settlement_transfer(&mut self, auth: &Auth, order_id: Vec<u8>, treasury: &Address)
        -> (result: Result<Effects, ContractError>)
        requires
            old(self).wf(),
        ensures
            final(self).wf(),
            match result {
                Ok(effects) => {
                    &&& execute_settlement_rejection(old(self)@, auth@, order_id@) is None
                    &&& final(self)@ == after_execute_settlement(old(self)@, order_id@)
                    &&& effects@ == (EffectsView {
                        transfers: settlement_transfers(
                            old(self)@.orders[order_id@],
                            old(self)@.pending_settlements[order_id@],
                            treasury@,
                        ),
                        event: EventView::SettlementTransferred {
                            order_id: order_id@,
                            settle_percent: old(self)@.pending_settlements[order_id@].settle_percent,
                        },
                    })
                },
                Err(e) => {
                    &&& execute_settlement_rejection(old(self)@, auth@, order_id@) == Some(e)
                    &&& final(self)@ == old(self)@
                },
            },
    {
        let order = match self.orders.get(&order_id) {
            Ok(order) => order,
            Err(e) => {
                return Err(e);
            },
        };
        if !auth.has(&order.temporary_wallet_address) {
            return Err(ContractError::Unauthorized);
        }
        if !self.pending_settlements.contains_key(&order_id) {
            return Err(ContractError::NoPendingSettlement);
        }
        proof {
            lemma_viewed_remove(self.pending_settlements@, order_id@);
        }
        let pending = match self.pending_settlements.remove(&order_id) {
            Some(pending) => pending,
            None => {
                return Err(ContractError::NoPendingSettlement);
            },
        };
        let mut transfers: Vec<Transfer> = Vec::new();
        if pending.protocol_fee > 0 {
            transfers.push(
                Transfer {
                    from: order.temporary_wallet_address.clone(),
                    to: treasury.clone(),
                    amount: pending.protocol_fee,
                },
            );
        }
        if pending.transfer_amount > 0 {
            transfers.push(
                Transfer {
                    from: order.temporary_wallet_address.clone(),
                    to: pending.liquidity_provider.clone(),
                    amount: pending.transfer_amount,
                },
            );
        }
        let effects = Effects {
            transfers,
            event: Event::SettlementTransferred {
                order_id,
                settle_percent: pending.settle_percent,
            },
        };
        proof {
            assert(effects@.transfers =~= settlement_transfers(
                order@,
                pending@,
                treasury@,
            ));
        }
        Ok(effects)
    }

    /// Decides a refund: the order under `order_id` ends, with `fee` of its
    /// remaining amount retained by the protocol. The record of what is to be
    /// paid back is kept; no value moves.
    pub fn refund(&mut self, settings: &Settings, auth: &Auth, order_id: Vec<u8>, fee: i128) -> (result:
        Result<Effects, ContractError>)
        requires
            old(self).wf(),
            refund_rejection(old(self)@, settings@, auth@, order_id@, fee as int) is None
                ==> old(self)@.orders[order_id@].amount - fee <= i128::MAX,
        ensures
            final(self).wf(),
            match result {
                Ok(effects) => {
                    &&& refund_rejection(old(self)@, settings@, auth@, order_id@, fee as int) is None
                    &&& final(self)@ == after_refund(old(self)@, order_id@, fee as int)
                    &&& effects@ == (EffectsView {
                        transfers: Seq::empty(),
                        event: EventView::OrderRefunded { order_id: order_id@, fee: fee as int },
                    })
                },
                Err(e) => {
                    &&& refund_rejection(old(self)@, settings@, auth@, order_id@, fee as int)
                        == Some(e)
                    &&& final(self)@ == old(self)@
                },
            },
    {
        if settings.paused {
            return Err(ContractError::Paused);
        }
        if !auth.has(&settings.relayer) {
            return Err(ContractError::Unauthorized);
        }
        let mut order = match self.orders.get(&order_id) {
            Ok(order) => order,
            Err(e) => {
                return Err(e);
            },
        };
        proof {
            self.orders.lemma_orders_valid(order_id@);
        }
        let pending = match order.refund(fee) {
            Ok(pending) => pending,
            Err(e) => {
                return Err(e);
            },
        };
        proof {
            lemma_viewed_insert(self.pending_refunds@, order_id@, pending);
        }
        self.pending_refunds.insert(bytes_clone(&order_id), pending);
        self.orders.put(order);
        let effects = Effects {
            transfers: Vec::new(),
            event: Event::OrderRefunded { order_id, fee },
        };
        assert(effects@.transfers =~= Seq::empty());
        Ok(effects)
    }

    /// Pays out the refund decided on the order under `order_id`: hands back
    /// the transfers that it calls for, the retained fee going to `treasury`,
    /// and drops its record, so that it cannot be paid out twice. This is done
    /// whether or not the protocol is paused.
    pub fn execute_refund_transfer(&mut self, auth: &Auth, order_id: Vec<u8>, treasury: &Address)
        -> (result: Result<Effects, ContractError>)
        requires
            old(self).wf(),
        ensures
            final(self).wf(),
            match result {
                Ok(effects) => {
                    &&& execute_refund_rejection(old(self)@, auth@, order_id@) is None
                    &&& final(self)@ == after_execute_refund(old(self)@, order_id@)
                    &&& effects@ == (EffectsView {
                        transfers: refund_transfers(
                            old(self)@.orders[order_id@],
                            old(self)@.pending_refunds[order_id@],
                            treasury@,
                        ),
                        event: EventView::RefundTransferred {
                            order_id: order_id@,
                            refund_amount: old(self)@.pending_refunds[order_id@].refund_amount,
                        },
                    })
                },
                Err(e) => {
                    &&& execute_refund_rejection(old(self)@, auth@, order_id@) == Some(e)
                    &&& final(self)@ == old(self)@
                },
            },
    {
        let order = match self.orders.get(&order_id) {
            Ok(order) => order,
            Err(e) => {
                return Err(e);
            },
        };
        if !auth.has(&order.temporary_wallet_address) {
            return Err(ContractError::Unauthorized);
        }
        if !self.pending_refunds.contains_key(&order_id) {
            return Err(ContractError::NoPendingRefund);
        }
        proof {
            lemma_viewed_remove(self.pending_refunds@, order_id@);
        }
        let pending = match self.pending_refunds.remove(&order_id) {
            Some(pending) => pending,
            None => {
                return Err(ContractError::NoPendingRefund);
            },
        };
        let mut transfers: Vec<Transfer> = Vec::new();
        if pending.fee > 0 {
            transfers.push(
                Transfer {
                    from: order.temporary_wallet_address.clone(),
                    to: treasury.clone(),
                    amount: pending.fee,
                },
            );
        }
        transfers.push(
            Transfer {
                from: order.temporary_wallet_address.clone(),
                to: order.refund_address.clone(),
                amount: pending.refund_amount,
            },
        );
        let effects = Effects {
            transfers,
            event: Event::RefundTransferred { order_id, refund_amount: pending.refund_amount },
        };
        proof {
            assert(effects@.transfers =~= refund_transfers(order@, pending@, treasury@));
        }
        Ok(effects)
    }

    /// The party whose authorization a settlement or a refund asks for: the
    /// relayer, unless the protocol is paused, when none is asked for.
    pub fn commitment_authorizer(settings: &Settings) -> (signer: Option<Address>)
        ensures
            match signer {
                Some(who) => !settings.paused && who@ == settings.relayer@,
                None => settings.paused,
            },
    {
        if settings.paused {
            None
        } else {
            Some(settings.relayer.clone())
        }
    }

    /// The party whose authorization the paying out of a settlement or a
    /// refund asks for: the temporary wallet of the order under `order_id`,
    /// if there is such an order.
    pub fn transfer_authorizer(&self, order_id: &Vec<u8>) -> (signer: Option<Address>)
        requires
            self.wf(),
        ensures
            match signer {
                Some(who) => self@.orders.contains_key(order_id@) && who@
                    == self@.orders[order_id@].temporary_wallet_address,
                None => !self@.orders.contains_key(order_id@),
            },
    {
        match self.orders.get(order_id) {
            Ok(order) => Some(order.temporary_wallet_address),
            Err(_) => None,
        }
    }

    /// Puts back an order that was kept elsewhere, under its identifier.
    pub fn restore_order(&mut self, order: Order)
        requires
            old(self).wf(),
            order.wf(),
        ensures
            final(self).wf(),
            final(self)@ == (LPState {
                orders: old(self)@.orders.insert(order.order_id@, order@),
                ..old(self)@
            }),
    {
        self.orders.put(order);
    }

    /// Puts back the record of a settlement that was kept elsewhere, under
    /// the identifier of its order.
    pub fn restore_pending_settlement(&mut self, pending: PendingSettlement)
        requires
            old(self).wf(),
        ensures
            final(self).wf(),
            final(self)@ == (LPState {
                pending_settlements: old(self)@.pending_settlements.insert(
                    pending.order_id@,
                    pending@,
                ),
                ..old(self)@
            }),
    {
        let key = bytes_clone(&pending.order_id);
        proof {
            lemma_viewed_insert(self.pending_settlements@, key@, pending);
        }
        self.pending_settlements.insert(key, pending);
    }

    /// Puts back the record of a refund that was kept elsewhere, under the
    /// identifier of its order.
    pub fn restore_pending_refund(&mut self, pending: PendingRefund)
        requires
            old(self).wf(),
        ensures
            final(self).wf(),
            final(self)@ == (LPState {
                pending_refunds: old(self)@.pending_refunds.insert(pending.order_id@, pending@),
                ..old(self)@
            }),
    {
        let key = bytes_clone(&pending.order_id);
        proof {
            lemma_viewed_insert(self.pending_refunds@, key@, pending);
        }
        self.pending_refunds.insert(key, pending);
    }

    /// Puts back a sender's count of orders that was kept elsewhere.
    pub fn restore_nonce(&mut self, sender: &Address, nonce: i128)
        requires
            old(self).wf(),
            nonce >= 0,
        ensures
            final(self).wf(),
            final(self)@ == (LPState {
                nonces: old(self)@.nonces.insert(sender@, nonce),
                ..old(self)@
            }),
    {
        self.nonces.insert(bytes_clone(&sender.key), nonce);
    }

    /// Puts back a registered node that was kept elsewhere.
    pub fn restore_lp_node(&mut self, lp_node_id: Vec<u8>, node: LpNode)
        requires
            old(self).wf(),
        ensures
            final(self).wf(),
            final(self)@ == (LPState {
                nodes: old(self)@.nodes.insert(lp_node_id@, node),
                ..old(self)@
            }),
    {
        self.nodes.insert(lp_node_id, node);
    }

    /// The identifier of the order kept under `order_id`.
    pub fn get_order_id(&self, order_id: &Vec<u8>) -> (result: Result<Vec<u8>, ContractError>)
        requires
            self.wf(),
        ensures
            match result {
                Ok(id) => self@.orders.contains_key(order_id@) && id@ == order_id@,
                Err(e) => !self@.orders.contains_key(order_id@) && e
                    == ContractError::OrderNotFound,
            },
    {
        match self.orders.get(order_id) {
            Ok(order) => {
                proof {
                    self.orders.lemma_orders_valid(order_id@);
                }
                Ok(order.order_id)
            },
            Err(e) => Err(e),
        }
    }

    /// A copy of the order kept under `order_id`.
    pub fn get_order_info(&self, order_id: &Vec<u8>) -> (result: Result<Order, ContractError>)
        requires
            self.wf(),
        ensures
            match result {
                Ok(order) => self@.orders.contains_key(order_id@) && order@
                    == self@.orders[order_id@] && order.wf(),
                Err(e) => !self@.orders.contains_key(order_id@) && e
                    == ContractError::OrderNotFound,
            },
    {
        self.orders.get(order_id)
    }

    /// The protocol fee and the whole, both in basis points, as the settings
    /// give them.
    pub fn get_lp_fee_details(&self, settings: &Settings) -> (details: (i64, i64))
        ensures
            details.0 == settings.protocol_fee_percent,
            details.1 == settings.max_bps,
    {
        (settings.protocol_fee_percent, settings.max_bps)
    }

    /// The settlement decided on the order under `order_id` and not yet paid
    /// out, if there is one.
    pub fn get_pending_settlement(&self, order_id: &Vec<u8>) -> (pending: Option<PendingSettlement>)
        requires
            self.wf(),
        ensures
            match pending {
                Some(record) => self@.pending_settlements.contains_key(order_id@) && record@
                    == self@.pending_settlements[order_id@],
                None => !self@.pending_settlements.contains_key(order_id@),
            },
    {
        match self.pending_settlements.get(order_id) {
            Some(record) => Some(record.clone()),
            None => None,
        }
    }

    /// The refund decided on the order under `order_id` and not yet paid out,
    /// if there is one.
    pub fn get_pending_refund(&self, order_id: &Vec<u8>) -> (pending: Option<PendingRefund>)
        requires
            self.wf(),
        ensures
            match pending {
                Some(record) => self@.pending_refunds.contains_key(order_id@) && record@
                    == self@.pending_refunds[order_id@],
                None => !self@.pending_refunds.contains_key(order_id@),
            },
    {
        match self.pending_refunds.get(order_id) {
            Some(record) => Some(record.clone()),
            None => None,
        }
    }

    /// What the protocol was set up with, if `init` has run.
    pub fn get_config(&self) -> (config: Option<Config>)
        ensures
            match config {
                Some(found) => self@.config == Some(found@),
                None => self@.config is None,
            },
    {
        match &self.config {
            Some(config) => Some(
                Config {
                    admin: config.admin.clone(),
                    usdc: config.usdc.clone(),
                    settings_contract: config.settings_contract.clone(),
                },
            ),
            None => None,
        }
    }

    /// How many orders `sender` has made.
    pub fn get_nonce(&self, sender: &Address) -> (nonce: i128)
        requires
            self.wf(),
        ensures
            nonce == nonce_of(self@, sender@),
    {
        match self.nonces.get(&sender.key) {
            Some(nonce) => *nonce,
            None => 0,
        }
    }

    /// The node registered under `lp_node_id`, if there is one.
    pub fn get_lp_node(&self, lp_node_id: &Vec<u8>) -> (node: Option<LpNode>)
        requires
            self.wf(),
        ensures
            node == (if self@.nodes.contains_key(lp_node_id@) {
                Some(self@.nodes[lp_node_id@])
            } else {
                None
            }),
    {
        match self.nodes.get(lp_node_id) {
            Some(node) => Some(*node),
            None => None,
        }
    }
}

} // verus!
