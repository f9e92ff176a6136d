use vstd::prelude::*;
use crate::address::Address;
use crate::address::bytes_clone;
use crate::transfer::Transfer;
use crate::transfer::TransferView;
use crate::transfer::transfers_view;

verus! {

/// A registered liquidity provider node.
#[derive(Clone, Copy, Debug, PartialEq, Eq, Structural)]
pub struct LpNode {
    pub capacity: i128,
}

/// A settlement that has been decided and not yet paid out.
#[derive(Debug, PartialEq, Eq)]
pub struct PendingSettlement {
    pub order_id: Vec<u8>,
    pub protocol_fee: i128,
    pub transfer_amount: i128,
    pub liquidity_provider: Address,
    pub settle_percent: i128,
}

/// What a pending settlement holds.
pub struct PendingSettlementView {
    pub order_id: Seq<u8>,
    pub protocol_fee: int,
    pub transfer_amount: int,
    pub liquidity_provider: Seq<u8>,
    pub settle_percent: int,
}

impl View for PendingSettlement {
    type V = PendingSettlementView;

    open spec fn view(&self) -> PendingSettlementView {
        PendingSettlementView {
            order_id: self.order_id@,
            protocol_fee: self.protocol_fee as int,
            transfer_amount: self.transfer_amount as int,
            liquidity_provider: self.liquidity_provider@,
            settle_percent: self.settle_percent as int,
        }
    }
}

impl Clone for PendingSettlement {
    fn clone(&self) -> (copy: PendingSettlement)
        ensures
            copy@ == self@,
    {
        PendingSettlement {
            order_id: bytes_clone(&self.order_id),
            protocol_fee: self.protocol_fee,
            transfer_amount: self.transfer_amount,
            liquidity_provider: self.liquidity_provider.clone(),
            settle_percent: self.settle_percent,
        }
    }
}

/// A refund that has been decided and not yet paid out.
#[derive(Debug, PartialEq, Eq)]
pub struct PendingRefund {
    pub order_id: Vec<u8>,
    pub fee: i128,
    pub refund_amount: i128,
}

/// What a pending refund holds.
pub struct PendingRefundView {
    pub order_id: Seq<u8>,
    pub fee: int,
    pub refund_amount: int,
}

impl View for PendingRefund {
    type V = PendingRefundView;

    open spec fn view(&self) -> PendingRefundView {
        PendingRefundView {
            order_id: self.order_id@,
            fee: self.fee as int,
            refund_amount: self.refund_amount as int,
        }
    }
}

impl Clone for PendingRefund {
    fn clone(&self) -> (copy: PendingRefund)
        ensures
            copy@ == self@,
    {
        PendingRefund {
            order_id: bytes_clone(&self.order_id),
            fee: self.fee,
            refund_amount: self.refund_amount,
        }
    }
}

/// What a sender hands in to have an order made.
#[derive(Debug, PartialEq, Eq)]
pub struct OrderParams {
    pub order_id: Vec<u8>,
    pub token: Address,
    pub sender: Address,
    pub amount: i128,
    pub rate: i64,
    pub temporary_wallet_address: Address,
    pub refund_address: Address,
    pub message_hash: Vec<u8>,
}

/// What order parameters hold.
pub struct OrderParamsView {
    pub order_id: Seq<u8>,
    pub token: Seq<u8>,
    pub sender: Seq<u8>,
    pub amount: int,
    pub rate: int,
    pub temporary_wallet_address: Seq<u8>,
    pub refund_address: Seq<u8>,
    pub message_hash: Seq<u8>,
}

impl View for OrderParams {
    type V = OrderParamsView;

    open spec fn view(&self) -> OrderParamsView {
        OrderParamsView {
            order_id: self.order_id@,
            token: self.token@,
            sender: self.sender@,
            amount: self.amount as int,
            rate: self.rate as int,
            temporary_wallet_address: self.temporary_wallet_address@,
            refund_address: self.refund_address@,
            message_hash: self.message_hash@,
        }
    }
}

/// Funds pledged by a sender, waiting to be fulfilled by liquidity providers
/// or to be refunded.
#[derive(Debug, PartialEq, Eq)]
pub struct Order {
    pub order_id: Vec<u8>,
    pub sender: Address,
    pub token: Address,
    pub temporary_wallet_address: Address,
    pub protocol_fee: i128,
    pub is_fulfilled: bool,
    pub is_refunded: bool,
    pub refund_address: Address,
    pub current_bps: i128,
    pub amount: i128,
    pub rate: i64,
    pub message_hash: Vec<u8>,
}

/// What an order holds.
pub struct OrderView {
    pub order_id: Seq<u8>,
    pub sender: Seq<u8>,
    pub token: Seq<u8>,
    pub temporary_wallet_address: Seq<u8>,
    pub protocol_fee: int,
    pub is_fulfilled: bool,
    pub is_refunded: bool,
    pub refund_address: Seq<u8>,
    pub current_bps: int,
    pub amount: int,
    pub rate: int,
    pub message_hash: Seq<u8>,
}

impl View for Order {
    type V = OrderView;

    open spec fn view(&self) -> OrderView {
        OrderView {
            order_id: self.order_id@,
            sender: self.sender@,
            token: self.token@,
            temporary_wallet_address: self.temporary_wallet_address@,
            protocol_fee: self.protocol_fee as int,
            is_fulfilled: self.is_fulfilled,
            is_refunded: self.is_refunded,
            refund_address: self.refund_address@,
            current_bps: self.current_bps as int,
            amount: self.amount as int,
            rate: self.rate as int,
            message_hash: self.message_hash@,
        }
    }
}

impl Clone for Order {
    fn clone(&self) -> (copy: Order)
        ensures
            copy@ == self@,
    {
        Order {
            order_id: bytes_clone(&self.order_id),
            sender: self.sender.clone(),
            token: self.token.clone(),
            temporary_wallet_address: self.temporary_wallet_address.clone(),
            protocol_fee: self.protocol_fee,
            is_fulfilled: self.is_fulfilled,
            is_refunded: self.is_refunded,
            refund_address: self.refund_address.clone(),
            current_bps: self.current_bps,
            amount: self.amount,
            rate: self.rate,
            message_hash: bytes_clone(&self.message_hash),
        }
    }
}

/// What an operation tells the observers of the protocol.
#[derive(Debug, PartialEq, Eq)]
pub enum Event {
    OrderCreated {
        order_id: Vec<u8>,
        sender: Address,
        refund_address: Address,
        amount: i128,
        protocol_fee: i128,
        rate: i64,
        message_hash: Vec<u8>,
    },
    OrderSettled { order_id: Vec<u8>, liquidity_provider: Address, settle_percent: i128 },
    SettlementTransferred { order_id: Vec<u8>, settle_percent: i128 },
    OrderRefunded { order_id: Vec<u8>, fee: i128 },
    RefundTransferred { order_id: Vec<u8>, refund_amount: i128 },
    LpNodeRegistered { lp_node_id: Vec<u8>, capacity: i128 },
}

/// What an event holds.
pub enum EventView {
    OrderCreated {
        order_id: Seq<u8>,
        sender: Seq<u8>,
        refund_address: Seq<u8>,
        amount: int,
        protocol_fee: int,
        rate: int,
        message_hash: Seq<u8>,
    },
    OrderSettled { order_id: Seq<u8>, liquidity_provider: Seq<u8>, settle_percent: int },
    SettlementTransferred { order_id: Seq<u8>, settle_percent: int },
    OrderRefunded { order_id: Seq<u8>, fee: int },
    RefundTransferred { order_id: Seq<u8>, refund_amount: int },
    LpNodeRegistered { lp_node_id: Seq<u8>, capacity: int },
}

impl View for Event {
    type V = EventView;

    open spec fn view(&self) -> EventView {
        match *self {
            Event::OrderCreated {
                order_id,
                sender,
                refund_address,
                amount,
                protocol_fee,
                rate,
                message_hash,
            } => EventView::OrderCreated {
                order_id: order_id@,
                sender: sender@,
                refund_address: refund_address@,
                amount: amount as int,
                protocol_fee: protocol_fee as int,
                rate: rate as int,
                message_hash: message_hash@,
            },
            Event::OrderSettled {
                order_id,
                liquidity_provider,
                settle_percent,
            } => EventView::OrderSettled {
                order_id: order_id@,
                liquidity_provider: liquidity_provider@,
                settle_percent: settle_percent as int,
            },
            Event::SettlementTransferred {
                order_id,
                settle_percent,
            } => EventView::SettlementTransferred {
                order_id: order_id@,
                settle_percent: settle_percent as int,
            },
            Event::OrderRefunded { order_id, fee } => EventView::OrderRefunded {
                order_id: order_id@,
                fee: fee as int,
            },
            Event::RefundTransferred { order_id, refund_amount } => EventView::RefundTransferred {
                order_id: order_id@,
                refund_amount: refund_amount as int,
            },
            Event::LpNodeRegistered { lp_node_id, capacity } => EventView::LpNodeRegistered {
                lp_node_id: lp_node_id@,
                capacity: capacity as int,
            },
        }
    }
}

/// What an operation asks of the world around it: the transfers to make, in
/// order, and the event to publish.
#[derive(Debug, PartialEq, Eq)]
pub struct Effects {
    pub transfers: Vec<Transfer>,
    pub event: Event,
}

/// What the effects of an operation hold.
pub struct EffectsView {
    pub transfers: Seq<TransferView>,
    pub event: EventView,
}

impl View for Effects {
    type V = EffectsView;

    open spec fn view(&self) -> EffectsView {
        EffectsView {
            transfers: transfers_view(self.transfers@),
            event: self.event@,
        }
    }
}

} // verus!
