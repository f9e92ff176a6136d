use vstd::prelude::*;
use crate::address::Address;
use crate::address::bytes_clone;
use crate::fee::share_of;
use crate::fee::fee_of;
use crate::fee::transfer_amount_of;
use crate::fee::lemma_share_bounds;
use crate::fee::mul_div_floor;
use crate::liquidity_manager::MAX_BPS;
use crate::liquidity_manager::Settings;
use crate::liquidity_provider::error::ContractError;
use crate::liquidity_provider::storage_types::Order;
use crate::liquidity_provider::storage_types::OrderView;
use crate::liquidity_provider::storage_types::PendingRefund;
use crate::liquidity_provider::storage_types::PendingRefundView;
use crate::liquidity_provider::storage_types::PendingSettlement;
use crate::liquidity_provider::storage_types::PendingSettlementView;

verus! {

/// An order is valid when its remaining amount is not negative, its remaining
/// basis points are a share of the whole, it is not both fulfilled and
/// refunded, and it has no basis points left exactly when it is one of the two.
pub open spec fn order_wf(order: OrderView) -> bool {
    &&& 0 <= order.amount
    &&& 0 <= order.current_bps <= MAX_BPS
    &&& !(order.is_fulfilled && order.is_refunded)
    &&& (order.current_bps == 0 <==> (order.is_fulfilled || order.is_refunded))
}

/// An order is terminal once it is fulfilled or refunded.
pub open spec fn is_terminal(order: OrderView) -> bool {
    order.is_fulfilled || order.is_refunded
}

/// Why `settle_percent` of `order` cannot be settled, if it cannot.
pub open spec fn settle_error(order: OrderView, settle_percent: int) -> Option<ContractError> {
    if settle_percent <= 0 || settle_percent > MAX_BPS {
        Some(ContractError::InvalidSettlePercent)
    } else if order.is_fulfilled {
        Some(ContractError::OrderFulfilled)
    } else if order.is_refunded {
        Some(ContractError::OrderRefunded)
    } else if settle_percent > order.current_bps {
        Some(ContractError::InvalidSettlePercent)
    } else {
        None
    }
}

/// What a liquidity provider settles, before fees: the share of the remaining
/// amount that `settle_percent` is of the remaining basis points.
pub open spec fn settle_gross(order: OrderView, settle_percent: int) -> int {
    share_of(order.amount, settle_percent, order.current_bps)
}

/// The order once `settle_percent` of it has been settled.
pub open spec fn settled(order: OrderView, settle_percent: int) -> OrderView {
    OrderView {
        amount: order.amount - settle_gross(order, settle_percent),
        current_bps: order.current_bps - settle_percent,
        is_fulfilled: order.current_bps - settle_percent == 0,
        ..order
    }
}

/// The record of a settlement of `settle_percent` of `order` by
/// `liquidity_provider`, with the protocol fee at `fee_percent` of `max_bps`.
pub open spec fn settlement_of(
    order: OrderView,
    liquidity_provider: Seq<u8>,
    settle_percent: int,
    fee_percent: int,
    max_bps: int,
) -> PendingSettlementView {
    let gross = settle_gross(order, settle_percent);
    PendingSettlementView {
        order_id: order.order_id,
        protocol_fee: fee_of(gross, fee_percent, max_bps),
        transfer_amount: transfer_amount_of(gross, fee_percent, max_bps),
        liquidity_provider,
        settle_percent,
    }
}

/// Why `order` cannot be refunded with `fee` retained, if it cannot.
pub open spec fn refund_error(order: OrderView, fee: int) -> Option<ContractError> {
    if order.is_fulfilled {
        Some(ContractError::OrderFulfilled)
    } else if order.is_refunded {
        Some(ContractError::OrderRefunded)
    } else if fee > order.protocol_fee {
        Some(ContractError::FeeExceedsProtocolFee)
    } else {
        None
    }
}

/// The order once it has been refunded.
pub open spec fn refunded(order: OrderView) -> OrderView {
    OrderView { is_refunded: true, current_bps: 0, amount: 0, ..order }
}

/// The record of a refund of `order` with `fee` retained.
pub open spec fn refund_of(order: OrderView, fee: int) -> PendingRefundView {
    PendingRefundView { order_id: order.order_id, fee, refund_amount: order.amount - fee }
}

/// A settlement that is accepted keeps the order valid, takes no more than
/// what remains, and fulfils the order exactly when it takes all the
/// remaining basis points, in which case it takes all the remaining amount.
pub proof fn lemma_settled_wf(order: OrderView, settle_percent: int)
    requires
        order_wf(order),
        settle_error(order, settle_percent) is None,
    ensures
        order_wf(settled(order, settle_percent)),
        0 <= settle_gross(order, settle_percent) <= order.amount,
        settled(order, settle_percent).is_fulfilled <==> settle_percent == order.current_bps,
        settle_percent == order.current_bps ==> settled(order, settle_percent).amount == 0,
        !settled(order, settle_percent).is_refunded,
{
    lemma_share_bounds(order.amount, settle_percent, order.current_bps);
}

/// A refund that is accepted keeps the order valid and ends it.
pub proof fn lemma_refunded_wf(order: OrderView, fee: int)
    requires
        order_wf(order),
        refund_error(order, fee) is None,
    ensures
        order_wf(refunded(order)),
        is_terminal(refunded(order)),
{
}

/// A settlement or a refund that is accepted never adds to what remains of an
/// order, and leaves its identifier, its parties, its protocol fee, its rate
/// and its message hash as they were.
pub proof fn lemma_order_only_shrinks(order: OrderView, settle_percent: int, fee: int)
    requires
        order_wf(order),
    ensures
        settle_error(order, settle_percent) is None ==> {
            let next = settled(order, settle_percent);
            &&& next.amount <= order.amount
            &&& next.current_bps < order.current_bps
            &&& next == (OrderView {
                amount: next.amount,
                current_bps: next.current_bps,
                is_fulfilled: next.is_fulfilled,
                ..order
            })
        },
        refund_error(order, fee) is None ==> {
            let next = refunded(order);
            &&& next.amount <= order.amount
            &&& next.current_bps < order.current_bps
            &&& next == (OrderView {
                amount: next.amount,
                current_bps: next.current_bps,
                is_refunded: next.is_refunded,
                ..order
            })
        },
{
    if settle_error(order, settle_percent) is None {
        lemma_settled_wf(order, settle_percent);
    }
}

/// What a settlement pays to the treasury and to the liquidity provider adds
/// up to what the order gives up, and neither part is negative, when the fee
/// is a share of the whole.
pub proof fn lemma_settlement_splits_gross(
    order: OrderView,
    liquidity_provider: Seq<u8>,
    settle_percent: int,
    fee_percent: int,
    max_bps: int,
)
    requires
        order_wf(order),
        settle_error(order, settle_percent) is None,
        0 <= fee_percent <= max_bps,
        0 < max_bps,
    ensures
        ({
            let pending = settlement_of(
                order,
                liquidity_provider,
                settle_percent,
                fee_percent,
                max_bps,
            );
            &&& pending.protocol_fee + pending.transfer_amount == order.amount - settled(
                order,
                settle_percent,
            ).amount
            &&& 0 <= pending.protocol_fee
            &&& 0 <= pending.transfer_amount
        }),
{
    lemma_settled_wf(order, settle_percent);
    lemma_share_bounds(settle_gross(order, settle_percent), fee_percent, max_bps);
}

/// A terminal order takes no settlement and no refund.
pub proof fn lemma_terminal_is_final(order: OrderView, settle_percent: int, fee: int)
    requires
        is_terminal(order),
    ensures
        settle_error(order, settle_percent) is Some,
        refund_error(order, fee) is Some,
{
}

/// The sum of `percents`.
pub open spec fn total_percent(percents: Seq<int>) -> int
    decreases percents.len(),
{
    if percents.len() == 0 {
        0
    } else {
        percents[0] + total_percent(percents.drop_first())
    }
}

/// Whether `percents`, settled one after the other against `order`, are all
/// accepted.
pub open spec fn all_accepted(order: OrderView, percents: Seq<int>) -> bool
    decreases percents.len(),
{
    if percents.len() == 0 {
        true
    } else {
        settle_error(order, percents[0]) is None && all_accepted(
            settled(order, percents[0]),
            percents.drop_first(),
        )
    }
}

/// The order once `percents` have been settled against it, one after the
/// other.
pub open spec fn settled_all(order: OrderView, percents: Seq<int>) -> OrderView
    decreases percents.len(),
{
    if percents.len() == 0 {
        order
    } else {
        settled_all(settled(order, percents[0]), percents.drop_first())
    }
}

/// Settlements that add up to the basis points an open order has left are all
/// accepted, leave nothing of its amount and fulfil it, however the basis
/// points are split among them.
pub proof fn lemma_settlements_exhaust_order(order: OrderView, percents: Seq<int>)
    requires
        order_wf(order),
        !is_terminal(order),
        forall|i: int| 0 <= i < percents.len() ==> percents[i] > 0,
        total_percent(percents) == order.current_bps,
    ensures
        all_accepted(order, percents),
        settled_all(order, percents).amount == 0,
        settled_all(order, percents).current_bps == 0,
        settled_all(order, percents).is_fulfilled,
        !settled_all(order, percents).is_refunded,
    decreases percents.len(),
{
    if percents.len() == 0 {
        assert(order.current_bps == 0);
    } else {
        let first = percents[0];
        let rest = percents.drop_first();
        assert forall|i: int| 0 <= i < rest.len() implies rest[i] > 0 by {
            assert(rest[i] == percents[i + 1]);
        }
        lemma_total_percent_positive(rest);
        lemma_settled_wf(order, first);
        let next = settled(order, first);
        if first == order.current_bps {
            assert(rest.len() == 0);
            assert(settled_all(next, rest) == next);
        } else {
            lemma_settlements_exhaust_order(next, rest);
        }
    }
}

/// What `percents`, settled one after the other against `order`, take from it
/// in all, before fees.
pub open spec fn settled_gross_total(order: OrderView, percents: Seq<int>) -> int
    decreases percents.len(),
{
    if percents.len() == 0 {
        0
    } else {
        settle_gross(order, percents[0]) + settled_gross_total(
            settled(order, percents[0]),
            percents.drop_first(),
        )
    }
}

/// Settlements that are all accepted keep the order valid, and take from it in
/// all exactly what it loses: never more than it had.
pub proof fn lemma_settlements_take_what_order_loses(order: OrderView, percents: Seq<int>)
    requires
        order_wf(order),
        all_accepted(order, percents),
    ensures
        order_wf(settled_all(order, percents)),
        settled_gross_total(order, percents) == order.amount - settled_all(order, percents).amount,
        0 <= settled_gross_total(order, percents) <= order.amount,
    decreases percents.len(),
{
    if percents.len() > 0 {
        lemma_settled_wf(order, percents[0]);
        lemma_settlements_take_what_order_loses(
            settled(order, percents[0]),
            percents.drop_first(),
        );
    }
}

/// Positive basis points add up to a positive sum, unless there are none.
pub proof fn lemma_total_percent_positive(percents: Seq<int>)
    requires
        forall|i: int| 0 <= i < percents.len() ==> percents[i] > 0,
    ensures
        total_percent(percents) >= 0,
        total_percent(percents) == 0 <==> percents.len() == 0,
    decreases percents.len(),
{
    if percents.len() > 0 {
        let rest = percents.drop_first();
        assert forall|i: int| 0 <= i < rest.len() implies rest[i] > 0 by {
            assert(rest[i] == percents[i + 1]);
        }
        lemma_total_percent_positive(rest);
    }
}

impl Order {
    /// Whether this order is valid.
    pub open spec fn wf(&self) -> bool {
        order_wf(self@)
    }

    /// Whether this order is valid.
    pub fn is_valid(&self) -> (valid: bool)
        ensures
            valid == self.wf(),
    {
        let in_range = 0 <= self.amount && 0 <= self.current_bps && self.current_bps
            <= MAX_BPS as i128;
        let terminal = self.is_fulfilled || self.is_refunded;
        in_range && !(self.is_fulfilled && self.is_refunded) && (self.current_bps == 0) == terminal
    }

    /// Settles `settle_percent` basis points of this order for
    /// `liquidity_provider`: the order gives up the matching share of its
    /// remaining amount, and the record of what is to be paid is handed back.
    /// No value moves yet.
    pub fn settle(
        &mut self,
        liquidity_provider: Address,
        settle_percent: i128,
        settings: &Settings,
    ) -> (result: Result<PendingSettlement, ContractError>)
        requires
            old(self).wf(),
            settings.wf(),
        ensures
            final(self).wf(),
            match result {
                Ok(pending) => {
                    &&& settle_error(old(self)@, settle_percent as int) is None
                    &&& final(self)@ == settled(old(self)@, settle_percent as int)
                    &&& pending@ == settlement_of(
                        old(self)@,
                        liquidity_provider@,
                        settle_percent as int,
                        settings.protocol_fee_percent as int,
                        settings.max_bps as int,
                    )
                },
                Err(e) => {
                    &&& settle_error(old(self)@, settle_percent as int) == Some(e)
                    &&& final(self)@ == old(self)@
                },
            },
    {
        if settle_percent <= 0 || settle_percent > MAX_BPS as i128 {
            return Err(ContractError::InvalidSettlePercent);
        }
        if self.is_fulfilled {
            return Err(ContractError::OrderFulfilled);
        }
        if self.is_refunded {
            return Err(ContractError::OrderRefunded);
        }
        if settle_percent > self.current_bps {
            return Err(ContractError::InvalidSettlePercent);
        }
        proof {
            lemma_settled_wf(self@, settle_percent as int);
        }
        let gross: i128 = mul_div_floor(self.amount, settle_percent, self.current_bps);
        proof {
            lemma_share_bounds(
                gross as int,
                settings.protocol_fee_percent as int,
                settings.max_bps as int,
            );
        }
        let protocol_fee: i128 = mul_div_floor(
            gross,
            settings.protocol_fee_percent as i128,
            settings.max_bps as i128,
        );
        let transfer_amount: i128 = gross - protocol_fee;
        self.current_bps = self.current_bps - settle_percent;
        self.amount = self.amount - gross;
        if self.current_bps == 0 {
            self.is_fulfilled = true;
        }
        Ok(
            PendingSettlement {
                order_id: bytes_clone(&self.order_id),
                protocol_fee,
                transfer_amount,
                liquidity_provider,
                settle_percent,
            },
        )
    }

    /// Refunds this order with `fee` retained by the protocol: the order ends,
    /// and the record of what is to be paid back is handed back. No value
    /// moves yet.
    pub fn refund(&mut self, fee: i128) -> (result: Result<PendingRefund, ContractError>)
        requires
            old(self).wf(),
            refund_error(old(self)@, fee as int) is None ==> old(self).amount - fee <= i128::MAX,
        ensures
            final(self).wf(),
            match result {
                Ok(pending) => {
                    &&& refund_error(old(self)@, fee as int) is None
                    &&& final(self)@ == refunded(old(self)@)
                    &&& pending@ == refund_of(old(self)@, fee as int)
                },
                Err(e) => {
                    &&& refund_error(old(self)@, fee as int) == Some(e)
                    &&& final(self)@ == old(self)@
                },
            },
    {
        if self.is_fulfilled {
            return Err(ContractError::OrderFulfilled);
        }
        if self.is_refunded {
            return Err(ContractError::OrderRefunded);
        }
        if fee > self.protocol_fee {
            return Err(ContractError::FeeExceedsProtocolFee);
        }
        let pending = PendingRefund {
            order_id: bytes_clone(&self.order_id),
            fee,
            refund_amount: self.amount - fee,
        };
        self.is_refunded = true;
        self.current_bps = 0;
        self.amount = 0;
        Ok(pending)
    }
}

} // verus!
