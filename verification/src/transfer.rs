use vstd::prelude::*;
use crate::address::Address;

verus! {

/// A movement of value that an operation calls for.
#[derive(Debug, PartialEq, Eq)]
pub struct Transfer {
    pub from: Address,
    pub to: Address,
    pub amount: i128,
}

/// What a transfer holds.
pub struct TransferView {
    pub from: Seq<u8>,
    pub to: Seq<u8>,
    pub amount: int,
}

impl View for Transfer {
    type V = TransferView;

    open spec fn view(&self) -> TransferView {
        TransferView { from: self.from@, to: self.to@, amount: self.amount as int }
    }
}

/// The transfers of `transfers`, in order, each seen through its view.
pub open spec fn transfers_view(transfers: Seq<Transfer>) -> Seq<TransferView> {
    Seq::new(transfers.len(), |i: int| transfers[i]@)
}

} // verus!
