use vstd::prelude::*;
use crate::liquidity_provider::error::ContractError;
use crate::liquidity_provider::settlement::order_wf;
use crate::liquidity_provider::storage_types::Order;
use crate::liquidity_provider::storage_types::OrderView;
use crate::store::ByteMap;
use crate::store::viewed;
use crate::store::lemma_viewed_insert;

verus! {

/// The orders of the protocol, each kept under its identifier.
pub struct OrderStore {
    orders: ByteMap<Order>,
}

impl View for OrderStore {
    type V = Map<Seq<u8>, OrderView>;

    closed spec fn view(&self) -> Map<Seq<u8>, OrderView> {
        viewed(self.orders@)
    }
}

impl OrderStore {
    /// The store's validity: every order is valid and kept under its own
    /// identifier.
    pub closed spec fn wf(&self) -> bool {
        &&& self.orders.wf()
        &&& forall|id: Seq<u8>| #[trigger]
            self@.contains_key(id) ==> self@[id].order_id == id && order_wf(self@[id])
    }

    /// Every order of a valid store is valid, and kept under its own
    /// identifier.
    pub proof fn lemma_orders_valid(&self, id: Seq<u8>)
        requires
            self.wf(),
            self@.contains_key(id),
        ensures
            order_wf(self@[id]),
            self@[id].order_id == id,
    {
    }

    /// The store with no order in it.
    pub fn new() -> (store: OrderStore)
        ensures
            store.wf(),
            store@ == Map::<Seq<u8>, OrderView>::empty(),
    {
        let store = OrderStore { orders: ByteMap::new() };
        proof {
            assert(store@ =~= Map::<Seq<u8>, OrderView>::empty());
        }
        store
    }

    /// Whether an order is kept under `order_id`.
    pub fn has(&self, order_id: &Vec<u8>) -> (present: bool)
        ensures
            present == self@.contains_key(order_id@),
    {
        self.orders.contains_key(order_id)
    }

    /// Keeps a new order. An identifier that is already in use is turned down,
    /// and the store stays as it was.
    pub fn create(&mut self, order: Order) -> (result: Result<(), ContractError>)
        requires
            old(self).wf(),
            order.wf(),
        ensures
            final(self).wf(),
            match result {
                Ok(_) => {
                    &&& !old(self)@.contains_key(order.order_id@)
                    &&& final(self)@ == old(self)@.insert(order.order_id@, order@)
                },
                Err(e) => {
                    &&& old(self)@.contains_key(order.order_id@)
                    &&& e == ContractError::OrderAlreadyExists
                    &&& final(self)@ == old(self)@
                },
            },
    {
        if self.orders.contains_key(&order.order_id) {
            return Err(ContractError::OrderAlreadyExists);
        }
        self.put(order);
        Ok(())
    }

    /// A copy of the order kept under `order_id`.
    pub fn get(&self, order_id: &Vec<u8>) -> (result: Result<Order, ContractError>)
        requires
            self.wf(),
        ensures
            match result {
                Ok(order) => self@.contains_key(order_id@) && order@ == self@[order_id@]
                    && order.wf(),
                Err(e) => !self@.contains_key(order_id@) && e == ContractError::OrderNotFound,
            },
    {
        match self.orders.get(order_id) {
            Some(order) => {
                assert(self@.contains_key(order_id@));
                Ok(order.clone())
            },
            None => Err(ContractError::OrderNotFound),
        }
    }

    /// Keeps `order` under its identifier, in place of the order that was
    /// kept there before.
    pub fn put(&mut self, order: Order)
        requires
            old(self).wf(),
            order.wf(),
        ensures
            final(self).wf(),
            final(self)@ == old(self)@.insert(order.order_id@, order@),
    {
        let ghost id = order.order_id@;
        let key = crate::address::bytes_clone(&order.order_id);
        proof {
            lemma_viewed_insert(self.orders@, id, order);
        }
        self.orders.insert(key, order);
        proof {
            assert forall|other: Seq<u8>| #[trigger] self@.contains_key(other) implies self@[other].order_id
                == other && order_wf(self@[other]) by {
                if other != id {
                    assert(old(self)@.contains_key(other));
                }
            }
        }
    }
}

} // verus!
