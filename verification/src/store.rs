use std::collections::HashMap;
use vstd::prelude::*;
use crate::menu::FoodItem;
use crate::order::{
    payment_event, submission_error, unpaid_order, BurgerShopError, CallContext, Order, OrderView,
    Transfer,
};

verus! {

broadcast use vstd::std_specs::hash::group_hash_axioms;

/// What holds of every ledger: the order at position `i` has id `i`, is
/// paid, and is priced by its lines. Ids are 32-bit, which bounds the length.
pub open spec fn ledger_wf(orders: Seq<OrderView>) -> bool {
    &&& orders.len() <= u32::MAX + 1
    &&& forall|i: int|
        0 <= i < orders.len() ==> {
            let o = #[trigger] orders[i];
            o.order_id == i && o.paid && o.wf()
        }
}

/// The ledger read by id.
pub open spec fn keyed(orders: Seq<OrderView>) -> Map<u32, OrderView> {
    Map::new(|id: u32| (id as int) < orders.len(), |id: u32| orders[id as int])
}

/// The ledger read in submission order, each order beside its id.
pub open spec fn numbered(orders: Seq<OrderView>) -> Seq<(u32, OrderView)> {
    Seq::new(orders.len(), |i: int| (i as u32, orders[i]))
}

/// A list of stored entries as mathematical values.
pub open spec fn entries_view(entries: Seq<(u32, Order)>) -> Seq<(u32, OrderView)> {
    entries.map_values(|e: (u32, Order)| (e.0, e.1@))
}

/// The order that a successful submission records in a ledger of `len`
/// orders.
pub open spec fn placed_order(len: nat, items: Seq<FoodItem>, call: CallContext) -> OrderView {
    unpaid_order(items, call.caller, len as u32).settled()
}

/// The ledger after a submission: one order longer if it succeeds, the same
/// if it fails.
pub open spec fn next_ledger(
    orders: Seq<OrderView>,
    items: Seq<FoodItem>,
    call: CallContext,
    transfer_ok: bool,
) -> Seq<OrderView> {
    if submission_error(items, call, transfer_ok) is None {
        orders.push(placed_order(orders.len(), items, call))
    } else {
        orders
    }
}

/// The ledger of paid orders: append-only, kept both in submission order and
/// by id.
pub struct FileStore {
    orders: Vec<(u32, Order)>,
    orders_mapping: HashMap<u32, Order>,
}

impl View for FileStore {
    type V = Seq<OrderView>;

    /// The recorded orders, oldest first.
    closed spec fn view(&self) -> Seq<OrderView> {
        self.orders@.map_values(|e: (u32, Order)| e.1@)
    }
}

impl FileStore {
    /// What the ordered list holds.
    pub closed spec fn entries(&self) -> Seq<(u32, OrderView)> {
        entries_view(self.orders@)
    }

    /// What the id-keyed map holds.
    pub closed spec fn index(&self) -> Map<u32, OrderView> {
        Map::new(
            |id: u32| self.orders_mapping@.contains_key(id),
            |id: u32| self.orders_mapping@[id]@,
        )
    }

    /// The ledger is well formed, and its two stores agree with it: each id
    /// is in both or in neither, with the same order.
    pub open spec fn wf(&self) -> bool {
        &&& ledger_wf(self@)
        &&& self.entries() == numbered(self@)
        &&& self.index() == keyed(self@)
    }

    /// An empty ledger.
    pub fn new() -> (r: Self)
        ensures
            r.wf(),
            r@ == Seq::<OrderView>::empty(),
    {
        let r = Self { orders: Vec::new(), orders_mapping: HashMap::new() };
        assert(r@ =~= Seq::<OrderView>::empty());
        assert(r.entries() =~= numbered(r@));
        assert(r.index() =~= keyed(r@));
        r
    }

    /// Number of recorded orders, which is also the next id.
    pub fn len(&self) -> (r: usize)
        ensures
            r == self@.len(),
    {
        self.orders.len()
    }

    /// Whether the next id still fits 32 bits.
    pub fn has_room(&self) -> (r: bool)
        ensures
            r == (self@.len() <= u32::MAX),
    {
        self.orders.len() <= u32::MAX as usize
    }

    /// The one place where an order enters the ledger: it goes into the list
    /// and into the map together.
    fn record(&mut self, order: &Order)
        requires
            old(self).wf(),
            order@.order_id == old(self)@.len(),
            order@.paid,
            order@.wf(),
        ensures
            final(self).wf(),
            final(self)@ == old(self)@.push(order@),
    {
        let id = order.order_id;
        let ghost before = self@;
        let ghost entries_before = self.entries();
        let ghost index_before = self.index();
        self.orders_mapping.insert(id, order.clone());
        self.orders.push((id, order.clone()));
        proof {
            assert(self@ =~= before.push(order@));
            assert forall|i: int| 0 <= i < self@.len() implies self.entries()[i] == numbered(
                self@,
            )[i] by {
                if i < before.len() {
                    assert(self.entries()[i] == entries_before[i]);
                    assert(numbered(before)[i] == numbered(self@)[i]);
                }
            }
            assert(self.entries() =~= numbered(self@));
            assert forall|k: u32| self.index().contains_key(k) == keyed(self@).contains_key(
                k,
            ) by {
                assert(index_before.contains_key(k) == keyed(before).contains_key(k));
            }
            assert forall|k: u32| self.index().contains_key(k) implies self.index()[k] == keyed(
                self@,
            )[k] by {
                if k != id {
                    assert(index_before.contains_key(k));
                    assert(index_before[k] == keyed(before)[k]);
                }
            }
            assert(self.index() =~= keyed(self@));
        }
    }

    /// Takes an order with its payment. `call` says who orders, which account
    /// is the shop's, and what payment is attached; `transfer_ok` says whether
    /// the payment could be moved into the shop's custody, and counts only
    /// for a request that is otherwise in order.
    ///
    /// A request is turned down as the caller's fault when the shop orders
    /// from itself or a line asks for no burger, and as a payment fault when
    /// the payment is not exactly the amount due or the transfer failed. Then
    /// nothing is recorded. Otherwise the paid order enters the ledger under
    /// the next id and comes back with the notification to send.
    pub fn take_order_and_payment(
        &mut self,
        list_of_items: Vec<FoodItem>,
        call: &CallContext,
        transfer_ok: bool,
    ) -> (r: Result<(Order, Transfer), BurgerShopError>)
        requires
            old(self).wf(),
            old(self)@.len() <= u32::MAX,
        ensures
            final(self).wf(),
            final(self)@ == next_ledger(old(self)@, list_of_items@, *call, transfer_ok),
            match submission_error(list_of_items@, *call, transfer_ok) {
                Some(e) => r == Err::<(Order, Transfer), BurgerShopError>(e),
                None => {
                    let placed = placed_order(old(self)@.len(), list_of_items@, *call);
                    r matches Ok(done) && done.0@ == placed && done.1 == payment_event(
                        placed,
                        call.account_id,
                    )
                },
            },
    {
        let id = self.orders.len() as u32;
        let order = match Order::accept(list_of_items, call, id) {
            Ok(order) => order,
            Err(e) => {
                return Err(e);
            },
        };
        match order.settle(call.account_id, transfer_ok) {
            Ok((order, event)) => {
                self.record(&order);
                Ok((order, event))
            },
            Err(e) => Err(e),
        }
    }

    /// The order recorded under `id`, as a copy; `NotFound` for an id that
    /// no submission was given.
    pub fn get_single_order(&self, id: u32) -> (r: Result<Order, BurgerShopError>)
        requires
            self.wf(),
        ensures
            match r {
                Ok(order) => id < self@.len() && order@ == self@[id as int],
                Err(e) => id >= self@.len() && e == BurgerShopError::NotFound,
            },
            r is Ok <==> keyed(self@).contains_key(id),
            r matches Ok(order) ==> order@ == keyed(self@)[id],
    {
        match self.orders_mapping.get(&id) {
            Some(order) => {
                assert(self.index().contains_key(id));
                assert(self.index()[id] == order@);
                Ok(order.clone())
            },
            None => {
                assert(!self.index().contains_key(id));
                Err(BurgerShopError::NotFound)
            },
        }
    }

    /// All recorded orders with their ids, oldest first, as copies; `None`
    /// while nothing has been recorded.
    pub fn get_orders(&self) -> (r: Option<Vec<(u32, Order)>>)
        requires
            self.wf(),
        ensures
            match r {
                Some(entries) => self@.len() > 0 && entries_view(entries@) == numbered(self@),
                None => self@.len() == 0,
            },
    {
        if self.orders.len() > 0 {
            let mut entries: Vec<(u32, Order)> = Vec::new();
            let mut i: usize = 0;
            while i < self.orders.len()
                invariant
                    i <= self.orders@.len(),
                    entries@.len() == i,
                    forall|j: int|
                        0 <= j < i ==> (#[trigger] entries@[j]).0 == self.orders@[j].0
                            && entries@[j].1@ == self.orders@[j].1@,
                decreases self.orders@.len() - i,
            {
                let id = self.orders[i].0;
                let order = self.orders[i].1.clone();
                entries.push((id, order));
                i += 1;
            }
            assert(entries_view(entries@) =~= self.entries());
            Some(entries)
        } else {
            None
        }
    }
}

} // verus!
