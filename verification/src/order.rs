use vstd::prelude::*;
use crate::account::AccountId;
use crate::menu::{all_lines_wf, lines_sum, price_range, spec_total_price, FoodItem};

verus! {

/// Why a request was turned down.
#[derive(Clone, Copy, Debug, PartialEq, Eq, Structural)]
pub enum BurgerShopError {
    /// The attached payment is not the amount due, or it could not be moved
    /// into the shop's custody.
    PaymentError,
    /// Kept for callers that know it; no operation returns it.
    OrderNotCompleted,
    /// The request itself is wrong: the shop orders from itself, or a line
    /// asks for no burger at all.
    CallerError,
    /// No order was recorded under the id asked for.
    NotFound,
}

/// What the host knows of a call: who makes it, the shop's own account, and
/// the payment attached to it, in minor currency units.
#[derive(Clone, Copy, Debug, PartialEq, Eq)]
pub struct CallContext {
    pub caller: AccountId,
    pub account_id: AccountId,
    pub transferred_value: u128,
}

/// Notification that a payment went from a customer to the shop.
#[derive(Clone, Copy, Debug, PartialEq, Eq)]
pub struct Transfer {
    pub from: Option<AccountId>,
    pub to: Option<AccountId>,
    pub value: u128,
}

/// An order: its lines, who placed it, what it costs, whether it was paid,
/// and the id under which the ledger holds it.
#[derive(Debug, PartialEq, Eq)]
pub struct Order {
    pub list_of_items: Vec<FoodItem>,
    pub customer: AccountId,
    pub total_price: u128,
    pub paid: bool,
    pub order_id: u32,
}

/// An order as a mathematical value.
pub struct OrderView {
    pub list_of_items: Seq<FoodItem>,
    pub customer: AccountId,
    pub total_price: u128,
    pub paid: bool,
    pub order_id: u32,
}

impl View for Order {
    type V = OrderView;

    open spec fn view(&self) -> OrderView {
        OrderView {
            list_of_items: self.list_of_items@,
            customer: self.customer,
            total_price: self.total_price,
            paid: self.paid,
            order_id: self.order_id,
        }
    }
}

impl OrderView {
    /// Every line asks for at least one burger, and the total is the
    /// wrapped sum of the line prices.
    pub open spec fn wf(self) -> bool {
        &&& all_lines_wf(self.list_of_items)
        &&& self.total_price == spec_total_price(self.list_of_items)
    }

    /// The same order, marked as paid.
    pub open spec fn settled(self) -> OrderView {
        OrderView { paid: true, ..self }
    }
}

/// Minor currency units that pay for one unit of menu price.
pub const PAYMENT_SCALE: u128 = 1_000_000_000_000;

/// The attached payment is exactly the total price in minor units. A total
/// whose amount due does not fit a payment is matched by none.
pub open spec fn payment_matches(total_price: u128, transferred_value: u128) -> bool {
    transferred_value as int == total_price as int * PAYMENT_SCALE as int
}

/// The order that a request asks for, before payment is confirmed.
pub open spec fn unpaid_order(items: Seq<FoodItem>, customer: AccountId, id: u32) -> OrderView {
    OrderView {
        list_of_items: items,
        customer,
        total_price: spec_total_price(items) as u128,
        paid: false,
        order_id: id,
    }
}

/// The error that turns a request down before any money moves, if there is
/// one. Faults of the request come before faults of the payment.
pub open spec fn rejection(items: Seq<FoodItem>, call: CallContext) -> Option<BurgerShopError> {
    if call.caller == call.account_id || !all_lines_wf(items) {
        Some(BurgerShopError::CallerError)
    } else if !payment_matches(spec_total_price(items) as u128, call.transferred_value) {
        Some(BurgerShopError::PaymentError)
    } else {
        None
    }
}

/// The error with which a submission ends, if it fails: the request is
/// turned down, or it is taken and the transfer of the payment fails.
pub open spec fn submission_error(
    items: Seq<FoodItem>,
    call: CallContext,
    transfer_ok: bool,
) -> Option<BurgerShopError> {
    match rejection(items, call) {
        Some(e) => Some(e),
        None => if transfer_ok {
            None
        } else {
            Some(BurgerShopError::PaymentError)
        },
    }
}

/// The notification that goes out when `order` has been paid to `shop`.
pub open spec fn payment_event(order: OrderView, shop: AccountId) -> Transfer {
    Transfer { from: Some(order.customer), to: Some(shop), value: order.total_price }
}

/// Adding a line to an order adds its price to the total, modulo the range
/// of a price.
pub proof fn lemma_total_price_push(items: Seq<FoodItem>, item: FoodItem)
    ensures
        lines_sum(items.push(item)) == lines_sum(items) + item.spec_price(),
        spec_total_price(items.push(item)) == (spec_total_price(items) + item.spec_price())
            % price_range(),
{
    assert(items.push(item).drop_last() =~= items);
    assert(items.push(item).last() == item);
    vstd::arithmetic::div_mod::lemma_add_mod_noop(
        lines_sum(items) as int,
        item.spec_price() as int,
        price_range() as int,
    );
    vstd::arithmetic::div_mod::lemma_small_mod(item.spec_price(), price_range());
}

impl Clone for Order {
    fn clone(&self) -> (r: Self)
        ensures
            r@ == self@,
    {
        let list_of_items = self.list_of_items.clone();
        assert(list_of_items@ =~= self.list_of_items@);
        Order {
            list_of_items,
            customer: self.customer,
            total_price: self.total_price,
            paid: self.paid,
            order_id: self.order_id,
        }
    }
}

impl Order {
    /// A fresh, unpaid order for `customer`, priced from its lines.
    pub fn new(list_of_items: Vec<FoodItem>, customer: AccountId, id: u32) -> (r: Self)
        ensures
            r@ == unpaid_order(list_of_items@, customer, id),
    {
        let total_price = Order::total_price(list_of_items.as_slice());
        Self { list_of_items, customer, total_price, paid: false, order_id: id }
    }

    /// Total price of the lines: the sum of unit price times quantity, with
    /// wraparound.
    pub fn total_price(list_of_items: &[FoodItem]) -> (r: u128)
        ensures
            r == spec_total_price(list_of_items@),
    {
        let mut total: u128 = 0;
        let mut i: usize = 0;
        while i < list_of_items.len()
            invariant
                i <= list_of_items@.len(),
                total == spec_total_price(list_of_items@.take(i as int)),
            decreases list_of_items@.len() - i,
        {
            let line: u128 = list_of_items[i].price();
            proof {
                lemma_total_price_push(list_of_items@.take(i as int), list_of_items@[i as int]);
                assert(list_of_items@.take(i as int).push(list_of_items@[i as int])
                    =~= list_of_items@.take(i + 1));
            }
            total = total.wrapping_add(line);
            i += 1;
        }
        assert(list_of_items@.take(i as int) =~= list_of_items@);
        total
    }

    /// Whether every line asks for at least one burger.
    pub fn lines_valid(list_of_items: &[FoodItem]) -> (r: bool)
        ensures
            r == all_lines_wf(list_of_items@),
    {
        let mut i: usize = 0;
        while i < list_of_items.len()
            invariant
                i <= list_of_items@.len(),
                forall|j: int| 0 <= j < i ==> (#[trigger] list_of_items@[j]).wf(),
            decreases list_of_items@.len() - i,
        {
            if list_of_items[i].amount == 0 {
                assert(!list_of_items@[i as int].wf());
                return false;
            }
            i += 1;
        }
        true
    }

    /// Whether `transferred_value` pays `total_price` exactly.
    pub fn payment_covers(total_price: u128, transferred_value: u128) -> (r: bool)
        ensures
            r == payment_matches(total_price, transferred_value),
    {
        match total_price.checked_mul(PAYMENT_SCALE) {
            Some(due) => transferred_value == due,
            None => false,
        }
    }

    /// First half of a submission: decides, before any money moves, whether
    /// the request is taken. A request that is taken comes back as the unpaid
    /// order under `id`; the host then moves `total_price` to the shop and
    /// reports how that went to [`Order::settle`].
    pub fn accept(list_of_items: Vec<FoodItem>, call: &CallContext, id: u32) -> (r: Result<
        Order,
        BurgerShopError,
    >)
        ensures
            match rejection(list_of_items@, *call) {
                Some(e) => r == Err::<Order, BurgerShopError>(e),
                None => r matches Ok(order) && order@ == unpaid_order(
                    list_of_items@,
                    call.caller,
                    id,
                ),
            },
    {
        if call.caller.same_as(&call.account_id) {
            return Err(BurgerShopError::CallerError);
        }
        if !Order::lines_valid(list_of_items.as_slice()) {
            return Err(BurgerShopError::CallerError);
        }
        let order = Order::new(list_of_items, call.caller, id);
        if !Order::payment_covers(order.total_price, call.transferred_value) {
            return Err(BurgerShopError::PaymentError);
        }
        Ok(order)
    }

    /// Second half of a submission: given how the transfer of the payment to
    /// `shop` went, either marks the order paid and names the notification to
    /// send, or gives the order up.
    pub fn settle(self, shop: AccountId, transfer_ok: bool) -> (r: Result<
        (Order, Transfer),
        BurgerShopError,
    >)
        ensures
            !transfer_ok ==> r == Err::<(Order, Transfer), BurgerShopError>(
                BurgerShopError::PaymentError,
            ),
            transfer_ok ==> (r matches Ok(done) && done.0@ == self@.settled() && done.1
                == payment_event(self@, shop)),
    {
        if !transfer_ok {
            return Err(BurgerShopError::PaymentError);
        }
        let mut order = self;
        order.paid = true;
        let event = Transfer {
            from: Some(order.customer),
            to: Some(shop),
            value: order.total_price,
        };
        Ok((order, event))
    }
}

} // verus!
