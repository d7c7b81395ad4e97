use vstd::prelude::*;
use crate::menu::{all_lines_wf, lines_sum, price_range, spec_total_price, FoodItem};
use crate::order::{
    payment_matches, rejection, submission_error, BurgerShopError, CallContext, OrderView,
};
use crate::store::{keyed, ledger_wf, next_ledger, numbered, placed_order};

verus! {

/// A total price is a price: it lies in the 128-bit range.
pub proof fn lemma_total_price_in_range(items: Seq<FoodItem>)
    ensures
        spec_total_price(items) < price_range(),
        spec_total_price(items) as u128 == spec_total_price(items),
{
    vstd::arithmetic::div_mod::lemma_mod_bound(lines_sum(items) as int, price_range() as int);
}

/// No line costs more than the dearest burger in the largest quantity, so a
/// sum of lines grows by at most that much with each line.
pub proof fn lemma_lines_sum_bound(items: Seq<FoodItem>)
    ensures
        lines_sum(items) <= items.len() * 64_424_509_425,
    decreases items.len(),
{
    if items.len() > 0 {
        lemma_lines_sum_bound(items.drop_last());
        items.last().lemma_price_is_unit_times_amount();
    }
}

/// The total price wraps only for orders that no machine holds: up to
/// 2^64 lines the sum of the line prices stays inside the range of a price,
/// and the total is that sum.
pub proof fn law_total_price_is_exact(items: Seq<FoodItem>)
    requires
        items.len() <= u64::MAX,
    ensures
        spec_total_price(items) == lines_sum(items),
{
    lemma_lines_sum_bound(items);
    vstd::arithmetic::div_mod::lemma_small_mod(lines_sum(items), price_range());
}

/// The total price of an order with one more line is the old total plus the
/// price of that line, wrapped around; the order without lines costs nothing.
pub proof fn law_total_price_is_wrapped_sum(items: Seq<FoodItem>, item: FoodItem)
    ensures
        spec_total_price(Seq::empty()) == 0,
        spec_total_price(items.push(item)) == (spec_total_price(items) + item.spec_price())
            % price_range(),
        item.spec_price() == item.burger_menu.spec_price() * item.amount,
{
    crate::order::lemma_total_price_push(items, item);
    item.lemma_price_is_unit_times_amount();
}

/// A request that is in order but whose payment is not exactly the amount
/// due fails as a payment fault, whatever the transfer would have done, and
/// the ledger stays as it was.
pub proof fn law_wrong_payment_is_refused(
    orders: Seq<OrderView>,
    items: Seq<FoodItem>,
    call: CallContext,
    transfer_ok: bool,
)
    requires
        call.caller != call.account_id,
        all_lines_wf(items),
        !payment_matches(spec_total_price(items) as u128, call.transferred_value),
    ensures
        submission_error(items, call, transfer_ok) == Some(BurgerShopError::PaymentError),
        next_ledger(orders, items, call, transfer_ok) == orders,
        next_ledger(orders, items, call, transfer_ok).len() == orders.len(),
{
}

/// A request that is in order, with the exact payment and a transfer that
/// goes through, makes the ledger one order longer. The new order is the
/// last one, has the previous length as its id, is paid, and holds the
/// lines, the customer and the price of the request.
pub proof fn law_exact_payment_is_recorded(
    orders: Seq<OrderView>,
    items: Seq<FoodItem>,
    call: CallContext,
)
    requires
        orders.len() <= u32::MAX,
        call.caller != call.account_id,
        all_lines_wf(items),
        payment_matches(spec_total_price(items) as u128, call.transferred_value),
    ensures
        submission_error(items, call, true) is None,
        next_ledger(orders, items, call, true).len() == orders.len() + 1,
        next_ledger(orders, items, call, true).last() == placed_order(orders.len(), items, call),
        placed_order(orders.len(), items, call).order_id == orders.len(),
        placed_order(orders.len(), items, call).paid,
        placed_order(orders.len(), items, call).list_of_items == items,
        placed_order(orders.len(), items, call).customer == call.caller,
        placed_order(orders.len(), items, call).total_price == spec_total_price(items),
{
    lemma_total_price_in_range(items);
}

/// Looking up by id finds exactly the ids below the ledger's length, and
/// under each the order at that position, whose id it is.
pub proof fn law_lookup_by_id(orders: Seq<OrderView>, id: u32)
    requires
        ledger_wf(orders),
    ensures
        keyed(orders).contains_key(id) <==> id < orders.len(),
        id < orders.len() ==> keyed(orders)[id] == orders[id as int] && keyed(orders)[id].order_id
            == id,
{
}

/// After a successful submission the new order is found under its id, with
/// the lines, the customer and the price of the request; ids beyond it are
/// still not found.
pub proof fn law_submitted_order_is_found(
    orders: Seq<OrderView>,
    items: Seq<FoodItem>,
    call: CallContext,
)
    requires
        orders.len() <= u32::MAX,
        submission_error(items, call, true) is None,
    ensures
        ({
            let id = orders.len() as u32;
            let found = keyed(next_ledger(orders, items, call, true));
            &&& found.contains_key(id)
            &&& found[id].order_id == id
            &&& found[id].list_of_items == items
            &&& found[id].customer == call.caller
            &&& found[id].total_price == spec_total_price(items)
            &&& forall|other: u32| other > id ==> !found.contains_key(other)
        }),
{
    lemma_total_price_in_range(items);
}

/// After one successful submission to an empty ledger, the listing holds
/// exactly one entry, under id 0.
pub proof fn law_first_order_is_listed(items: Seq<FoodItem>, call: CallContext)
    requires
        submission_error(items, call, true) is None,
    ensures
        numbered(next_ledger(Seq::empty(), items, call, true)) == seq![
            (0u32, placed_order(0, items, call)),
        ],
{
    let listed = numbered(next_ledger(Seq::empty(), items, call, true));
    assert(listed =~= seq![(0u32, placed_order(0, items, call))]);
}

/// A submission keeps the ledger well formed and touches no earlier order:
/// ids are positions, so they are given out in submission order and none is
/// given twice.
pub proof fn law_ledger_is_append_only(
    orders: Seq<OrderView>,
    items: Seq<FoodItem>,
    call: CallContext,
    transfer_ok: bool,
)
    requires
        ledger_wf(orders),
        orders.len() <= u32::MAX,
    ensures
        ledger_wf(next_ledger(orders, items, call, transfer_ok)),
        orders.len() <= next_ledger(orders, items, call, transfer_ok).len() <= orders.len() + 1,
        forall|i: int|
            0 <= i < orders.len() ==> next_ledger(orders, items, call, transfer_ok)[i]
                == #[trigger] orders[i],
{
    lemma_total_price_in_range(items);
}

/// A failed submission uses up no id: the next successful one gets the id
/// that the failed one would have had.
pub proof fn law_failure_consumes_no_id(
    orders: Seq<OrderView>,
    failed_items: Seq<FoodItem>,
    failed_call: CallContext,
    failed_transfer_ok: bool,
    items: Seq<FoodItem>,
    call: CallContext,
)
    requires
        orders.len() <= u32::MAX,
        submission_error(failed_items, failed_call, failed_transfer_ok) is Some,
        submission_error(items, call, true) is None,
    ensures
        next_ledger(
            next_ledger(orders, failed_items, failed_call, failed_transfer_ok),
            items,
            call,
            true,
        ) == orders.push(placed_order(orders.len(), items, call)),
        placed_order(orders.len(), items, call).order_id == orders.len(),
{
}

/// Two successful submissions in a row get consecutive ids, the earlier one
/// the smaller.
pub proof fn law_ids_follow_submission_order(
    orders: Seq<OrderView>,
    first_items: Seq<FoodItem>,
    first_call: CallContext,
    second_items: Seq<FoodItem>,
    second_call: CallContext,
)
    requires
        orders.len() < u32::MAX,
        submission_error(first_items, first_call, true) is None,
        submission_error(second_items, second_call, true) is None,
    ensures
        ({
            let after = next_ledger(
                next_ledger(orders, first_items, first_call, true),
                second_items,
                second_call,
                true,
            );
            &&& after.len() == orders.len() + 2
            &&& after[orders.len() as int].order_id == orders.len()
            &&& after[orders.len() as int + 1].order_id == orders.len() + 1
        }),
{
}

/// The error of a submission is the caller's fault exactly when the shop
/// orders from itself or a line asks for no burger.
pub proof fn law_caller_faults_come_first(
    items: Seq<FoodItem>,
    call: CallContext,
    transfer_ok: bool,
)
    ensures
        submission_error(items, call, transfer_ok) == Some(BurgerShopError::CallerError) <==> (
        call.caller == call.account_id || !all_lines_wf(items)),
        rejection(items, call) is None ==> (submission_error(items, call, transfer_ok) is None
            <==> transfer_ok),
{
}

} // verus!
