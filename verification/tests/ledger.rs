use burger_shop::account::AccountId;
use burger_shop::menu::{BurgerMenu, FoodItem};
use burger_shop::order::{BurgerShopError, CallContext, Transfer};
use burger_shop::store::FileStore;

const SHOP: [u8; 32] = [0xAA; 32];
const ALICE: [u8; 32] = [1; 32];
const BOB: [u8; 32] = [2; 32];

fn item(burger_menu: BurgerMenu, amount: u32) -> FoodItem {
    FoodItem { burger_menu, amount }
}

fn call_from(caller: [u8; 32], transferred_value: u128) -> CallContext {
    CallContext {
        caller: AccountId::new(caller),
        account_id: AccountId::new(SHOP),
        transferred_value,
    }
}

fn cheese_and_veggie() -> Vec<FoodItem> {
    vec![item(BurgerMenu::CheeseBurger, 2), item(BurgerMenu::VeggieBurger, 1)]
}

#[test]
fn fresh_ledger_lists_nothing() {
    let store = FileStore::new();
    assert_eq!(store.len(), 0);
    assert!(store.has_room());
    assert!(store.get_orders().is_none());
}

#[test]
fn fresh_ledger_finds_nothing() {
    let store = FileStore::new();
    assert_eq!(store.get_single_order(0), Err(BurgerShopError::NotFound));
    assert_eq!(store.get_single_order(1), Err(BurgerShopError::NotFound));
    assert_eq!(store.get_single_order(u32::MAX), Err(BurgerShopError::NotFound));
    assert!(store.get_orders().is_none());
}

#[test]
fn exact_payment_records_the_order() {
    let mut store = FileStore::new();
    let call = call_from(ALICE, 34_000_000_000_000);
    let (order, event) = store.take_order_and_payment(cheese_and_veggie(), &call, true).unwrap();
    assert_eq!(order.order_id, 0);
    assert!(order.paid);
    assert_eq!(order.total_price, 34);
    assert_eq!(order.customer, AccountId::new(ALICE));
    assert_eq!(order.list_of_items, cheese_and_veggie());
    assert_eq!(
        event,
        Transfer { from: Some(AccountId::new(ALICE)), to: Some(AccountId::new(SHOP)), value: 34 }
    );
    assert_eq!(store.len(), 1);
}

#[test]
fn overpayment_is_a_payment_error() {
    let mut store = FileStore::new();
    let call = call_from(ALICE, 34_000_000_000_001);
    let r = store.take_order_and_payment(cheese_and_veggie(), &call, true);
    assert_eq!(r, Err(BurgerShopError::PaymentError));
    assert_eq!(store.len(), 0);
    assert!(store.get_orders().is_none());
}

#[test]
fn underpayment_is_a_payment_error() {
    let mut store = FileStore::new();
    let call = call_from(ALICE, 33_999_999_999_999);
    let r = store.take_order_and_payment(cheese_and_veggie(), &call, true);
    assert_eq!(r, Err(BurgerShopError::PaymentError));
    let unscaled = call_from(ALICE, 34);
    let r = store.take_order_and_payment(cheese_and_veggie(), &unscaled, true);
    assert_eq!(r, Err(BurgerShopError::PaymentError));
    assert_eq!(store.len(), 0);
    assert_eq!(store.get_single_order(0), Err(BurgerShopError::NotFound));
}

#[test]
fn wrong_payment_leaves_a_filled_ledger_unchanged() {
    let mut store = FileStore::new();
    let paid = call_from(ALICE, 34_000_000_000_000);
    store.take_order_and_payment(cheese_and_veggie(), &paid, true).unwrap();
    let before = store.get_orders().unwrap();
    let r = store.take_order_and_payment(cheese_and_veggie(), &call_from(BOB, 0), true);
    assert_eq!(r, Err(BurgerShopError::PaymentError));
    assert_eq!(store.len(), 1);
    assert_eq!(store.get_orders().unwrap(), before);
}

#[test]
fn failed_transfer_is_a_payment_error_and_records_nothing() {
    let mut store = FileStore::new();
    let call = call_from(ALICE, 34_000_000_000_000);
    let r = store.take_order_and_payment(cheese_and_veggie(), &call, false);
    assert_eq!(r, Err(BurgerShopError::PaymentError));
    assert_eq!(store.len(), 0);
    assert!(store.get_orders().is_none());
    assert_eq!(store.get_single_order(0), Err(BurgerShopError::NotFound));
}

#[test]
fn self_order_is_a_caller_error() {
    let mut store = FileStore::new();
    let call = call_from(SHOP, 34_000_000_000_000);
    let r = store.take_order_and_payment(cheese_and_veggie(), &call, true);
    assert_eq!(r, Err(BurgerShopError::CallerError));
    assert_eq!(store.len(), 0);
}

#[test]
fn line_without_amount_is_a_caller_error() {
    let mut store = FileStore::new();
    let items = vec![item(BurgerMenu::CheeseBurger, 2), item(BurgerMenu::VeggieBurger, 0)];
    let r = store.take_order_and_payment(items, &call_from(ALICE, 24_000_000_000_000), true);
    assert_eq!(r, Err(BurgerShopError::CallerError));
    assert_eq!(store.len(), 0);
    assert!(store.get_orders().is_none());
}

#[test]
fn order_without_lines_costs_nothing() {
    let mut store = FileStore::new();
    let (order, event) = store.take_order_and_payment(vec![], &call_from(ALICE, 0), true).unwrap();
    assert_eq!(order.total_price, 0);
    assert_eq!(order.order_id, 0);
    assert!(order.paid);
    assert_eq!(event.value, 0);
    let r = store.take_order_and_payment(vec![], &call_from(ALICE, 1), true);
    assert_eq!(r, Err(BurgerShopError::PaymentError));
    assert_eq!(store.len(), 1);
}

#[test]
fn submitted_order_is_found_by_id() {
    let mut store = FileStore::new();
    let call = call_from(ALICE, 34_000_000_000_000);
    let (placed, _) = store.take_order_and_payment(cheese_and_veggie(), &call, true).unwrap();
    let found = store.get_single_order(0).unwrap();
    assert_eq!(found.order_id, 0);
    assert_eq!(found.list_of_items, cheese_and_veggie());
    assert_eq!(found.customer, AccountId::new(ALICE));
    assert_eq!(found.total_price, 34);
    assert!(found.paid);
    assert_eq!(found, placed);
    assert_eq!(store.get_single_order(1), Err(BurgerShopError::NotFound));
}

#[test]
fn one_submission_lists_one_entry_under_id_zero() {
    let mut store = FileStore::new();
    let call = call_from(BOB, 15_000_000_000_000);
    let items = vec![item(BurgerMenu::ChickenBurger, 1)];
    let (placed, _) = store.take_order_and_payment(items, &call, true).unwrap();
    let listed = store.get_orders().unwrap();
    assert_eq!(listed.len(), 1);
    assert_eq!(listed[0].0, 0);
    assert_eq!(listed[0].1, placed);
    assert_eq!(listed[0].1.total_price, 15);
}

#[test]
fn ids_follow_submission_order_and_failures_use_none() {
    let mut store = FileStore::new();
    let good = call_from(ALICE, 12_000_000_000_000);
    let one = vec![item(BurgerMenu::CheeseBurger, 1)];

    let bad_payment = call_from(ALICE, 1);
    assert!(store.take_order_and_payment(one.clone(), &bad_payment, true).is_err());
    let (first, _) = store.take_order_and_payment(one.clone(), &good, true).unwrap();
    assert_eq!(first.order_id, 0);

    let own = call_from(SHOP, 12_000_000_000_000);
    assert!(store.take_order_and_payment(one.clone(), &own, true).is_err());
    assert!(store.take_order_and_payment(one.clone(), &good, false).is_err());
    let empty_line = vec![item(BurgerMenu::CheeseBurger, 0)];
    assert!(store.take_order_and_payment(empty_line, &call_from(ALICE, 0), true).is_err());
    let (second, _) = store.take_order_and_payment(one.clone(), &good, true).unwrap();
    assert_eq!(second.order_id, 1);

    assert!(store.take_order_and_payment(one.clone(), &bad_payment, true).is_err());
    let (third, _) = store.take_order_and_payment(one.clone(), &call_from(BOB, 12_000_000_000_000), true)
        .unwrap();
    assert_eq!(third.order_id, 2);

    assert_eq!(store.len(), 3);
    let listed = store.get_orders().unwrap();
    let ids: Vec<u32> = listed.iter().map(|e| e.0).collect();
    assert_eq!(ids, vec![0, 1, 2]);
    assert_eq!(listed[2].1.customer, AccountId::new(BOB));
    assert_eq!(store.get_single_order(3), Err(BurgerShopError::NotFound));
}

#[test]
fn list_and_lookup_agree() {
    let mut store = FileStore::new();
    let amounts: [u32; 4] = [1, 2, 3, 4];
    for amount in amounts {
        let items = vec![item(BurgerMenu::VeggieBurger, amount)];
        let call = call_from(ALICE, 10 * (amount as u128) * 1_000_000_000_000);
        store.take_order_and_payment(items, &call, true).unwrap();
    }
    let listed = store.get_orders().unwrap();
    assert_eq!(listed.len(), 4);
    for (position, (id, order)) in listed.iter().enumerate() {
        assert_eq!(*id as usize, position);
        assert_eq!(order.order_id, *id);
        assert_eq!(order.total_price, 10 * (position as u128 + 1));
        assert_eq!(&store.get_single_order(*id).unwrap(), order);
    }
}

#[test]
fn returned_copies_do_not_reach_the_ledger() {
    let mut store = FileStore::new();
    let call = call_from(ALICE, 34_000_000_000_000);
    let (mut placed, _) = store.take_order_and_payment(cheese_and_veggie(), &call, true).unwrap();
    placed.paid = false;
    placed.total_price = 0;
    placed.list_of_items.clear();
    let mut found = store.get_single_order(0).unwrap();
    assert!(found.paid);
    assert_eq!(found.total_price, 34);
    assert_eq!(found.list_of_items, cheese_and_veggie());
    found.order_id = 9;
    let mut listed = store.get_orders().unwrap();
    assert_eq!(listed[0].1.order_id, 0);
    listed.clear();
    assert_eq!(store.get_orders().unwrap().len(), 1);
    assert_eq!(store.get_single_order(0).unwrap().order_id, 0);
}

#[test]
fn large_order_is_priced_without_loss() {
    let mut store = FileStore::new();
    let items = vec![item(BurgerMenu::ChickenBurger, u32::MAX), item(BurgerMenu::CheeseBurger, u32::MAX)];
    let total: u128 = 64_424_509_425 + 51_539_607_540;
    let call = call_from(ALICE, total * 1_000_000_000_000);
    let (order, event) = store.take_order_and_payment(items, &call, true).unwrap();
    assert_eq!(order.total_price, 115_964_116_965);
    assert_eq!(event.value, 115_964_116_965);
}
