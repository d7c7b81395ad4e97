use vstd::prelude::*;
use crate::order::Order;

verus! {

/// Notification that carries the whole listing.
#[derive(Debug)]
pub struct GetAllOrders {
    pub orders: Vec<(u32, Order)>,
}

/// Notification that carries one order.
#[derive(Debug)]
pub struct GetSingleOrder {
    pub single_order: Order,
}

/// Notification that a shop was set up, with the listing it starts from.
#[derive(Debug)]
pub struct CreatedShopAndStorage {
    pub orders: Vec<(u32, Order)>,
}

} // verus!
