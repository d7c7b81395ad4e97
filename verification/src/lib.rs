//! Order ledger of a burger shop: pricing of an order from a fixed menu, the
//! check that the attached payment covers it exactly, and an append-only
//! record of the paid orders, read back by id or as a whole.

pub mod account;
pub mod menu;
pub mod order;
pub mod store;
pub mod events;
pub mod laws;
