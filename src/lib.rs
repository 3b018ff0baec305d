//! Beverage order fulfilment: the drink recipes, the inventory ledger, the
//! order producer's validation, the consumer's delivery protocol, the
//! fulfilment algorithm and the machine status slot.
mod clock;
pub mod consumer;
pub mod fulfillment;
pub mod inventory;
pub mod producer;
pub mod recipe;
pub mod status;
