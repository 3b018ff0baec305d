//! The fulfilment algorithm for one order, as a state machine: the caller
//! performs each action (read the stock, reserve, wait out the preparation)
//! and hands back what came of it.
use vstd::prelude::*;
use crate::inventory::Stock;
use crate::producer::OrderEvent;
use crate::recipe::{drink_of, parse_drink, recipe_of, DrinkType, Recipe};
use crate::status::{Outcome, StatusState};

verus! {

/// How long a drink takes to prepare, in milliseconds.
pub const PREPARATION_MILLIS: u64 = 2000;

/// Why a fulfilment was abandoned.
#[derive(Clone, Copy, Debug, PartialEq, Eq, Structural)]
pub enum FulfillmentError {
    /// The order names a drink that has no recipe.
    UnknownDrinkType,
    /// The stock read before reserving was too small for the recipe.
    InsufficientStock,
    /// The ledger did not carry out the reservation.
    ReservationFailed,
    /// The ledger could not be read.
    LedgerUnavailable,
}

/// Where a fulfilment stands.
#[derive(Clone, Copy, Debug, PartialEq, Eq, Structural)]
pub enum FulfilPhase {
    Start,
    AwaitingStock,
    AwaitingReservation,
    Preparing,
    Finished,
}

/// What came of the last action.
pub enum FulfilEvent {
    /// Fulfilment begins.
    Begin,
    /// The stock as the ledger reported it.
    StockRead(Stock),
    /// The ledger could not be read.
    StockUnavailable,
    /// Whether the ledger carried out the reservation.
    Reserved(bool),
    /// The preparation is over; the time it ended.
    Prepared(String),
}

/// What the caller does next.
#[derive(Debug, PartialEq, Eq)]
pub enum FulfilAction {
    ReadStock,
    Reserve(Recipe),
    Prepare(u64),
    Abort(FulfillmentError),
    Completed,
    /// The event does not fit the current phase; nothing changes.
    Ignore,
}

/// Whether `s` holds enough for `r`.
pub open spec fn sufficient(s: Stock, r: Recipe) -> bool {
    s.beans >= r.beans && s.milk >= r.milk
}

/// The next phase and action of a fulfilment for `drink`, on `ev` in `phase`.
pub open spec fn fulfil_step(drink: Option<DrinkType>, phase: FulfilPhase, ev: FulfilEvent) -> (
    FulfilPhase,
    FulfilAction,
) {
    match (phase, ev) {
        (FulfilPhase::Start, FulfilEvent::Begin) => match drink {
            None => (FulfilPhase::Finished, FulfilAction::Abort(FulfillmentError::UnknownDrinkType)),
            Some(_) => (FulfilPhase::AwaitingStock, FulfilAction::ReadStock),
        },
        (FulfilPhase::AwaitingStock, FulfilEvent::StockRead(s)) => match drink {
            Some(d) if sufficient(s, recipe_of(d)) => (
                FulfilPhase::AwaitingReservation,
                FulfilAction::Reserve(recipe_of(d)),
            ),
            _ => (FulfilPhase::Finished, FulfilAction::Abort(FulfillmentError::InsufficientStock)),
        },
        (FulfilPhase::AwaitingStock, FulfilEvent::StockUnavailable) => (
            FulfilPhase::Finished,
            FulfilAction::Abort(FulfillmentError::LedgerUnavailable),
        ),
        (FulfilPhase::AwaitingReservation, FulfilEvent::Reserved(ok)) => if ok {
            (FulfilPhase::Preparing, FulfilAction::Prepare(PREPARATION_MILLIS))
        } else {
            (FulfilPhase::Finished, FulfilAction::Abort(FulfillmentError::ReservationFailed))
        },
        (FulfilPhase::Preparing, FulfilEvent::Prepared(_)) => (
            FulfilPhase::Finished,
            FulfilAction::Completed,
        ),
        (p, _) => (p, FulfilAction::Ignore),
    }
}

/// One order on its way through the fulfilment algorithm.
pub struct Fulfillment {
    pub order: OrderEvent,
    pub drink: Option<DrinkType>,
    pub phase: FulfilPhase,
}

impl Fulfillment {
    /// A fulfilment of `order`, not yet begun.
    pub fn new(order: OrderEvent) -> (r: Fulfillment)
        ensures
            r.order == order,
            r.drink == drink_of(order.drink_type@),
            r.phase == FulfilPhase::Start,
    {
        let drink = parse_drink(order.drink_type.as_str());
        Fulfillment { order, drink, phase: FulfilPhase::Start }
    }

    /// Takes one step on `ev`. Only the end of the preparation touches the
    /// status slot, which then records this order as done at the time given;
    /// every abort leaves the slot as it was.
    pub fn step(&mut self, ev: FulfilEvent, status: &mut StatusState) -> (r: FulfilAction)
        ensures
            (final(self).phase, r) == fulfil_step(old(self).drink, old(self).phase, ev),
            final(self).order == old(self).order,
            final(self).drink == old(self).drink,
            match (old(self).phase, ev) {
                (FulfilPhase::Preparing, FulfilEvent::Prepared(at)) => {
                    &&& final(status).ready
                    &&& final(status).last_order_id@ == old(self).order.order_id@
                    &&& final(status).last_type@ == old(self).order.drink_type@
                    &&& final(status).last_status == Outcome::Done
                    &&& final(status).last_finished@ == at@
                },
                _ => *final(status) == *old(status),
            },
    {
        match (self.phase, ev) {
            (FulfilPhase::Start, FulfilEvent::Begin) => match self.drink {
                None => {
                    self.phase = FulfilPhase::Finished;
                    FulfilAction::Abort(FulfillmentError::UnknownDrinkType)
                },
                Some(_) => {
                    self.phase = FulfilPhase::AwaitingStock;
                    FulfilAction::ReadStock
                },
            },
            (FulfilPhase::AwaitingStock, FulfilEvent::StockRead(s)) => match self.drink {
                Some(d) => {
                    let need = d.recipe();
                    if s.beans >= need.beans && s.milk >= need.milk {
                        self.phase = FulfilPhase::AwaitingReservation;
                        FulfilAction::Reserve(need)
                    } else {
                        self.phase = FulfilPhase::Finished;
                        FulfilAction::Abort(FulfillmentError::InsufficientStock)
                    }
                },
                None => {
                    self.phase = FulfilPhase::Finished;
                    FulfilAction::Abort(FulfillmentError::InsufficientStock)
                },
            },
            (FulfilPhase::AwaitingStock, FulfilEvent::StockUnavailable) => {
                self.phase = FulfilPhase::Finished;
                FulfilAction::Abort(FulfillmentError::LedgerUnavailable)
            },
            (FulfilPhase::AwaitingReservation, FulfilEvent::Reserved(ok)) => {
                if ok {
                    self.phase = FulfilPhase::Preparing;
                    FulfilAction::Prepare(PREPARATION_MILLIS)
                } else {
                    self.phase = FulfilPhase::Finished;
                    FulfilAction::Abort(FulfillmentError::ReservationFailed)
                }
            },
            (FulfilPhase::Preparing, FulfilEvent::Prepared(at)) => {
                status.record(self.order.order_id.clone(), self.order.drink_type.clone(), at);
                self.phase = FulfilPhase::Finished;
                FulfilAction::Completed
            },
            (_, _) => FulfilAction::Ignore,
        }
    }
}

} // verus!
