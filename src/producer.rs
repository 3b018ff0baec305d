//! Order intake: validates the drink, gives the order a fresh identifier and
//! the time it was placed, and turns the broker's confirmation into the
//! caller's answer.
use vstd::prelude::*;
use crate::clock::now_rfc3339;
use crate::recipe::{drink_of, parse_drink};

verus! {

/// The durable queue that carries placed orders.
pub const ORDER_QUEUE: &'static str = "order.placed";

/// A placed order as it travels through the broker.
#[derive(Debug)]
pub struct OrderEvent {
    pub order_id: String,
    pub drink_type: String,
    pub placed_at: String,
}

/// Why a submission was turned down.
#[derive(Clone, Copy, Debug, PartialEq, Eq, Structural)]
pub enum SubmitError {
    /// The drink is not one the machine makes; the broker was not contacted.
    UnsupportedDrink,
    /// The broker did not confirm that it holds the order.
    PublishFailure,
}

/// Relies on uuid::Uuid::new_v4 and its `Display`, which writes the
/// hyphenated form: 32 hex digits and 4 hyphens.
#[verifier::external_body]
fn fresh_order_id() -> (r: String)
    ensures
        r@.len() == 36,
{
    uuid::Uuid::new_v4().to_string()
}

/// Builds the event for a submission, given the identifier and time that were
/// drawn for it. An unknown drink is rejected and no event is built.
pub fn order_event(drink_type: &str, order_id: String, placed_at: String) -> (r: Result<
    OrderEvent,
    SubmitError,
>)
    ensures
        drink_of(drink_type@) is None <==> r == Err::<OrderEvent, SubmitError>(
            SubmitError::UnsupportedDrink,
        ),
        drink_of(drink_type@) is Some <==> r is Ok,
        r is Ok ==> r->Ok_0.order_id@ == order_id@ && r->Ok_0.drink_type@ == drink_type@
            && r->Ok_0.placed_at@ == placed_at@,
{
    match parse_drink(drink_type) {
        None => Err(SubmitError::UnsupportedDrink),
        Some(_) => Ok(OrderEvent { order_id, drink_type: drink_type.to_owned(), placed_at }),
    }
}

/// Accepts a submission: rejects an unknown drink before anything else
/// happens, and otherwise returns the event to publish, with a fresh
/// identifier and the current time.
pub fn submit(drink_type: &str) -> (r: Result<OrderEvent, SubmitError>)
    ensures
        drink_of(drink_type@) is None <==> r == Err::<OrderEvent, SubmitError>(
            SubmitError::UnsupportedDrink,
        ),
        drink_of(drink_type@) is Some <==> r is Ok,
        r is Ok ==> r->Ok_0.drink_type@ == drink_type@ && r->Ok_0.order_id@.len() == 36,
{
    if parse_drink(drink_type).is_none() {
        return Err(SubmitError::UnsupportedDrink);
    }
    order_event(drink_type, fresh_order_id(), now_rfc3339())
}

/// The caller's answer once the publish attempt is over: the order's
/// identifier when the broker confirmed, `PublishFailure` otherwise.
pub fn publish_outcome(event: OrderEvent, confirmed: bool) -> (r: Result<String, SubmitError>)
    ensures
        confirmed ==> r is Ok && r->Ok_0@ == event.order_id@,
        !confirmed ==> r == Err::<String, SubmitError>(SubmitError::PublishFailure),
{
    if confirmed {
        Ok(event.order_id)
    } else {
        Err(SubmitError::PublishFailure)
    }
}

/// The number of orders waiting in the queue.
#[derive(Clone, Copy, Debug, PartialEq, Eq, Structural)]
pub struct QueueLength {
    pub pending_coffee_orders: u32,
}

impl QueueLength {
    /// The queue length from the broker's `messages_ready` count: a missing
    /// count reads as zero, and the count is cut to its low 32 bits.
    pub fn from_messages_ready(ready: Option<u64>) -> (r: QueueLength)
        ensures
            r.pending_coffee_orders == (match ready {
                Some(n) => n as u32,
                None => 0u32,
            }),
    {
        match ready {
            Some(n) => QueueLength { pending_coffee_orders: n as u32 },
            None => QueueLength { pending_coffee_orders: 0 },
        }
    }
}

} // verus!
