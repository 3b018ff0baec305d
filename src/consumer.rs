//! The consumer's connection and delivery protocol, as a state machine: the
//! caller performs each action against the broker and hands back the event
//! that followed.
use vstd::prelude::*;
use crate::producer::OrderEvent;

verus! {

/// The fixed pause between two connection attempts, in milliseconds.
pub const RETRY_DELAY_MILLIS: u64 = 1000;

/// Where the consumer stands.
#[derive(Clone, Copy, Debug, PartialEq, Eq, Structural)]
pub enum ConsumerPhase {
    Disconnected,
    Connecting,
    Subscribed,
    Processing,
    /// Cancelled while an order was in flight: that order is finished and
    /// acknowledged, and no further message is taken.
    Draining,
    /// Cancelled; nothing more happens.
    Stopped,
    /// An unrecoverable configuration error; nothing more happens.
    Fatal,
}

/// What the broker, or the fulfilment of an order, brought.
pub enum ConsumerEvent {
    /// The consumer starts.
    Start,
    /// A connection attempt failed.
    ConnectFailed,
    /// A connection was made.
    Connected,
    /// A message arrived: the order it holds, or `None` when it is malformed.
    Delivery(Option<OrderEvent>),
    /// The fulfilment of the current order is over, whatever its outcome.
    Finished,
    /// The connection was lost.
    ConnectionLost,
    /// The configuration cannot be used.
    ConfigInvalid,
    /// The consumer is asked to shut down.
    Cancel,
}

/// What the caller does next.
#[derive(Debug)]
pub enum ConsumerAction {
    /// Try to connect to the broker.
    Connect,
    /// Wait this many milliseconds, then try to connect again.
    RetryAfter(u64),
    /// Declare the durable order queue (idempotently) and start consuming.
    Subscribe,
    /// Run the fulfilment algorithm on this order.
    Fulfil(OrderEvent),
    /// Acknowledge the current message, removing it from the broker.
    Ack,
    /// Acknowledge the current message, then stop for good.
    AckThenStop,
    /// Stop for good.
    Stop,
    /// The event does not fit the current phase; nothing changes.
    Ignore,
}

/// The next phase and action of the consumer on `ev` in `phase`.
pub open spec fn consumer_step(phase: ConsumerPhase, ev: ConsumerEvent) -> (
    ConsumerPhase,
    ConsumerAction,
) {
    match (phase, ev) {
        (ConsumerPhase::Fatal, _) => (ConsumerPhase::Fatal, ConsumerAction::Stop),
        (ConsumerPhase::Stopped, _) => (ConsumerPhase::Stopped, ConsumerAction::Stop),
        (_, ConsumerEvent::ConfigInvalid) => (ConsumerPhase::Fatal, ConsumerAction::Stop),
        (ConsumerPhase::Draining, ConsumerEvent::Finished) => (
            ConsumerPhase::Stopped,
            ConsumerAction::AckThenStop,
        ),
        (ConsumerPhase::Draining, _) => (ConsumerPhase::Draining, ConsumerAction::Ignore),
        (ConsumerPhase::Processing, ConsumerEvent::Cancel) => (
            ConsumerPhase::Draining,
            ConsumerAction::Ignore,
        ),
        (_, ConsumerEvent::Cancel) => (ConsumerPhase::Stopped, ConsumerAction::Stop),
        (_, ConsumerEvent::ConnectionLost) => (ConsumerPhase::Connecting, ConsumerAction::Connect),
        (ConsumerPhase::Disconnected, ConsumerEvent::Start) => (
            ConsumerPhase::Connecting,
            ConsumerAction::Connect,
        ),
        (ConsumerPhase::Connecting, ConsumerEvent::ConnectFailed) => (
            ConsumerPhase::Connecting,
            ConsumerAction::RetryAfter(RETRY_DELAY_MILLIS),
        ),
        (ConsumerPhase::Connecting, ConsumerEvent::Connected) => (
            ConsumerPhase::Subscribed,
            ConsumerAction::Subscribe,
        ),
        (ConsumerPhase::Subscribed, ConsumerEvent::Delivery(None)) => (
            ConsumerPhase::Subscribed,
            ConsumerAction::Ack,
        ),
        (ConsumerPhase::Subscribed, ConsumerEvent::Delivery(Some(order))) => (
            ConsumerPhase::Processing,
            ConsumerAction::Fulfil(order),
        ),
        (ConsumerPhase::Processing, ConsumerEvent::Finished) => (
            ConsumerPhase::Subscribed,
            ConsumerAction::Ack,
        ),
        (p, _) => (p, ConsumerAction::Ignore),
    }
}

/// The consumer of placed orders.
pub struct Consumer {
    pub phase: ConsumerPhase,
}

impl Consumer {
    /// A consumer that has not connected yet.
    pub fn new() -> (r: Consumer)
        ensures
            r.phase == ConsumerPhase::Disconnected,
    {
        Consumer { phase: ConsumerPhase::Disconnected }
    }

    /// Takes one step on `ev`.
    pub fn handle(&mut self, ev: ConsumerEvent) -> (r: ConsumerAction)
        ensures
            (final(self).phase, r) == consumer_step(old(self).phase, ev),
    {
        match (self.phase, ev) {
            (ConsumerPhase::Fatal, _) => ConsumerAction::Stop,
            (ConsumerPhase::Stopped, _) => ConsumerAction::Stop,
            (_, ConsumerEvent::ConfigInvalid) => {
                self.phase = ConsumerPhase::Fatal;
                ConsumerAction::Stop
            },
            (ConsumerPhase::Draining, ConsumerEvent::Finished) => {
                self.phase = ConsumerPhase::Stopped;
                ConsumerAction::AckThenStop
            },
            (ConsumerPhase::Draining, _) => ConsumerAction::Ignore,
            (ConsumerPhase::Processing, ConsumerEvent::Cancel) => {
                self.phase = ConsumerPhase::Draining;
                ConsumerAction::Ignore
            },
            (_, ConsumerEvent::Cancel) => {
                self.phase = ConsumerPhase::Stopped;
                ConsumerAction::Stop
            },
            (_, ConsumerEvent::ConnectionLost) => {
                self.phase = ConsumerPhase::Connecting;
                ConsumerAction::Connect
            },
            (ConsumerPhase::Disconnected, ConsumerEvent::Start) => {
                self.phase = ConsumerPhase::Connecting;
                ConsumerAction::Connect
            },
            (ConsumerPhase::Connecting, ConsumerEvent::ConnectFailed) => {
                ConsumerAction::RetryAfter(RETRY_DELAY_MILLIS)
            },
            (ConsumerPhase::Connecting, ConsumerEvent::Connected) => {
                self.phase = ConsumerPhase::Subscribed;
                ConsumerAction::Subscribe
            },
            (ConsumerPhase::Subscribed, ConsumerEvent::Delivery(None)) => ConsumerAction::Ack,
            (ConsumerPhase::Subscribed, ConsumerEvent::Delivery(Some(order))) => {
                self.phase = ConsumerPhase::Processing;
                ConsumerAction::Fulfil(order)
            },
            (ConsumerPhase::Processing, ConsumerEvent::Finished) => {
                self.phase = ConsumerPhase::Subscribed;
                ConsumerAction::Ack
            },
            (_, _) => ConsumerAction::Ignore,
        }
    }
}

/// A malformed message is acknowledged at once and leaves the consumer
/// subscribed, so the next well-formed message is taken up for fulfilment.
pub proof fn lemma_malformed_does_not_block(next: OrderEvent)
    ensures
        consumer_step(ConsumerPhase::Subscribed, ConsumerEvent::Delivery(None)) == (
            ConsumerPhase::Subscribed,
            ConsumerAction::Ack,
        ),
        consumer_step(
            consumer_step(ConsumerPhase::Subscribed, ConsumerEvent::Delivery(None)).0,
            ConsumerEvent::Delivery(Some(next)),
        ) == (ConsumerPhase::Processing, ConsumerAction::Fulfil(next)),
{
}

/// A well-formed message is acknowledged exactly once, after its fulfilment
/// is over and whatever its outcome, and the consumer is then ready for the
/// next message.
pub proof fn lemma_ack_follows_attempt(order: OrderEvent)
    ensures
        consumer_step(ConsumerPhase::Subscribed, ConsumerEvent::Delivery(Some(order))) == (
            ConsumerPhase::Processing,
            ConsumerAction::Fulfil(order),
        ),
        consumer_step(ConsumerPhase::Processing, ConsumerEvent::Finished) == (
            ConsumerPhase::Subscribed,
            ConsumerAction::Ack,
        ),
        consumer_step(
            ConsumerPhase::Processing,
            ConsumerEvent::Delivery(None),
        ).1 is Ignore,
{
}

/// A cancellation during a fulfilment lets it run to completion: its
/// message is still acknowledged, and then the consumer stops without taking
/// another message.
pub proof fn lemma_cancel_drains_in_flight_order(next: OrderEvent)
    ensures
        consumer_step(ConsumerPhase::Processing, ConsumerEvent::Cancel).0 == ConsumerPhase::Draining,
        consumer_step(ConsumerPhase::Draining, ConsumerEvent::Finished) == (
            ConsumerPhase::Stopped,
            ConsumerAction::AckThenStop,
        ),
        consumer_step(ConsumerPhase::Draining, ConsumerEvent::Delivery(Some(next))).1 is Ignore,
        consumer_step(ConsumerPhase::Stopped, ConsumerEvent::Delivery(Some(next))).1 is Stop,
{
}

} // verus!
