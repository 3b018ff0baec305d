//! The machine status: a single slot holding the most recently completed
//! order, overwritten on each completion and never rolled back.
use vstd::prelude::*;
use crate::clock::now_rfc3339;

verus! {

/// What happened to the last order the machine saw.
#[derive(Clone, Copy, Debug, PartialEq, Eq, Structural)]
pub enum Outcome {
    /// No order has completed yet.
    NoOrder,
    /// The last order was fulfilled.
    Done,
}

pub open spec fn outcome_label(o: Outcome) -> Seq<char> {
    match o {
        Outcome::NoOrder => Seq::empty(),
        Outcome::Done => "done"@,
    }
}

impl Outcome {
    /// The outcome as it is reported: empty before any order, then `done`.
    pub fn label(self) -> (r: String)
        ensures
            r@ == outcome_label(self),
    {
        match self {
            Outcome::NoOrder => String::new(),
            Outcome::Done => "done".to_owned(),
        }
    }
}

/// The status slot.
pub struct StatusState {
    pub ready: bool,
    pub last_order_id: String,
    pub last_type: String,
    pub last_status: Outcome,
    pub last_finished: String,
}

/// The last order as a status query reports it.
pub struct LastOrder {
    pub order_id: String,
    pub drink_type: String,
    pub status: String,
    pub finished_at: String,
}

/// The answer to a status query.
pub struct StatusResponse {
    pub ready: bool,
    pub last_order: LastOrder,
}

impl StatusState {
    /// A ready machine that has completed no order; the time is now.
    pub fn new() -> (r: StatusState)
        ensures
            r.ready,
            r.last_order_id@ == Seq::<char>::empty(),
            r.last_type@ == Seq::<char>::empty(),
            r.last_status == Outcome::NoOrder,
    {
        StatusState::starting_at(now_rfc3339())
    }

    /// A ready machine that has completed no order, stamped `at`.
    pub fn starting_at(at: String) -> (r: StatusState)
        ensures
            r.ready,
            r.last_order_id@ == Seq::<char>::empty(),
            r.last_type@ == Seq::<char>::empty(),
            r.last_status == Outcome::NoOrder,
            r.last_finished@ == at@,
    {
        StatusState {
            ready: true,
            last_order_id: String::new(),
            last_type: String::new(),
            last_status: Outcome::NoOrder,
            last_finished: at,
        }
    }

    /// Overwrites the slot with a completed order and marks the machine ready.
    pub fn record(&mut self, order_id: String, drink_type: String, completed_at: String)
        ensures
            final(self).ready,
            final(self).last_order_id@ == order_id@,
            final(self).last_type@ == drink_type@,
            final(self).last_status == Outcome::Done,
            final(self).last_finished@ == completed_at@,
    {
        self.last_order_id = order_id;
        self.last_type = drink_type;
        self.last_status = Outcome::Done;
        self.last_finished = completed_at;
        self.ready = true;
    }

    /// A copy of the slot as a status query reports it.
    pub fn snapshot(&self) -> (r: StatusResponse)
        ensures
            r.ready == self.ready,
            r.last_order.order_id@ == self.last_order_id@,
            r.last_order.drink_type@ == self.last_type@,
            r.last_order.status@ == outcome_label(self.last_status),
            r.last_order.finished_at@ == self.last_finished@,
    {
        StatusResponse {
            ready: self.ready,
            last_order: LastOrder {
                order_id: self.last_order_id.clone(),
                drink_type: self.last_type.clone(),
                status: self.last_status.label(),
                finished_at: self.last_finished.clone(),
            },
        }
    }
}

/// Answers a status query from the slot.
pub fn get_status(state: &StatusState) -> (r: StatusResponse)
    ensures
        r.ready == state.ready,
        r.last_order.order_id@ == state.last_order_id@,
        r.last_order.drink_type@ == state.last_type@,
        r.last_order.status@ == outcome_label(state.last_status),
        r.last_order.finished_at@ == state.last_finished@,
{
    state.snapshot()
}

} // verus!
