//! The inventory ledger: two ingredient counts with additive (refill) and
//! subtractive (reserve) operations that reject overflow and underflow.
//!
//! Both quantities of an operation are checked before either count changes,
//! so a rejected operation leaves the stock exactly as it was.
use vstd::prelude::*;

verus! {

/// The stock of beans and milk.
#[derive(Clone, Copy, Debug, PartialEq, Eq, Structural)]
pub struct Stock {
    pub beans: u32,
    pub milk: u32,
}

/// An ingredient the ledger keeps count of.
#[derive(Clone, Copy, Debug, PartialEq, Eq, Structural)]
pub enum Ingredient {
    Beans,
    Milk,
}

/// Why the ledger rejected an operation.
#[derive(Clone, Copy, Debug, PartialEq, Eq, Structural)]
pub enum LedgerError {
    /// A fill request named no quantity, or only zeros.
    NoValues,
    /// Adding would exceed the largest count the ledger can hold.
    Overflow(Ingredient),
    /// Subtracting would take a count below zero.
    Underflow(Ingredient),
}

/// A fill request: each quantity may be left out.
#[derive(Clone, Copy, Debug, PartialEq, Eq, Structural)]
pub struct FillUpdate {
    pub beans: Option<u32>,
    pub milk: Option<u32>,
}

/// One operation on the ledger.
#[derive(Clone, Copy, Debug, PartialEq, Eq, Structural)]
pub enum LedgerOp {
    Reserve(u32, u32),
    Refill(u32, u32),
}

pub open spec fn reserve_error(s: Stock, beans: u32, milk: u32) -> Option<LedgerError> {
    if s.beans < beans {
        Some(LedgerError::Underflow(Ingredient::Beans))
    } else if s.milk < milk {
        Some(LedgerError::Underflow(Ingredient::Milk))
    } else {
        None
    }
}

pub open spec fn refill_error(s: Stock, beans: u32, milk: u32) -> Option<LedgerError> {
    if s.beans + beans > u32::MAX {
        Some(LedgerError::Overflow(Ingredient::Beans))
    } else if s.milk + milk > u32::MAX {
        Some(LedgerError::Overflow(Ingredient::Milk))
    } else {
        None
    }
}

/// Whether the ledger accepts `op` on stock `s`.
pub open spec fn accepts(s: Stock, op: LedgerOp) -> bool {
    match op {
        LedgerOp::Reserve(b, m) => reserve_error(s, b, m).is_none(),
        LedgerOp::Refill(b, m) => refill_error(s, b, m).is_none(),
    }
}

/// The signed change `op` asks for, beans first.
pub open spec fn delta(op: LedgerOp) -> (int, int) {
    match op {
        LedgerOp::Reserve(b, m) => (-(b as int), -(m as int)),
        LedgerOp::Refill(b, m) => (b as int, m as int),
    }
}

/// The change `op` makes to `s`: its delta when accepted, nothing when rejected.
pub open spec fn effective_delta(s: Stock, op: LedgerOp) -> (int, int) {
    if accepts(s, op) {
        delta(op)
    } else {
        (0, 0)
    }
}

/// The stock after `op` on `s`.
pub open spec fn after(s: Stock, op: LedgerOp) -> Stock {
    let d = effective_delta(s, op);
    Stock { beans: (s.beans + d.0) as u32, milk: (s.milk + d.1) as u32 }
}

/// The stock after running `ops` in order from `s`.
pub open spec fn run(s: Stock, ops: Seq<LedgerOp>) -> Stock
    decreases ops.len(),
{
    if ops.len() == 0 {
        s
    } else {
        after(run(s, ops.drop_last()), ops.last())
    }
}

/// The sum of the effective deltas of `ops` run in order from `s`.
pub open spec fn net_change(s: Stock, ops: Seq<LedgerOp>) -> (int, int)
    decreases ops.len(),
{
    if ops.len() == 0 {
        (0, 0)
    } else {
        let prev = net_change(s, ops.drop_last());
        let d = effective_delta(run(s, ops.drop_last()), ops.last());
        (prev.0 + d.0, prev.1 + d.1)
    }
}

/// For every sequence of reserve and refill operations, the final stock is
/// the starting stock plus the deltas of the accepted operations (a rejected
/// operation contributes nothing), and neither count ever leaves the range
/// `0 ..= u32::MAX`.
pub proof fn lemma_run_is_sum_of_deltas(s: Stock, ops: Seq<LedgerOp>)
    ensures
        run(s, ops).beans == s.beans + net_change(s, ops).0,
        run(s, ops).milk == s.milk + net_change(s, ops).1,
        0 <= s.beans + net_change(s, ops).0 <= u32::MAX,
        0 <= s.milk + net_change(s, ops).1 <= u32::MAX,
    decreases ops.len(),
{
    if ops.len() > 0 {
        lemma_run_is_sum_of_deltas(s, ops.drop_last());
    }
}

/// Reservations are serialised: when two reservations of the same amounts
/// follow one another, the second is accepted only if the starting stock
/// held both, so with stock for one of them exactly one is accepted.
pub proof fn lemma_second_reservation_needs_double_stock(s: Stock, beans: u32, milk: u32)
    ensures
        accepts(s, LedgerOp::Reserve(beans, milk)) && accepts(
            after(s, LedgerOp::Reserve(beans, milk)),
            LedgerOp::Reserve(beans, milk),
        ) <==> s.beans >= 2 * beans && s.milk >= 2 * milk,
        !accepts(s, LedgerOp::Reserve(beans, milk)) ==> after(s, LedgerOp::Reserve(beans, milk))
            == s,
{
}

/// The ledger: the stock, changed only by the operations below.
pub struct Ledger {
    stock: Stock,
}

impl Ledger {
    pub closed spec fn view(&self) -> Stock {
        self.stock
    }

    /// A ledger holding `beans` and `milk`.
    pub fn new(beans: u32, milk: u32) -> (r: Ledger)
        ensures
            r.view() == (Stock { beans, milk }),
    {
        Ledger { stock: Stock { beans, milk } }
    }

    /// The current stock; nothing changes.
    pub fn read(&self) -> (r: Stock)
        ensures
            r == self.view(),
    {
        self.stock
    }

    /// Takes `beans` and `milk` out of the stock. Fails, changing nothing, when
    /// either count would go below zero; beans are reported first.
    pub fn reserve(&mut self, beans: u32, milk: u32) -> (r: Result<Stock, LedgerError>)
        ensures
            match reserve_error(old(self).view(), beans, milk) {
                Some(e) => r == Err::<Stock, LedgerError>(e) && final(self).view() == old(self).view(),
                None => r == Ok::<Stock, LedgerError>(final(self).view())
                    && final(self).view().beans == old(self).view().beans - beans
                    && final(self).view().milk == old(self).view().milk - milk,
            },
            final(self).view() == after(old(self).view(), LedgerOp::Reserve(beans, milk)),
    {
        if self.stock.beans < beans {
            return Err(LedgerError::Underflow(Ingredient::Beans));
        }
        if self.stock.milk < milk {
            return Err(LedgerError::Underflow(Ingredient::Milk));
        }
        self.stock = Stock { beans: self.stock.beans - beans, milk: self.stock.milk - milk };
        Ok(self.stock)
    }

    /// Adds `beans` and `milk` to the stock. Fails, changing nothing, when
    /// either count would exceed `u32::MAX`; beans are reported first.
    pub fn refill(&mut self, beans: u32, milk: u32) -> (r: Result<Stock, LedgerError>)
        ensures
            match refill_error(old(self).view(), beans, milk) {
                Some(e) => r == Err::<Stock, LedgerError>(e) && final(self).view() == old(self).view(),
                None => r == Ok::<Stock, LedgerError>(final(self).view())
                    && final(self).view().beans == old(self).view().beans + beans
                    && final(self).view().milk == old(self).view().milk + milk,
            },
            final(self).view() == after(old(self).view(), LedgerOp::Refill(beans, milk)),
    {
        let b = self.stock.beans.checked_add(beans);
        let m = self.stock.milk.checked_add(milk);
        match (b, m) {
            (None, _) => Err(LedgerError::Overflow(Ingredient::Beans)),
            (Some(_), None) => Err(LedgerError::Overflow(Ingredient::Milk)),
            (Some(nb), Some(nm)) => {
                self.stock = Stock { beans: nb, milk: nm };
                Ok(self.stock)
            },
        }
    }

    /// Applies one operation.
    pub fn apply(&mut self, op: LedgerOp) -> (r: Result<Stock, LedgerError>)
        ensures
            final(self).view() == after(old(self).view(), op),
            r is Ok <==> accepts(old(self).view(), op),
    {
        match op {
            LedgerOp::Reserve(b, m) => self.reserve(b, m),
            LedgerOp::Refill(b, m) => self.refill(b, m),
        }
    }

    /// Answers a read of the fill levels.
    pub fn get_fill(&self) -> (r: Stock)
        ensures
            r == self.view(),
    {
        self.read()
    }

    /// Answers a refill request: the quantities left out count as zero, and
    /// a request with nothing to add is rejected with `NoValues`.
    pub fn put_fill(&mut self, update: FillUpdate) -> (r: Result<Stock, LedgerError>)
        ensures
            fill_is_empty(update) ==> r == Err::<Stock, LedgerError>(LedgerError::NoValues)
                && final(self).view() == old(self).view(),
            !fill_is_empty(update) ==> final(self).view() == after(
                old(self).view(),
                LedgerOp::Refill(amount(update.beans), amount(update.milk)),
            ) && match refill_error(old(self).view(), amount(update.beans), amount(update.milk)) {
                Some(e) => r == Err::<Stock, LedgerError>(e),
                None => r == Ok::<Stock, LedgerError>(final(self).view()),
            },
    {
        let beans = quantity(update.beans);
        let milk = quantity(update.milk);
        if beans == 0 && milk == 0 {
            return Err(LedgerError::NoValues);
        }
        self.refill(beans, milk)
    }

    /// Answers a reservation request: the quantities left out count as zero,
    /// and a request with nothing to take is rejected with `NoValues`.
    pub fn del_fill(&mut self, update: FillUpdate) -> (r: Result<Stock, LedgerError>)
        ensures
            fill_is_empty(update) ==> r == Err::<Stock, LedgerError>(LedgerError::NoValues)
                && final(self).view() == old(self).view(),
            !fill_is_empty(update) ==> final(self).view() == after(
                old(self).view(),
                LedgerOp::Reserve(amount(update.beans), amount(update.milk)),
            ) && match reserve_error(old(self).view(), amount(update.beans), amount(update.milk)) {
                Some(e) => r == Err::<Stock, LedgerError>(e),
                None => r == Ok::<Stock, LedgerError>(final(self).view()),
            },
    {
        let beans = quantity(update.beans);
        let milk = quantity(update.milk);
        if beans == 0 && milk == 0 {
            return Err(LedgerError::NoValues);
        }
        self.reserve(beans, milk)
    }
}

/// A quantity of a fill request; one left out counts as zero.
pub open spec fn amount(q: Option<u32>) -> u32 {
    match q {
        Some(v) => v,
        None => 0,
    }
}

/// Whether a fill request asks for no change at all.
pub open spec fn fill_is_empty(u: FillUpdate) -> bool {
    amount(u.beans) == 0 && amount(u.milk) == 0
}

fn quantity(q: Option<u32>) -> (r: u32)
    ensures
        r == amount(q),
{
    match q {
        Some(v) => v,
        None => 0,
    }
}

} // verus!
