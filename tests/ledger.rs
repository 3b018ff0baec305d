use coffee_orders::inventory::{FillUpdate, Ingredient, Ledger, LedgerError, LedgerOp, Stock};

#[test]
fn reserve_takes_both_quantities() {
    let mut l = Ledger::new(20, 10);
    assert_eq!(l.reserve(2, 1), Ok(Stock { beans: 18, milk: 9 }));
    assert_eq!(l.read(), Stock { beans: 18, milk: 9 });
}

#[test]
fn reserve_rejects_bean_underflow_without_change() {
    let mut l = Ledger::new(1, 5);
    assert_eq!(l.reserve(2, 1), Err(LedgerError::Underflow(Ingredient::Beans)));
    assert_eq!(l.read(), Stock { beans: 1, milk: 5 });
}

#[test]
fn reserve_rejects_milk_underflow_without_touching_beans() {
    let mut l = Ledger::new(5, 0);
    assert_eq!(l.reserve(2, 1), Err(LedgerError::Underflow(Ingredient::Milk)));
    assert_eq!(l.read(), Stock { beans: 5, milk: 0 });
}

#[test]
fn reserve_everything_leaves_zero() {
    let mut l = Ledger::new(3, 4);
    assert_eq!(l.reserve(3, 4), Ok(Stock { beans: 0, milk: 0 }));
}

#[test]
fn refill_adds() {
    let mut l = Ledger::new(1, 2);
    assert_eq!(l.refill(10, 20), Ok(Stock { beans: 11, milk: 22 }));
}

#[test]
fn refill_beans_overflow_is_rejected() {
    let mut l = Ledger::new(1, 0);
    assert_eq!(l.refill(4294967295, 0), Err(LedgerError::Overflow(Ingredient::Beans)));
    assert_eq!(l.read(), Stock { beans: 1, milk: 0 });
}

#[test]
fn refill_milk_overflow_keeps_beans() {
    let mut l = Ledger::new(1, u32::MAX);
    assert_eq!(l.refill(5, 1), Err(LedgerError::Overflow(Ingredient::Milk)));
    assert_eq!(l.read(), Stock { beans: 1, milk: u32::MAX });
}

#[test]
fn refill_up_to_the_largest_count() {
    let mut l = Ledger::new(1, 0);
    assert_eq!(l.refill(u32::MAX - 1, 0), Ok(Stock { beans: u32::MAX, milk: 0 }));
}

#[test]
fn second_cappuccino_reservation_fails() {
    let mut l = Ledger::new(1, 2);
    assert!(l.reserve(1, 2).is_ok());
    assert_eq!(l.reserve(1, 2), Err(LedgerError::Underflow(Ingredient::Beans)));
    assert_eq!(l.read(), Stock { beans: 0, milk: 0 });
}

#[test]
fn sequence_sums_accepted_deltas() {
    let mut l = Ledger::new(5, 5);
    let ops = [
        LedgerOp::Reserve(2, 1),
        LedgerOp::Reserve(10, 0),
        LedgerOp::Refill(4, 4),
        LedgerOp::Refill(u32::MAX, 0),
        LedgerOp::Reserve(7, 8),
    ];
    let results: Vec<bool> = ops.iter().map(|op| l.apply(*op).is_ok()).collect();
    assert_eq!(results, vec![true, false, true, false, true]);
    assert_eq!(l.read(), Stock { beans: 5 - 2 + 4 - 7, milk: 5 - 1 + 4 - 8 });
}

#[test]
fn get_fill_reports_stock() {
    let l = Ledger::new(20, 10);
    assert_eq!(l.get_fill(), Stock { beans: 20, milk: 10 });
}

#[test]
fn put_fill_with_nothing_is_rejected() {
    let mut l = Ledger::new(20, 10);
    let empty = FillUpdate { beans: None, milk: Some(0) };
    assert_eq!(l.put_fill(empty), Err(LedgerError::NoValues));
    assert_eq!(l.read(), Stock { beans: 20, milk: 10 });
}

#[test]
fn put_fill_missing_quantity_counts_as_zero() {
    let mut l = Ledger::new(20, 10);
    let upd = FillUpdate { beans: Some(5), milk: None };
    assert_eq!(l.put_fill(upd), Ok(Stock { beans: 25, milk: 10 }));
}

#[test]
fn put_fill_overflow() {
    let mut l = Ledger::new(1, 0);
    let upd = FillUpdate { beans: Some(4294967295), milk: None };
    assert_eq!(l.put_fill(upd), Err(LedgerError::Overflow(Ingredient::Beans)));
    assert_eq!(l.read(), Stock { beans: 1, milk: 0 });
}

#[test]
fn del_fill_takes_stock() {
    let mut l = Ledger::new(20, 10);
    let upd = FillUpdate { beans: Some(1), milk: Some(2) };
    assert_eq!(l.del_fill(upd), Ok(Stock { beans: 19, milk: 8 }));
}

#[test]
fn del_fill_with_nothing_is_rejected() {
    let mut l = Ledger::new(20, 10);
    let upd = FillUpdate { beans: Some(0), milk: None };
    assert_eq!(l.del_fill(upd), Err(LedgerError::NoValues));
}

#[test]
fn del_fill_underflow_changes_nothing() {
    let mut l = Ledger::new(2, 0);
    let upd = FillUpdate { beans: Some(1), milk: Some(1) };
    assert_eq!(l.del_fill(upd), Err(LedgerError::Underflow(Ingredient::Milk)));
    assert_eq!(l.read(), Stock { beans: 2, milk: 0 });
}

#[test]
fn double_stock_serves_two_reservations() {
    let mut l = Ledger::new(2, 4);
    assert_eq!(l.reserve(1, 2), Ok(Stock { beans: 1, milk: 2 }));
    assert_eq!(l.reserve(1, 2), Ok(Stock { beans: 0, milk: 0 }));
    assert_eq!(l.reserve(1, 2), Err(LedgerError::Underflow(Ingredient::Beans)));
}
