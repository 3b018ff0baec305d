use coffee_orders::producer::{order_event, publish_outcome, submit, QueueLength, SubmitError};
use coffee_orders::recipe::{parse_drink, DrinkType, Recipe};

#[test]
fn recipes_match_the_table() {
    assert_eq!(DrinkType::Espresso.recipe(), Recipe { beans: 1, milk: 0 });
    assert_eq!(DrinkType::Coffee.recipe(), Recipe { beans: 2, milk: 1 });
    assert_eq!(DrinkType::Cappuccino.recipe(), Recipe { beans: 1, milk: 2 });
}

#[test]
fn drink_names_are_recognised() {
    assert_eq!(parse_drink("espresso"), Some(DrinkType::Espresso));
    assert_eq!(parse_drink("coffee"), Some(DrinkType::Coffee));
    assert_eq!(parse_drink("cappuccino"), Some(DrinkType::Cappuccino));
    assert_eq!(parse_drink("tea"), None);
    assert_eq!(parse_drink("Espresso"), None);
    assert_eq!(parse_drink(""), None);
}

#[test]
fn drink_names_round_trip() {
    for d in [DrinkType::Espresso, DrinkType::Coffee, DrinkType::Cappuccino] {
        assert_eq!(parse_drink(&d.name()), Some(d));
    }
}

#[test]
fn unsupported_drink_is_rejected() {
    for name in ["tea", "latte", "", "coffee ", "COFFEE"] {
        assert_eq!(submit(name).unwrap_err(), SubmitError::UnsupportedDrink);
    }
}

#[test]
fn submission_gets_fresh_identifier() {
    let a = submit("cappuccino").unwrap();
    let b = submit("cappuccino").unwrap();
    assert_eq!(a.drink_type, "cappuccino");
    assert_eq!(a.order_id.len(), 36);
    assert_eq!(a.order_id.chars().filter(|c| *c == '-').count(), 4);
    assert_ne!(a.order_id, b.order_id);
    assert!(!a.placed_at.is_empty());
}

#[test]
fn order_event_carries_its_inputs() {
    let e = order_event("coffee", "id-1".to_string(), "2024-01-01T00:00:00Z".to_string()).unwrap();
    assert_eq!(e.order_id, "id-1");
    assert_eq!(e.drink_type, "coffee");
    assert_eq!(e.placed_at, "2024-01-01T00:00:00Z");
    let bad = order_event("mocha", "id-2".to_string(), "t".to_string());
    assert_eq!(bad.unwrap_err(), SubmitError::UnsupportedDrink);
}

#[test]
fn confirmed_publish_returns_identifier() {
    let e = order_event("espresso", "abc".to_string(), "t".to_string()).unwrap();
    assert_eq!(publish_outcome(e, true), Ok("abc".to_string()));
}

#[test]
fn unconfirmed_publish_fails() {
    let e = order_event("espresso", "abc".to_string(), "t".to_string()).unwrap();
    assert_eq!(publish_outcome(e, false), Err(SubmitError::PublishFailure));
}

#[test]
fn queue_length_from_count() {
    assert_eq!(QueueLength::from_messages_ready(Some(7)).pending_coffee_orders, 7);
    assert_eq!(QueueLength::from_messages_ready(None).pending_coffee_orders, 0);
    assert_eq!(QueueLength::from_messages_ready(Some((1u64 << 32) + 3)).pending_coffee_orders, 3);
}
