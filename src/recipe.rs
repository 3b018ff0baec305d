//! The fixed recipe table: which drinks exist and what each one consumes.
use vstd::prelude::*;

verus! {

/// The drinks the machine can make.
#[derive(Clone, Copy, Debug, PartialEq, Eq, Structural)]
pub enum DrinkType {
    Espresso,
    Coffee,
    Cappuccino,
}

/// The ingredients one drink consumes.
#[derive(Clone, Copy, Debug, PartialEq, Eq, Structural)]
pub struct Recipe {
    pub beans: u32,
    pub milk: u32,
}

/// The drink a name stands for; any other name is not a drink.
pub open spec fn drink_of(name: Seq<char>) -> Option<DrinkType> {
    if name == "espresso"@ {
        Some(DrinkType::Espresso)
    } else if name == "coffee"@ {
        Some(DrinkType::Coffee)
    } else if name == "cappuccino"@ {
        Some(DrinkType::Cappuccino)
    } else {
        None
    }
}

/// The name under which a drink travels on the wire.
pub open spec fn name_of(d: DrinkType) -> Seq<char> {
    match d {
        DrinkType::Espresso => "espresso"@,
        DrinkType::Coffee => "coffee"@,
        DrinkType::Cappuccino => "cappuccino"@,
    }
}

/// The recipe table: espresso (1, 0), coffee (2, 1), cappuccino (1, 2).
pub open spec fn recipe_of(d: DrinkType) -> Recipe {
    match d {
        DrinkType::Espresso => Recipe { beans: 1, milk: 0 },
        DrinkType::Coffee => Recipe { beans: 2, milk: 1 },
        DrinkType::Cappuccino => Recipe { beans: 1, milk: 2 },
    }
}

/// Each drink's name maps back to that drink.
pub proof fn lemma_name_round_trip(d: DrinkType)
    ensures
        drink_of(name_of(d)) == Some(d),
{
    reveal_strlit("espresso");
    reveal_strlit("coffee");
    reveal_strlit("cappuccino");
    assert("espresso"@.len() == 8);
    assert("coffee"@.len() == 6);
    assert("cappuccino"@.len() == 10);
}

fn same_text(a: &str, b: &str) -> (r: bool)
    ensures
        r == (a@ == b@),
{
    let x = a.to_owned();
    let y = b.to_owned();
    x == y
}

/// Recognises a drink by its name; unknown names give `None`.
pub fn parse_drink(name: &str) -> (r: Option<DrinkType>)
    ensures
        r == drink_of(name@),
{
    if same_text(name, "espresso") {
        Some(DrinkType::Espresso)
    } else if same_text(name, "coffee") {
        Some(DrinkType::Coffee)
    } else if same_text(name, "cappuccino") {
        Some(DrinkType::Cappuccino)
    } else {
        None
    }
}

impl DrinkType {
    /// The ingredients this drink consumes.
    pub fn recipe(self) -> (r: Recipe)
        ensures
            r == recipe_of(self),
    {
        match self {
            DrinkType::Espresso => Recipe { beans: 1, milk: 0 },
            DrinkType::Coffee => Recipe { beans: 2, milk: 1 },
            DrinkType::Cappuccino => Recipe { beans: 1, milk: 2 },
        }
    }

    /// The drink's wire name.
    pub fn name(self) -> (r: String)
        ensures
            r@ == name_of(self),
    {
        match self {
            DrinkType::Espresso => "espresso".to_owned(),
            DrinkType::Coffee => "coffee".to_owned(),
            DrinkType::Cappuccino => "cappuccino".to_owned(),
        }
    }
}

} // verus!
