//! Currencies and their listing for clients.

use vstd::prelude::*;

verus! {

use crate::text::str_eq;
use crate::types::CurrencyId;

/// A currency the platform can price in.
#[derive(Clone, Copy, Debug, PartialEq, Eq, Structural, Hash)]
pub enum Currency {
    Rouble,
    Euro,
    Dollar,
    Bitcoin,
    Etherium,
    Stq,
}

impl Currency {
    /// The textual form of each value.
    pub open spec fn name_spec(self) -> Seq<char> {
        match self {
            Currency::Rouble => "rouble"@,
            Currency::Euro => "euro"@,
            Currency::Dollar => "dollar"@,
            Currency::Bitcoin => "bitcoin"@,
            Currency::Etherium => "etherium"@,
            Currency::Stq => "stq"@,
        }
    }

    /// Renders the value's textual form.
    pub fn name(&self) -> (r: &'static str)
        ensures
            r@ == self.name_spec(),
    {
        match self {
            Currency::Rouble => "rouble",
            Currency::Euro => "euro",
            Currency::Dollar => "dollar",
            Currency::Bitcoin => "bitcoin",
            Currency::Etherium => "etherium",
            Currency::Stq => "stq",
        }
    }

    /// The value a textual form denotes, or nothing for any other text.
    pub open spec fn from_str_spec(s: Seq<char>) -> Option<Currency> {
        if s == "rouble"@ {
            Some(Currency::Rouble)
        } else if s == "euro"@ {
            Some(Currency::Euro)
        } else if s == "dollar"@ {
            Some(Currency::Dollar)
        } else if s == "bitcoin"@ {
            Some(Currency::Bitcoin)
        } else if s == "etherium"@ {
            Some(Currency::Etherium)
        } else if s == "stq"@ {
            Some(Currency::Stq)
        } else {
            None
        }
    }

    /// Parses a textual form; `Some` exactly on the recognized texts.
    pub fn from_str(s: &str) -> (r: Option<Currency>)
        ensures
            r == Self::from_str_spec(s@),
    {
        if str_eq(s, "rouble") {
            Some(Currency::Rouble)
        } else if str_eq(s, "euro") {
            Some(Currency::Euro)
        } else if str_eq(s, "dollar") {
            Some(Currency::Dollar)
        } else if str_eq(s, "bitcoin") {
            Some(Currency::Bitcoin)
        } else if str_eq(s, "etherium") {
            Some(Currency::Etherium)
        } else if str_eq(s, "stq") {
            Some(Currency::Stq)
        } else {
            None
        }
    }

    /// The numeric key of each value.
    pub open spec fn key_spec(self) -> i32 {
        match self {
            Currency::Rouble => 1,
            Currency::Euro => 2,
            Currency::Dollar => 3,
            Currency::Bitcoin => 4,
            Currency::Etherium => 5,
            Currency::Stq => 6,
        }
    }

    /// The value's numeric key.
    pub fn key(&self) -> (r: i32)
        ensures
            r == self.key_spec(),
    {
        match self {
            Currency::Rouble => 1,
            Currency::Euro => 2,
            Currency::Dollar => 3,
            Currency::Bitcoin => 4,
            Currency::Etherium => 5,
            Currency::Stq => 6,
        }
    }

    /// Lists every currency with its key and name, in key order.
    pub fn as_vec() -> (r: Vec<CurrencyGraphQl>)
        ensures
            r@.len() == 6,
            forall|i: int|
                0 <= i < 6 ==> (#[trigger] r@[i]).key == i + 1 && r@[i].name@
                    == Currency::of_key(i + 1).name_spec(),
    {
        let mut r: Vec<CurrencyGraphQl> = Vec::new();
        r.push(CurrencyGraphQl::new(1, String::from_str("rouble")));
        r.push(CurrencyGraphQl::new(2, String::from_str("euro")));
        r.push(CurrencyGraphQl::new(3, String::from_str("dollar")));
        r.push(CurrencyGraphQl::new(4, String::from_str("bitcoin")));
        r.push(CurrencyGraphQl::new(5, String::from_str("etherium")));
        r.push(CurrencyGraphQl::new(6, String::from_str("stq")));
        r
    }

    /// The currency a key between one and six denotes; keys outside that
    /// range fall back to the rouble.
    pub open spec fn of_key(k: int) -> Currency {
        if k == 1 {
            Currency::Rouble
        } else if k == 2 {
            Currency::Euro
        } else if k == 3 {
            Currency::Dollar
        } else if k == 4 {
            Currency::Bitcoin
        } else if k == 5 {
            Currency::Etherium
        } else {
            Currency::Stq
        }
    }
}

/// A currency as clients list it: its key and its name.
#[derive(Clone, Debug)]
pub struct CurrencyGraphQl {
    pub key: i32,
    pub name: String,
}

impl CurrencyGraphQl {
    /// Pairs a key with a name.
    pub fn new(key: i32, name: String) -> (r: Self)
        ensures
            r.key == key,
            r.name == name,
    {
        Self { key, name }
    }
}

impl CurrencyId {
    /// The name of the currency a stored key denotes, or `unknown` for a
    /// key outside the known range.
    pub open spec fn name_of_spec(self) -> Seq<char> {
        if 1 <= self.0 <= 6 {
            Currency::of_key(self.0 as int).name_spec()
        } else {
            "unknown"@
        }
    }

    /// Renders the name of the currency this key denotes.
    pub fn name(&self) -> (r: &'static str)
        ensures
            r@ == self.name_of_spec(),
    {
        if self.0 == 1 {
            "rouble"
        } else if self.0 == 2 {
            "euro"
        } else if self.0 == 3 {
            "dollar"
        } else if self.0 == 4 {
            "bitcoin"
        } else if self.0 == 5 {
            "etherium"
        } else if self.0 == 6 {
            "stq"
        } else {
            "unknown"
        }
    }
}

} // verus!
