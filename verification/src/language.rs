//! Languages and their listing for clients.

use vstd::prelude::*;

verus! {

use crate::text::str_eq;

/// A language the platform can speak.
#[derive(Clone, Copy, Debug, PartialEq, Eq, Structural, Hash)]
pub enum Language {
    English,
    Chinese,
    German,
    Russian,
    Spanish,
    French,
    Korean,
    Portuguese,
    Japanese,
}

impl Language {
    /// The textual form of each value.
    pub open spec fn name_spec(self) -> Seq<char> {
        match self {
            Language::English => "english"@,
            Language::Chinese => "chinese"@,
            Language::German => "german"@,
            Language::Russian => "russian"@,
            Language::Spanish => "spanish"@,
            Language::French => "french"@,
            Language::Korean => "korean"@,
            Language::Portuguese => "portuguese"@,
            Language::Japanese => "japanese"@,
        }
    }

    /// Renders the value's textual form.
    pub fn name(&self) -> (r: &'static str)
        ensures
            r@ == self.name_spec(),
    {
        match self {
            Language::English => "english",
            Language::Chinese => "chinese",
            Language::German => "german",
            Language::Russian => "russian",
            Language::Spanish => "spanish",
            Language::French => "french",
            Language::Korean => "korean",
            Language::Portuguese => "portuguese",
            Language::Japanese => "japanese",
        }
    }

    /// The value a textual form denotes, or nothing for any other text.
    pub open spec fn from_str_spec(s: Seq<char>) -> Option<Language> {
        if s == "english"@ {
            Some(Language::English)
        } else if s == "chinese"@ {
            Some(Language::Chinese)
        } else if s == "german"@ {
            Some(Language::German)
        } else if s == "russian"@ {
            Some(Language::Russian)
        } else if s == "spanish"@ {
            Some(Language::Spanish)
        } else if s == "french"@ {
            Some(Language::French)
        } else if s == "korean"@ {
            Some(Language::Korean)
        } else if s == "portuguese"@ {
            Some(Language::Portuguese)
        } else if s == "japanese"@ {
            Some(Language::Japanese)
        } else {
            None
        }
    }

    /// Parses a textual form; `Some` exactly on the recognized texts.
    pub fn from_str(s: &str) -> (r: Option<Language>)
        ensures
            r == Self::from_str_spec(s@),
    {
        if str_eq(s, "english") {
            Some(Language::English)
        } else if str_eq(s, "chinese") {
            Some(Language::Chinese)
        } else if str_eq(s, "german") {
            Some(Language::German)
        } else if str_eq(s, "russian") {
            Some(Language::Russian)
        } else if str_eq(s, "spanish") {
            Some(Language::Spanish)
        } else if str_eq(s, "french") {
            Some(Language::French)
        } else if str_eq(s, "korean") {
            Some(Language::Korean)
        } else if str_eq(s, "portuguese") {
            Some(Language::Portuguese)
        } else if str_eq(s, "japanese") {
            Some(Language::Japanese)
        } else {
            None
        }
    }

    /// The numeric key of each value.
    pub open spec fn key_spec(self) -> i32 {
        match self {
            Language::English => 1,
            Language::Chinese => 2,
            Language::German => 3,
            Language::Russian => 4,
            Language::Spanish => 5,
            Language::French => 6,
            Language::Korean => 7,
            Language::Portuguese => 8,
            Language::Japanese => 9,
        }
    }

    /// The value's numeric key.
    pub fn key(&self) -> (r: i32)
        ensures
            r == self.key_spec(),
    {
        match self {
            Language::English => 1,
            Language::Chinese => 2,
            Language::German => 3,
            Language::Russian => 4,
            Language::Spanish => 5,
            Language::French => 6,
            Language::Korean => 7,
            Language::Portuguese => 8,
            Language::Japanese => 9,
        }
    }

    /// The language a key between one and nine denotes; keys outside that
    /// range fall back to English.
    pub open spec fn of_key(k: int) -> Language {
        if k == 2 {
            Language::Chinese
        } else if k == 3 {
            Language::German
        } else if k == 4 {
            Language::Russian
        } else if k == 5 {
            Language::Spanish
        } else if k == 6 {
            Language::French
        } else if k == 7 {
            Language::Korean
        } else if k == 8 {
            Language::Portuguese
        } else if k == 9 {
            Language::Japanese
        } else {
            Language::English
        }
    }

    /// Lists every language with its key and name, in key order.
    pub fn as_vec() -> (r: Vec<LanguageGraphQl>)
        ensures
            r@.len() == 9,
            forall|i: int|
                0 <= i < 9 ==> (#[trigger] r@[i]).key == i + 1 && r@[i].name@ == Language::of_key(
                    i + 1,
                ).name_spec(),
    {
        let mut r: Vec<LanguageGraphQl> = Vec::new();
        r.push(LanguageGraphQl::new(1, String::from_str("english")));
        r.push(LanguageGraphQl::new(2, String::from_str("chinese")));
        r.push(LanguageGraphQl::new(3, String::from_str("german")));
        r.push(LanguageGraphQl::new(4, String::from_str("russian")));
        r.push(LanguageGraphQl::new(5, String::from_str("spanish")));
        r.push(LanguageGraphQl::new(6, String::from_str("french")));
        r.push(LanguageGraphQl::new(7, String::from_str("korean")));
        r.push(LanguageGraphQl::new(8, String::from_str("portuguese")));
        r.push(LanguageGraphQl::new(9, String::from_str("japanese")));
        r
    }
}

/// A language as clients list it: its key and its name.
#[derive(Clone, Debug)]
pub struct LanguageGraphQl {
    pub key: i32,
    pub name: String,
}

impl LanguageGraphQl {
    /// Pairs a key with a name.
    pub fn new(key: i32, name: String) -> (r: Self)
        ensures
            r.key == key,
            r.name == name,
    {
        Self { key, name }
    }
}

} // verus!
