//! Delivery companies the platform can ship with.

use vstd::prelude::*;

verus! {

use crate::text::str_eq;

/// A delivery company.
#[derive(Clone, Copy, Debug, PartialEq, Eq, Structural, Hash)]
pub enum DeliveryCompany {
    UPS,
    DHL,
}

impl DeliveryCompany {
    /// The textual form of each value.
    pub open spec fn name_spec(self) -> Seq<char> {
        match self {
            DeliveryCompany::UPS => "ups"@,
            DeliveryCompany::DHL => "dhl"@,
        }
    }

    /// Renders the value's textual form.
    pub fn name(&self) -> (r: &'static str)
        ensures
            r@ == self.name_spec(),
    {
        match self {
            DeliveryCompany::UPS => "ups",
            DeliveryCompany::DHL => "dhl",
        }
    }

    /// The value a textual form denotes, or nothing for any other text.
    pub open spec fn from_str_spec(s: Seq<char>) -> Option<DeliveryCompany> {
        if s == "ups"@ {
            Some(DeliveryCompany::UPS)
        } else if s == "dhl"@ {
            Some(DeliveryCompany::DHL)
        } else {
            None
        }
    }

    /// Parses a textual form; `Some` exactly on the recognized texts.
    pub fn from_str(s: &str) -> (r: Option<DeliveryCompany>)
        ensures
            r == Self::from_str_spec(s@),
    {
        if str_eq(s, "ups") {
            Some(DeliveryCompany::UPS)
        } else if str_eq(s, "dhl") {
            Some(DeliveryCompany::DHL)
        } else {
            None
        }
    }

}

} // verus!
