//! Moderation states of listed content.

use vstd::prelude::*;

verus! {

use crate::text::str_eq;

/// Where a piece of content stands in moderation.
#[derive(Clone, Copy, Debug, PartialEq, Eq, Structural, Hash)]
pub enum ModerationStatus {
    Draft,
    Moderation,
    Decline,
    Published,
}

impl ModerationStatus {
    /// The textual form of each value.
    pub open spec fn name_spec(self) -> Seq<char> {
        match self {
            ModerationStatus::Draft => "draft"@,
            ModerationStatus::Moderation => "moderation"@,
            ModerationStatus::Decline => "decline"@,
            ModerationStatus::Published => "published"@,
        }
    }

    /// Renders the value's textual form.
    pub fn name(&self) -> (r: &'static str)
        ensures
            r@ == self.name_spec(),
    {
        match self {
            ModerationStatus::Draft => "draft",
            ModerationStatus::Moderation => "moderation",
            ModerationStatus::Decline => "decline",
            ModerationStatus::Published => "published",
        }
    }

    /// The value a textual form denotes, or nothing for any other text.
    pub open spec fn from_str_spec(s: Seq<char>) -> Option<ModerationStatus> {
        if s == "draft"@ {
            Some(ModerationStatus::Draft)
        } else if s == "moderation"@ {
            Some(ModerationStatus::Moderation)
        } else if s == "decline"@ {
            Some(ModerationStatus::Decline)
        } else if s == "published"@ {
            Some(ModerationStatus::Published)
        } else {
            None
        }
    }

    /// Parses a textual form; `Some` exactly on the recognized texts.
    pub fn from_str(s: &str) -> (r: Option<ModerationStatus>)
        ensures
            r == Self::from_str_spec(s@),
    {
        if str_eq(s, "draft") {
            Some(ModerationStatus::Draft)
        } else if str_eq(s, "moderation") {
            Some(ModerationStatus::Moderation)
        } else if str_eq(s, "decline") {
            Some(ModerationStatus::Decline)
        } else if str_eq(s, "published") {
            Some(ModerationStatus::Published)
        } else {
            None
        }
    }

    /// Lists every moderation status, in order.
    pub fn as_vec() -> (r: Vec<ModerationStatus>)
        ensures
            r@ == seq![
                ModerationStatus::Draft,
                ModerationStatus::Moderation,
                ModerationStatus::Decline,
                ModerationStatus::Published,
            ],
    {
        let mut r: Vec<ModerationStatus> = Vec::new();
        r.push(ModerationStatus::Draft);
        r.push(ModerationStatus::Moderation);
        r.push(ModerationStatus::Decline);
        r.push(ModerationStatus::Published);
        proof {
            assert(r@ =~= seq![
                ModerationStatus::Draft,
                ModerationStatus::Moderation,
                ModerationStatus::Decline,
                ModerationStatus::Published,
            ]);
        }
        r
    }
}

} // verus!
