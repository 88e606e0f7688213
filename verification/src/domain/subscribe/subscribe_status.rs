//! The state of a subscription.

use crate::domain::subscribe::subscribe_error::{SubscribeError, SubscribeErrorView};
use crate::text::str_eq;
use vstd::prelude::*;

verus! {

/// The state of a subscription.
#[allow(clippy::upper_case_acronyms)]
#[derive(Debug, Clone, Copy, PartialEq, Eq, Structural)]
pub enum SubscribeStatus {
    ACTIVE,
    PAUSED,
    CANCELLED,
}

impl SubscribeStatus {
    /// The label of the status.
    pub open spec fn label(self) -> Seq<char> {
        match self {
            SubscribeStatus::ACTIVE => "ACTIVE"@,
            SubscribeStatus::PAUSED => "PAUSED"@,
            SubscribeStatus::CANCELLED => "CANCELLED"@,
        }
    }

    /// The status that `s` names, if it names one: the one whose label is
    /// exactly `s`.
    pub open spec fn from_text(s: Seq<char>) -> Option<SubscribeStatus> {
        if exists|t: SubscribeStatus| t.label() == s {
            Some(choose|t: SubscribeStatus| t.label() == s)
        } else {
            None
        }
    }

    /// No two statuses share a label.
    pub proof fn lemma_label_injective(a: SubscribeStatus, b: SubscribeStatus)
        requires
            a.label() == b.label(),
        ensures
            a == b,
    {
        reveal_strlit("ACTIVE");
        reveal_strlit("PAUSED");
        reveal_strlit("CANCELLED");
        assert("ACTIVE"@.len() == 6 && "ACTIVE"@[0] == 'A');
        assert("PAUSED"@.len() == 6 && "PAUSED"@[0] == 'P');
        assert("CANCELLED"@.len() == 9);
    }

    /// No label is empty.
    pub proof fn lemma_label_not_empty(t: SubscribeStatus)
        ensures
            t.label().len() > 0,
    {
        reveal_strlit("ACTIVE");
        reveal_strlit("PAUSED");
        reveal_strlit("CANCELLED");
        assert("ACTIVE"@.len() == 6);
        assert("PAUSED"@.len() == 6);
        assert("CANCELLED"@.len() == 9);
    }

    /// Parsing the label of a status gives the status.
    pub proof fn lemma_from_text_label(t: SubscribeStatus)
        ensures
            SubscribeStatus::from_text(t.label()) == Some(t),
    {
        let d = choose|d: SubscribeStatus| d.label() == t.label();
        Self::lemma_label_injective(d, t);
    }

    /// Parses a status from its label; the match is exact and case
    /// sensitive.
    pub fn from_str(s: &str) -> (r: Result<Self, SubscribeError>)
        ensures
            match r {
                Ok(t) => SubscribeStatus::from_text(s@) == Some(t),
                Err(e) => SubscribeStatus::from_text(s@) is None
                    && e@ == SubscribeErrorView::InvalidSubscribeStatus(s@),
            },
    {
        let found = if str_eq(s, "ACTIVE") {
            Some(SubscribeStatus::ACTIVE)
        } else if str_eq(s, "PAUSED") {
            Some(SubscribeStatus::PAUSED)
        } else if str_eq(s, "CANCELLED") {
            Some(SubscribeStatus::CANCELLED)
        } else {
            None
        };
        match found {
            Some(t) => {
                proof {
                    Self::lemma_from_text_label(t);
                }
                Ok(t)
            },
            None => {
                assert forall|t: SubscribeStatus| t.label() != s@ by {}
                Err(SubscribeError::InvalidSubscribeStatus(s.to_owned()))
            },
        }
    }

    /// The label, as a string.
    pub fn to_string(&self) -> (r: String)
        ensures
            r@ == self.label(),
    {
        match self {
            SubscribeStatus::ACTIVE => "ACTIVE".to_owned(),
            SubscribeStatus::PAUSED => "PAUSED".to_owned(),
            SubscribeStatus::CANCELLED => "CANCELLED".to_owned(),
        }
    }
}

} // verus!
