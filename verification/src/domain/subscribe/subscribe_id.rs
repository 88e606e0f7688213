//! The identifier of a subscription. Unlike the other identifiers it stores
//! the bare UUID text and shows its prefix only when displayed, as
//! `SUBSCRIBE-<uuid>`.

use crate::domain::uuid_codec::{
    format_uuid, is_version4, lemma_uuid_text_round_trip, lemma_uuid_text_shape, parse_uuid, random_uuid,
    uuid_from_text, uuid_text,
};
use crate::domain::{lemma_position, position, AggregateId, AggregateIdError};
use crate::text::{chars_of, str_eq};
use vstd::prelude::*;

verus! {

/// The prefix that a displayed subscription identifier starts with.
pub const SUBSCRIBE_PREFIX: &'static str = "SUBSCRIBE";

/// The identifier of a subscription: a UUID and its canonical text.
#[derive(Debug, PartialEq, Eq)]
pub struct SubscribeId {
    uuid: u128,
    value: String,
}

/// The displayed text of the subscription identifier with UUID `u`.
pub open spec fn subscribe_id_text(u: u128) -> Seq<char> {
    SUBSCRIBE_PREFIX@ + seq!['-'] + uuid_text(u)
}

/// What parsing `s` as a displayed subscription identifier gives: the text
/// is split at its first hyphen; the part before it must be the prefix and
/// the part behind it must write a UUID.
pub open spec fn parse_subscribe_id_spec(s: Seq<char>) -> Result<u128, AggregateIdError> {
    let at = position(s, '-');
    if at == s.len() {
        Err(AggregateIdError::InvalidFormat)
    } else if s.subrange(0, at) != SUBSCRIBE_PREFIX@ {
        Err(AggregateIdError::InvalidFormat)
    } else {
        match uuid_from_text(s.subrange(at + 1, s.len() as int)) {
            Some(u) => Ok(u),
            None => Err(AggregateIdError::InvalidUuid),
        }
    }
}

impl View for SubscribeId {
    type V = u128;

    /// The UUID of this identifier.
    closed spec fn view(&self) -> u128 {
        self.uuid
    }
}

impl SubscribeId {
    /// What holds of every value of the type.
    #[verifier::type_invariant]
    pub open spec fn inv(self) -> bool {
        self.wf()
    }

    /// The stored text.
    pub closed spec fn text(self) -> Seq<char> {
        self.value@
    }

    /// The stored text is the canonical text of the UUID.
    pub open spec fn wf(self) -> bool {
        self.text() == uuid_text(self@)
    }

    /// A fresh identifier with a random UUID.
    pub fn new() -> (r: Self)
        ensures
            r.wf(),
            is_version4(r@),
    {
        Self::from(random_uuid())
    }

    /// The identifier of the given UUID.
    pub fn from(uuid: u128) -> (r: Self)
        ensures
            r@ == uuid,
            r.wf(),
    {
        Self { uuid, value: format_uuid(uuid) }
    }

    /// Parses `SUBSCRIBE-<uuid>`; the UUID may be written in any accepted
    /// shape and is stored in canonical form.
    pub fn from_str(s: &str) -> (r: Result<Self, AggregateIdError>)
        ensures
            match r {
                Ok(id) => parse_subscribe_id_spec(s@) == Ok::<u128, AggregateIdError>(id@)
                    && id.wf(),
                Err(e) => parse_subscribe_id_spec(s@) == Err::<u128, AggregateIdError>(e),
            },
    {
        let chars = chars_of(s);
        let n = chars.len();
        let mut at: usize = 0;
        while at < n && chars[at] != '-'
            invariant
                n == chars.len(),
                at <= n,
                forall|j: int| 0 <= j < at ==> chars@[j] != '-',
            decreases n - at,
        {
            at += 1;
        }
        proof {
            lemma_position(s@, '-', at as int);
        }
        if at == n {
            return Err(AggregateIdError::InvalidFormat);
        }
        if !str_eq(s.substring_char(0, at), SUBSCRIBE_PREFIX) {
            return Err(AggregateIdError::InvalidFormat);
        }
        match parse_uuid(s.substring_char(at + 1, n)) {
            Some(uuid) => Ok(Self::from(uuid)),
            None => Err(AggregateIdError::InvalidUuid),
        }
    }

    /// The displayed text: the prefix, a hyphen and the UUID.
    pub fn to_string(&self) -> (r: String)
        ensures
            r@ == subscribe_id_text(self@),
    {
        proof {
            use_type_invariant(self);
        }
        let r = SUBSCRIBE_PREFIX.to_owned().concat("-").concat(self.value.as_str());
        proof {
            reveal_strlit("-");
            assert("-"@ == seq!['-']);
        }
        r
    }
}

impl Clone for SubscribeId {
    fn clone(&self) -> (r: Self)
        ensures
            r == *self,
    {
        proof {
            use_type_invariant(self);
        }
        Self { uuid: self.uuid, value: self.value.clone() }
    }
}

impl AggregateId for SubscribeId {
    open spec fn prefix_spec(&self) -> Seq<char> {
        SUBSCRIBE_PREFIX@
    }

    open spec fn value_spec(&self) -> Seq<char> {
        self.text()
    }

    fn prefix(&self) -> (r: String) {
        SUBSCRIBE_PREFIX.to_owned()
    }

    fn value(&self) -> (r: &String) {
        &self.value
    }
}

/// Parsing the displayed text of a subscription identifier gives its UUID
/// back.
pub proof fn lemma_subscribe_id_round_trip(u: u128)
    ensures
        parse_subscribe_id_spec(subscribe_id_text(u)) == Ok::<u128, AggregateIdError>(u),
{
    reveal_strlit("SUBSCRIBE");
    let p = SUBSCRIBE_PREFIX@;
    let s = subscribe_id_text(u);
    assert(p.len() == 9);
    assert forall|j: int| 0 <= j < 9 implies p[j] != '-' by {}
    lemma_uuid_text_shape(u);
    lemma_uuid_text_round_trip(u);
    lemma_position(s, '-', 9);
    assert(s.subrange(0, 9) == p);
    assert(s.subrange(10, s.len() as int) == uuid_text(u));
}

} // verus!
