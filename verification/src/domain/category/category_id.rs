//! The identifier of a category, written `ctg_<uuid>`.

use crate::domain::uuid_codec::{is_version4, random_uuid};
use crate::domain::{generate_id, id_text, parse_id, parse_id_spec, AggregateId, AggregateIdError};
use vstd::prelude::*;

verus! {

/// The prefix of every category identifier.
pub const CATEGORY_PREFIX: &'static str = "ctg";

/// The identifier of a category: a UUID and its text `ctg_<uuid>`.
#[derive(Debug, PartialEq, Eq)]
pub struct CategoryId {
    uuid: u128,
    value: String,
}

impl View for CategoryId {
    type V = u128;

    /// The UUID of this identifier.
    closed spec fn view(&self) -> u128 {
        self.uuid
    }
}

impl CategoryId {
    /// What holds of every value of the type.
    #[verifier::type_invariant]
    pub open spec fn inv(self) -> bool {
        self.wf()
    }

    /// The stored text.
    pub closed spec fn text(self) -> Seq<char> {
        self.value@
    }

    /// The stored text is the canonical text of the UUID.
    pub open spec fn wf(self) -> bool {
        self.text() == id_text(CATEGORY_PREFIX@, self@)
    }

    /// A fresh identifier with a random UUID.
    pub fn new() -> (r: Self)
        ensures
            r.wf(),
            is_version4(r@),
    {
        Self::from(random_uuid())
    }

    /// The identifier of the given UUID.
    pub fn from(uuid: u128) -> (r: Self)
        ensures
            r@ == uuid,
            r.wf(),
    {
        Self { uuid, value: generate_id(CATEGORY_PREFIX, Some(uuid)) }
    }

    /// Parses `ctg_<uuid>`; the UUID may be written in any accepted shape
    /// and is stored in canonical form.
    pub fn from_str(s: &str) -> (r: Result<Self, AggregateIdError>)
        ensures
            match r {
                Ok(id) => parse_id_spec(CATEGORY_PREFIX@, s@) == Ok::<u128, AggregateIdError>(id@)
                    && id.wf(),
                Err(e) => parse_id_spec(CATEGORY_PREFIX@, s@) == Err::<u128, AggregateIdError>(e),
            },
    {
        match parse_id(CATEGORY_PREFIX, s) {
            Ok(uuid) => Ok(Self::from(uuid)),
            Err(e) => Err(e),
        }
    }

    /// The text of this identifier.
    pub fn to_string(&self) -> (r: String)
        ensures
            r@ == self.text(),
            r@ == id_text(CATEGORY_PREFIX@, self@),
    {
        proof {
            use_type_invariant(self);
        }
        self.value.clone()
    }
}

impl Clone for CategoryId {
    fn clone(&self) -> (r: Self)
        ensures
            r == *self,
    {
        proof {
            use_type_invariant(self);
        }
        Self { uuid: self.uuid, value: self.value.clone() }
    }
}

impl AggregateId for CategoryId {
    open spec fn prefix_spec(&self) -> Seq<char> {
        CATEGORY_PREFIX@
    }

    open spec fn value_spec(&self) -> Seq<char> {
        self.text()
    }

    fn prefix(&self) -> (r: String) {
        CATEGORY_PREFIX.to_owned()
    }

    fn value(&self) -> (r: &String) {
        &self.value
    }
}

/// The category prefix holds no underscore.
pub proof fn lemma_category_prefix()
    ensures
        CATEGORY_PREFIX@ == seq!['c', 't', 'g'],
        forall|j: int| 0 <= j < CATEGORY_PREFIX@.len() ==> CATEGORY_PREFIX@[j] != '_',
{
    reveal_strlit("ctg");
    assert(CATEGORY_PREFIX@ =~= seq!['c', 't', 'g']);
}

} // verus!
