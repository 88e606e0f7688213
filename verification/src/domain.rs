//! The domain model: identifiers, value objects and aggregates.
//!
//! An aggregate identifier is written `<prefix>_<uuid>`, with a prefix that
//! is fixed per aggregate type and the UUID in canonical form.

use crate::domain::uuid_codec::{
    format_uuid, is_version4, lemma_uuid_text_round_trip, lemma_uuid_text_shape, parse_uuid,
    random_uuid, uuid_from_text, uuid_text,
};
use crate::text::{chars_of, str_eq};
use vstd::prelude::*;

pub mod category;
pub mod payment;
pub mod payment_cycle;
pub mod subscribe;
pub mod user;
pub mod uuid_codec;
pub mod value_object;

verus! {

/// What every aggregate identifier offers: the prefix of its aggregate type
/// and its stored value.
pub trait AggregateId {
    /// The prefix of the aggregate type.
    spec fn prefix_spec(&self) -> Seq<char>;

    /// The stored value.
    spec fn value_spec(&self) -> Seq<char>;

    fn prefix(&self) -> (r: String)
        ensures
            r@ == self.prefix_spec(),
    ;

    fn value(&self) -> (r: &String)
        ensures
            r@ == self.value_spec(),
    ;
}

/// Why a text is no identifier of the expected aggregate type.
#[derive(Debug, Clone, Copy, PartialEq, Eq, Structural)]
pub enum AggregateIdError {
    /// The text is not made of the expected prefix, one underscore and a rest.
    InvalidFormat,
    /// The part behind the underscore is no UUID.
    InvalidUuid,
}

impl AggregateIdError {
    /// The message of this error.
    pub open spec fn message(self) -> Seq<char> {
        match self {
            AggregateIdError::InvalidFormat => "It is not in the prefix_UUID format."@,
            AggregateIdError::InvalidUuid => "Invalid UUID format"@,
        }
    }

    /// The message of this error, as a string.
    pub fn to_string(&self) -> (r: String)
        ensures
            r@ == self.message(),
    {
        match self {
            AggregateIdError::InvalidFormat => "It is not in the prefix_UUID format.".to_owned(),
            AggregateIdError::InvalidUuid => "Invalid UUID format".to_owned(),
        }
    }
}

/// The text of the identifier with prefix `prefix` and UUID `u`.
pub open spec fn id_text(prefix: Seq<char>, u: u128) -> Seq<char> {
    prefix + seq!['_'] + uuid_text(u)
}

/// The position of the first `c` in `s`, or the length of `s` if there is
/// none.
pub open spec fn position(s: Seq<char>, c: char) -> int
    decreases s.len(),
{
    if s.len() == 0 {
        0
    } else if s[0] == c {
        0
    } else {
        1 + position(s.drop_first(), c)
    }
}

/// What parsing `s` as an identifier with prefix `prefix` gives: the text is
/// split at underscores; unless that gives exactly two parts and the first is
/// the prefix, the format is invalid; the second part must write a UUID.
pub open spec fn parse_id_spec(prefix: Seq<char>, s: Seq<char>) -> Result<u128, AggregateIdError> {
    let at = position(s, '_');
    let rest = s.subrange(at + 1, s.len() as int);
    if at == s.len() {
        Err(AggregateIdError::InvalidFormat)
    } else if position(rest, '_') != rest.len() {
        Err(AggregateIdError::InvalidFormat)
    } else if s.subrange(0, at) != prefix {
        Err(AggregateIdError::InvalidFormat)
    } else {
        match uuid_from_text(rest) {
            Some(u) => Ok(u),
            None => Err(AggregateIdError::InvalidUuid),
        }
    }
}

/// `position` is the least index that holds `c`.
pub proof fn lemma_position(s: Seq<char>, c: char, at: int)
    requires
        0 <= at <= s.len(),
        forall|j: int| 0 <= j < at ==> s[j] != c,
        at < s.len() ==> s[at] == c,
    ensures
        position(s, c) == at,
    decreases s.len(),
{
    if s.len() > 0 && at > 0 {
        let t = s.drop_first();
        assert forall|j: int| 0 <= j < at - 1 implies t[j] != c by {
            assert(t[j] == s[j + 1]);
        }
        lemma_position(t, c, at - 1);
    }
}

/// `position` lies within the text, and nothing before it is `c`.
pub proof fn lemma_position_bounds(s: Seq<char>, c: char)
    ensures
        0 <= position(s, c) <= s.len(),
        position(s, c) < s.len() ==> s[position(s, c)] == c,
        forall|j: int| 0 <= j < position(s, c) ==> s[j] != c,
    decreases s.len(),
{
    if s.len() > 0 && s[0] != c {
        let t = s.drop_first();
        lemma_position_bounds(t, c);
        assert forall|j: int| 0 <= j < position(s, c) implies s[j] != c by {
            if j > 0 {
                assert(t[j - 1] == s[j]);
            }
        }
    }
}

/// Identifier round trip: for a prefix without underscore and any UUID,
/// parsing the formatted identifier gives the UUID back.
pub proof fn lemma_id_round_trip(prefix: Seq<char>, u: u128)
    requires
        forall|j: int| 0 <= j < prefix.len() ==> prefix[j] != '_',
    ensures
        parse_id_spec(prefix, id_text(prefix, u)) == Ok::<u128, AggregateIdError>(u),
{
    let s = id_text(prefix, u);
    let n = prefix.len() as int;
    lemma_uuid_text_shape(u);
    lemma_uuid_text_round_trip(u);
    lemma_position(s, '_', n);
    let rest = s.subrange(n + 1, s.len() as int);
    assert(rest == uuid_text(u));
    lemma_position(rest, '_', 36);
    assert(s.subrange(0, n) == prefix);
}

/// A text that parses is the prefix, an underscore and a text of the UUID
/// that it gives.
pub proof fn lemma_parsed_id_shape(prefix: Seq<char>, s: Seq<char>)
    requires
        parse_id_spec(prefix, s) is Ok,
    ensures
        ({
            let rest = s.subrange(prefix.len() as int + 1, s.len() as int);
            &&& prefix.len() < s.len()
            &&& s == prefix + seq!['_'] + rest
            &&& uuid_from_text(rest) == Some(parse_id_spec(prefix, s)->Ok_0)
        }),
{
    lemma_position_bounds(s, '_');
    let at = position(s, '_');
    let rest = s.subrange(at + 1, s.len() as int);
    assert(s == s.subrange(0, at) + seq!['_'] + rest);
}

/// Writes the identifier with prefix `p`: of the given UUID, or of a fresh
/// random one where none is given.
pub fn generate_id(p: &str, u: Option<u128>) -> (r: String)
    ensures
        match u {
            Some(v) => r@ == id_text(p@, v),
            None => exists|v: u128| is_version4(v) && r@ == id_text(p@, v),
        },
{
    let v = match u {
        Some(v) => v,
        None => random_uuid(),
    };
    let text = format_uuid(v);
    let r = p.to_owned().concat("_").concat(text.as_str());
    proof {
        reveal_strlit("_");
        assert("_"@ == seq!['_']);
        assert(r@ == id_text(p@, v));
        assert(u is None ==> is_version4(v));
    }
    r
}

/// Parses `s` as an identifier with prefix `prefix`.
pub fn parse_id(prefix: &str, s: &str) -> (r: Result<u128, AggregateIdError>)
    ensures
        r == parse_id_spec(prefix@, s@),
{
    let chars = chars_of(s);
    let n = chars.len();
    let mut at: usize = 0;
    while at < n && chars[at] != '_'
        invariant
            n == chars.len(),
            at <= n,
            forall|j: int| 0 <= j < at ==> chars@[j] != '_',
        decreases n - at,
    {
        at += 1;
    }
    proof {
        lemma_position(s@, '_', at as int);
    }
    if at == n {
        return Err(AggregateIdError::InvalidFormat);
    }
    let ghost rest = s@.subrange(at + 1, n as int);
    let mut k: usize = at + 1;
    while k < n && chars[k] != '_'
        invariant
            n == chars.len(),
            at < k <= n,
            forall|j: int| at < j < k ==> chars@[j] != '_',
        decreases n - k,
    {
        k += 1;
    }
    proof {
        lemma_position(rest, '_', k - at - 1);
    }
    if k != n {
        return Err(AggregateIdError::InvalidFormat);
    }
    let head = s.substring_char(0, at);
    if !str_eq(head, prefix) {
        return Err(AggregateIdError::InvalidFormat);
    }
    let tail = s.substring_char(at + 1, n);
    match parse_uuid(tail) {
        Some(u) => Ok(u),
        None => Err(AggregateIdError::InvalidUuid),
    }
}

} // verus!
