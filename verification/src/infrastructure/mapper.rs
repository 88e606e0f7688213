//! The attribute map that the key-value store accepts and returns, and the
//! typed accessors that the persistence mapping reads it with.

use crate::domain::value_object::timestamp::{
    datetime_parse, optional_time, rfc3339_text, Timestamp,
};
use vstd::hash_map::StringHashMap;
use vstd::prelude::*;

verus! {

/// One value of an attribute map. Only texts, flags and the null marker are
/// written; anything else that the store may return is `Other`.
#[derive(Debug, Clone, PartialEq, Eq)]
pub enum AttrValue {
    /// A text.
    S(String),
    /// A flag.
    Bool(bool),
    /// The null marker.
    Null(bool),
    /// A value of another type.
    Other,
}

/// The mathematical value of an [`AttrValue`].
pub enum AttrValueView {
    S(Seq<char>),
    Bool(bool),
    Null(bool),
    Other,
}

impl View for AttrValue {
    type V = AttrValueView;

    open spec fn view(&self) -> AttrValueView {
        match self {
            AttrValue::S(s) => AttrValueView::S(s@),
            AttrValue::Bool(b) => AttrValueView::Bool(*b),
            AttrValue::Null(b) => AttrValueView::Null(*b),
            AttrValue::Other => AttrValueView::Other,
        }
    }
}

/// The mathematical value of an attribute map.
pub type Attributes = Map<Seq<char>, AttrValueView>;

/// A map from attribute names to values.
pub struct AttributeMap {
    items: StringHashMap<AttrValue>,
}

impl View for AttributeMap {
    type V = Attributes;

    closed spec fn view(&self) -> Attributes {
        self.items@.map_values(|v: AttrValue| v@)
    }
}

/// The text under `key`, or `default` where there is none.
pub open spec fn attr_text(m: Attributes, key: Seq<char>, default: Seq<char>) -> Seq<char> {
    if m.contains_key(key) {
        match m[key] {
            AttrValueView::S(s) => s,
            _ => default,
        }
    } else {
        default
    }
}

/// The point in time that the text under `key` writes, if there is such a
/// text and it writes one.
pub open spec fn attr_time(m: Attributes, key: Seq<char>) -> Option<(i64, u32)> {
    if m.contains_key(key) {
        match m[key] {
            AttrValueView::S(s) => match datetime_parse(s) {
                Ok(t) => Some(t),
                Err(_) => None,
            },
            _ => None,
        }
    } else {
        None
    }
}

/// The value of an optional attribute value.
pub open spec fn optional_attr(v: Option<&AttrValue>) -> Option<AttrValueView> {
    match v {
        Some(v) => Some(v@),
        None => None,
    }
}

/// The value under `key`, if there is one.
pub open spec fn attr_get(m: Attributes, key: Seq<char>) -> Option<AttrValueView> {
    if m.contains_key(key) {
        Some(m[key])
    } else {
        None
    }
}

impl AttributeMap {
    /// The empty map.
    pub fn new() -> (r: Self)
        ensures
            r@ == Map::<Seq<char>, AttrValueView>::empty(),
    {
        let r = Self { items: StringHashMap::new() };
        assert(r@ =~= Map::<Seq<char>, AttrValueView>::empty());
        r
    }

    /// Sets the value under `key`.
    pub fn insert(&mut self, key: &str, value: AttrValue)
        ensures
            final(self)@ == old(self)@.insert(key@, value@),
    {
        self.items.insert(key.to_owned(), value);
        assert(self@ =~= old(self)@.insert(key@, value@));
    }

    /// The value under `key`, if there is one.
    pub fn get(&self, key: &str) -> (r: Option<&AttrValue>)
        ensures
            optional_attr(r) == attr_get(self@, key@),
    {
        self.items.get(key)
    }

    /// Whether there is a value under `key`.
    pub fn contains_key(&self, key: &str) -> (r: bool)
        ensures
            r == self@.contains_key(key@),
    {
        self.items.contains_key(key)
    }

    /// The number of entries.
    pub fn len(&self) -> (r: usize)
        ensures
            r == self@.len(),
    {
        let r = self.items.len();
        proof {
            assert(self@.dom() =~= self.items@.dom());
        }
        r
    }
}

/// Whether a point in time is read back from its RFC 3339 text.
pub open spec fn survives_rfc3339(t: (i64, u32)) -> bool {
    datetime_parse(rfc3339_text(t.0, t.1)) == Ok::<(i64, u32), Seq<char>>(t)
}

/// Length and first character of an attribute name; within each schema no
/// two names agree on both.
pub open spec fn field_code(s: Seq<char>) -> (nat, char) {
    (s.len(), if s.len() > 0 { s[0] } else { ' ' })
}

/// Length and second character of the name that an update expression gives
/// a value; within each schema no two such names agree on both.
pub open spec fn value_name_code(s: Seq<char>) -> (nat, char) {
    (s.len(), if s.len() > 1 { s[1] } else { ' ' })
}

/// What a persistence mapping offers: the aggregate `T` that an attribute
/// map holds, or the error `E` of the first field that cannot be read.
pub trait Mapper<T, E> {
    fn map_to_domain_model(v: AttributeMap) -> Result<T, E>;
}

/// What reading a value as a text gives.
pub open spec fn as_string_spec(v: Option<AttrValueView>, default: Seq<char>) -> Seq<char> {
    match v {
        Some(AttrValueView::S(s)) => s,
        _ => default,
    }
}

/// What reading a value as a point in time gives.
pub open spec fn as_datetime_spec(v: Option<AttrValueView>) -> Option<(i64, u32)> {
    match v {
        Some(AttrValueView::S(s)) => match datetime_parse(s) {
            Ok(t) => Some(t),
            Err(_) => None,
        },
        _ => None,
    }
}

/// The text of a value, or `default` where the value is missing or no text.
pub fn as_string(val: Option<&AttrValue>, default: &str) -> (r: String)
    ensures
        r@ == as_string_spec(optional_attr(val), default@),
{
    match val {
        Some(AttrValue::S(s)) => s.clone(),
        _ => default.to_owned(),
    }
}

/// The point in time that a value writes; `None` where the value is
/// missing, no text, or a text that writes none.
pub fn as_datetime(val: Option<&AttrValue>) -> (r: Option<Timestamp>)
    ensures
        optional_time(r) == as_datetime_spec(optional_attr(val)),
{
    match val {
        Some(AttrValue::S(s)) => match Timestamp::from_str(s.as_str()) {
            Ok(t) => Some(t),
            Err(_) => None,
        },
        _ => None,
    }
}

/// Reading the value under a key as a text gives the text under the key.
pub proof fn lemma_as_string_attr(m: Attributes, key: Seq<char>, default: Seq<char>)
    ensures
        as_string_spec(attr_get(m, key), default) == attr_text(m, key, default),
        as_datetime_spec(attr_get(m, key)) == attr_time(m, key),
{
}

} // verus!
