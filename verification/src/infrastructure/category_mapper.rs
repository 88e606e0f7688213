//! The persistence mapping of categories.

use crate::domain::category::category_error::{CategoryError, CategoryErrorView};
use crate::domain::category::category_id::{lemma_category_prefix, CategoryId, CATEGORY_PREFIX};
use crate::domain::category::category_name::{category_name_spec, CategoryName};
use crate::domain::category::{Category, CategoryView};
use crate::domain::user::user_id::{lemma_user_prefix, UserId, USER_PREFIX};
use crate::domain::{id_text, lemma_id_round_trip, parse_id_spec};
use crate::infrastructure::mapper::{
    as_string, attr_text, lemma_as_string_attr, AttrValue, AttrValueView, AttributeMap,
    Attributes, Mapper,
};
use vstd::prelude::*;

verus! {

/// The attribute that holds the identifier of a category.
pub const CATEGORY_KEY: &'static str = "category_id";

/// The attribute that holds the user of a category.
pub const USER_ID: &'static str = "user_id";

/// The attribute that holds the name of a category.
pub const CATEGORY_NAME: &'static str = "category_name";

/// The persistence mapping of categories.
pub struct CategoryMapper;

/// The attribute map of a category: every field is written as a text.
pub open spec fn category_attributes(a: CategoryView) -> Attributes {
    Map::<Seq<char>, AttrValueView>::empty().insert(
        CATEGORY_KEY@,
        AttrValueView::S(id_text(CATEGORY_PREFIX@, a.category_id)),
    ).insert(USER_ID@, AttrValueView::S(id_text(USER_PREFIX@, a.user_id))).insert(
        CATEGORY_NAME@,
        AttrValueView::S(a.category_name),
    )
}

/// The key of a category in the store.
pub open spec fn category_key_attributes(category_id: u128, user_id: u128) -> Attributes {
    Map::<Seq<char>, AttrValueView>::empty().insert(
        USER_ID@,
        AttrValueView::S(id_text(USER_PREFIX@, user_id)),
    ).insert(CATEGORY_KEY@, AttrValueView::S(id_text(CATEGORY_PREFIX@, category_id)))
}

/// The category that an attribute map holds. A field that is missing or no
/// text is read as the empty text; the first field that is invalid is
/// reported.
pub open spec fn category_from_attributes(m: Attributes) -> Result<CategoryView, CategoryErrorView> {
    match parse_id_spec(CATEGORY_PREFIX@, attr_text(m, CATEGORY_KEY@, Seq::empty())) {
        Err(e) => Err(CategoryErrorView::CategoryIdFailed(e.message())),
        Ok(category_id) => match parse_id_spec(USER_PREFIX@, attr_text(m, USER_ID@, Seq::empty())) {
            Err(e) => Err(CategoryErrorView::CategoryIdFailed(e.message())),
            Ok(user_id) => match category_name_spec(attr_text(m, CATEGORY_NAME@, Seq::empty())) {
                Err(e) => Err(CategoryErrorView::CategoryNameFailed(e.message())),
                Ok(category_name) => Ok(CategoryView { category_id, user_id, category_name }),
            },
        },
    }
}

/// The three attribute names differ from each other.
pub proof fn lemma_category_keys_distinct()
    ensures
        CATEGORY_KEY@ != USER_ID@,
        CATEGORY_KEY@ != CATEGORY_NAME@,
        USER_ID@ != CATEGORY_NAME@,
{
    reveal_strlit("category_id");
    reveal_strlit("user_id");
    reveal_strlit("category_name");
    assert(CATEGORY_KEY@.len() == 11);
    assert(USER_ID@.len() == 7);
    assert(CATEGORY_NAME@.len() == 13);
}

impl CategoryMapper {
    /// The attribute map of a category.
    pub fn to_attribute_map(category: &Category) -> (r: AttributeMap)
        ensures
            r@ == category_attributes(category@),
    {
        let mut m = AttributeMap::new();
        m.insert(CATEGORY_KEY, AttrValue::S(category.category_id().to_string()));
        m.insert(USER_ID, AttrValue::S(category.user_id().to_string()));
        m.insert(CATEGORY_NAME, AttrValue::S(category.category_name().to_string()));
        m
    }

    /// The key of a category in the store.
    pub fn key_attributes(category_id: &CategoryId, user_id: &UserId) -> (r: AttributeMap)
        ensures
            r@ == category_key_attributes(category_id@, user_id@),
    {
        let mut m = AttributeMap::new();
        m.insert(USER_ID, AttrValue::S(user_id.to_string()));
        m.insert(CATEGORY_KEY, AttrValue::S(category_id.to_string()));
        m
    }

    /// The category that an attribute map holds.
    pub fn from_attribute_map(v: &AttributeMap) -> (r: Result<Category, CategoryError>)
        ensures
            match r {
                Ok(a) => category_from_attributes(v@) == Ok::<CategoryView, CategoryErrorView>(a@),
                Err(e) => category_from_attributes(v@) == Err::<CategoryView, CategoryErrorView>(
                    e@,
                ),
            },
    {
        proof {
            lemma_as_string_attr(v@, CATEGORY_KEY@, Seq::empty());
            lemma_as_string_attr(v@, USER_ID@, Seq::empty());
            lemma_as_string_attr(v@, CATEGORY_NAME@, Seq::empty());
            reveal_strlit("");
            assert(""@ =~= Seq::<char>::empty());
        }
        let category_id = match CategoryId::from_str(as_string(v.get(CATEGORY_KEY), "").as_str()) {
            Ok(id) => id,
            Err(e) => {
                return Err(CategoryError::from_id_error(e));
            },
        };
        let user_id = match UserId::from_str(as_string(v.get(USER_ID), "").as_str()) {
            Ok(id) => id,
            Err(e) => {
                return Err(CategoryError::from_id_error(e));
            },
        };
        let category_name = match CategoryName::from_str(
            as_string(v.get(CATEGORY_NAME), "").as_str(),
        ) {
            Ok(name) => name,
            Err(e) => {
                return Err(CategoryError::from_name_error(e));
            },
        };
        Ok(Category::from(category_id, user_id, category_name))
    }

    /// The categories that the attribute maps hold, in order; the error of the
    /// first map that holds none.
    pub fn from_attribute_maps(items: &Vec<AttributeMap>) -> (r: Result<Vec<Category>, CategoryError>)
        ensures
            match r {
                Ok(v) => v.len() == items.len() && forall|i: int|
                    0 <= i < v.len() ==> category_from_attributes(#[trigger] items[i]@) == Ok::<
                        CategoryView,
                        CategoryErrorView,
                    >(v[i]@),
                Err(e) => exists|i: int|
                    0 <= i < items.len() && category_from_attributes(#[trigger] items[i]@) == Err::<
                        CategoryView,
                        CategoryErrorView,
                    >(e@) && forall|j: int| 0 <= j < i ==> category_from_attributes(#[trigger] items[j]@) is Ok,
            },
    {
        let mut v: Vec<Category> = Vec::new();
        let mut k: usize = 0;
        while k < items.len()
            invariant
                k <= items.len(),
                v.len() == k,
                forall|i: int|
                    0 <= i < k ==> category_from_attributes(#[trigger] items[i]@) == Ok::<CategoryView, CategoryErrorView>(
                        v[i]@,
                    ),
            decreases items.len() - k,
        {
            match Self::from_attribute_map(&items[k]) {
                Ok(a) => {
                    v.push(a);
                },
                Err(e) => {
                    assert(category_from_attributes(items[k as int]@) == Err::<CategoryView, CategoryErrorView>(e@));
                    return Err(e);
                },
            }
            k += 1;
        }
        Ok(v)
    }
}

impl Mapper<Category, CategoryError> for CategoryMapper {
    fn map_to_domain_model(v: AttributeMap) -> (r: Result<Category, CategoryError>)
        ensures
            match r {
                Ok(a) => category_from_attributes(v@) == Ok::<CategoryView, CategoryErrorView>(a@),
                Err(e) => category_from_attributes(v@) == Err::<CategoryView, CategoryErrorView>(
                    e@,
                ),
            },
    {
        Self::from_attribute_map(&v)
    }
}

/// Persistence round trip from a category: the attribute map of a category
/// whose name is valid holds that category.
pub proof fn lemma_category_attributes_round_trip(a: CategoryView)
    requires
        a.valid(),
    ensures
        category_from_attributes(category_attributes(a)) == Ok::<CategoryView, CategoryErrorView>(a),
{
    lemma_category_keys_distinct();
    lemma_category_prefix();
    lemma_user_prefix();
    lemma_id_round_trip(CATEGORY_PREFIX@, a.category_id);
    lemma_id_round_trip(USER_PREFIX@, a.user_id);
}

/// Persistence round trip from an attribute map: a map that holds a
/// category, with its three fields written as texts and its identifiers in
/// canonical form, has under each of the three names the value that the
/// attribute map of that category has.
pub proof fn lemma_category_attributes_round_trip_from_map(
    m: Attributes,
    category_id: u128,
    user_id: u128,
    name: Seq<char>,
)
    requires
        m.contains_key(CATEGORY_KEY@) && m[CATEGORY_KEY@] == AttrValueView::S(
            id_text(CATEGORY_PREFIX@, category_id),
        ),
        m.contains_key(USER_ID@) && m[USER_ID@] == AttrValueView::S(id_text(USER_PREFIX@, user_id)),
        m.contains_key(CATEGORY_NAME@) && m[CATEGORY_NAME@] == AttrValueView::S(name),
        category_from_attributes(m) is Ok,
    ensures
        ({
            let out = category_attributes(category_from_attributes(m)->Ok_0);
            &&& out[CATEGORY_KEY@] == m[CATEGORY_KEY@]
            &&& out[USER_ID@] == m[USER_ID@]
            &&& out[CATEGORY_NAME@] == m[CATEGORY_NAME@]
        }),
{
    lemma_category_keys_distinct();
    lemma_category_prefix();
    lemma_user_prefix();
    lemma_id_round_trip(CATEGORY_PREFIX@, category_id);
    lemma_id_round_trip(USER_PREFIX@, user_id);
}

} // verus!
