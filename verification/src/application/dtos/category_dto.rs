//! The wire record of a category.

use crate::application::dtos::DTO;
use crate::application::error::{
    to_aggregate_id_error, to_category_error, ApplicationError, ApplicationErrorView,
};
use crate::domain::category::category_error::{CategoryError, CategoryErrorView};
use crate::domain::category::category_id::{lemma_category_prefix, CategoryId, CATEGORY_PREFIX};
use crate::domain::category::category_name::{category_name_spec, CategoryName};
use crate::domain::category::{Category, CategoryView};
use crate::domain::user::user_id::{lemma_user_prefix, UserId, USER_PREFIX};
use crate::domain::uuid_codec::{is_version4, random_uuid};
use crate::domain::{id_text, lemma_id_round_trip, parse_id_spec};
use crate::text::optional_text;
use vstd::prelude::*;

verus! {

/// The wire record of a category.
#[derive(Debug, Clone, PartialEq, Eq)]
pub struct CategoryDto {
    category_id: String,
    user_id: String,
    category_name: String,
}

/// The mathematical value of a [`CategoryDto`].
pub struct CategoryDtoView {
    pub category_id: Seq<char>,
    pub user_id: Seq<char>,
    pub category_name: Seq<char>,
}

impl View for CategoryDto {
    type V = CategoryDtoView;

    closed spec fn view(&self) -> CategoryDtoView {
        CategoryDtoView {
            category_id: self.category_id@,
            user_id: self.user_id@,
            category_name: self.category_name@,
        }
    }
}

/// Collects the fields of a [`CategoryDto`] one by one.
pub struct CategoryDtoBuilder {
    category_id: Option<String>,
    user_id: Option<String>,
    category_name: Option<String>,
}

/// The mathematical value of a [`CategoryDtoBuilder`].
pub struct CategoryDtoBuilderView {
    pub category_id: Option<Seq<char>>,
    pub user_id: Option<Seq<char>>,
    pub category_name: Option<Seq<char>>,
}

impl View for CategoryDtoBuilder {
    type V = CategoryDtoBuilderView;

    closed spec fn view(&self) -> CategoryDtoBuilderView {
        CategoryDtoBuilderView {
            category_id: optional_text(self.category_id),
            user_id: optional_text(self.user_id),
            category_name: optional_text(self.category_name),
        }
    }
}

/// What building a record from the collected fields gives: the record, or
/// the first field that is missing.
pub open spec fn category_dto_build_spec(b: CategoryDtoBuilderView) -> Result<
    CategoryDtoView,
    CategoryErrorView,
> {
    if b.category_id is None {
        Err(CategoryErrorView::MissingField("category_id"@))
    } else if b.user_id is None {
        Err(CategoryErrorView::MissingField("user_id"@))
    } else if b.category_name is None {
        Err(CategoryErrorView::MissingField("category_name"@))
    } else {
        Ok(
            CategoryDtoView {
                category_id: b.category_id->0,
                user_id: b.user_id->0,
                category_name: b.category_name->0,
            },
        )
    }
}

/// The wire record of a category.
pub open spec fn category_to_dto_spec(a: CategoryView) -> CategoryDtoView {
    CategoryDtoView {
        category_id: id_text(CATEGORY_PREFIX@, a.category_id),
        user_id: id_text(USER_PREFIX@, a.user_id),
        category_name: a.category_name,
    }
}

/// What validating a wire record gives, where `fresh` is the UUID that a
/// new category gets: an empty identifier asks for a new category, any
/// other must parse; then the user identifier must parse, then the name
/// must be valid. The first failure is reported with its message.
pub open spec fn category_to_domain_spec(d: CategoryDtoView, fresh: u128) -> Result<
    CategoryView,
    ApplicationErrorView,
> {
    let id = if d.category_id.len() == 0 {
        Ok(fresh)
    } else {
        parse_id_spec(CATEGORY_PREFIX@, d.category_id)
    };
    match id {
        Err(e) => Err(ApplicationErrorView::InvalidAggregateIdFormatError(e.message())),
        Ok(category_id) => match parse_id_spec(USER_PREFIX@, d.user_id) {
            Err(e) => Err(ApplicationErrorView::InvalidAggregateIdFormatError(e.message())),
            Ok(user_id) => match category_name_spec(d.category_name) {
                Err(e) => Err(ApplicationErrorView::CategoryError(e.message())),
                Ok(category_name) => Ok(CategoryView { category_id, user_id, category_name }),
            },
        },
    }
}

/// Whether the result of a mapping to an aggregate has the given value.
pub open spec fn category_result_is(
    r: Result<Category, ApplicationError>,
    v: Result<CategoryView, ApplicationErrorView>,
) -> bool {
    match r {
        Ok(a) => v == Ok::<CategoryView, ApplicationErrorView>(a@),
        Err(e) => v == Err::<CategoryView, ApplicationErrorView>(e@),
    }
}

impl CategoryDto {
    /// The record with the given fields.
    pub fn new(category_id: String, user_id: String, category_name: String) -> (r: Self)
        ensures
            r@ == (CategoryDtoView {
                category_id: category_id@,
                user_id: user_id@,
                category_name: category_name@,
            }),
    {
        Self { category_id, user_id, category_name }
    }

    /// A builder that has no field yet.
    pub fn builder() -> (r: CategoryDtoBuilder)
        ensures
            r@ == (CategoryDtoBuilderView { category_id: None, user_id: None, category_name: None }),
    {
        CategoryDtoBuilder { category_id: None, user_id: None, category_name: None }
    }

    /// The identifier text of the record.
    pub fn category_id(&self) -> (r: &String)
        ensures
            r@ == self@.category_id,
    {
        &self.category_id
    }

    /// The user identifier text of the record.
    pub fn user_id(&self) -> (r: &String)
        ensures
            r@ == self@.user_id,
    {
        &self.user_id
    }

    /// The name of the record.
    pub fn category_name(&self) -> (r: &String)
        ensures
            r@ == self@.category_name,
    {
        &self.category_name
    }

    /// Validates the record and builds the category from it; a new category
    /// gets the UUID `fresh`.
    pub fn to_domain_with(v: &CategoryDto, fresh: u128) -> (r: Result<Category, ApplicationError>)
        ensures
            category_result_is(r, category_to_domain_spec(v@, fresh)),
    {
        let category_id = if v.category_id.as_str().unicode_len() == 0 {
            CategoryId::from(fresh)
        } else {
            match CategoryId::from_str(v.category_id.as_str()) {
                Ok(id) => id,
                Err(e) => {
                    return Err(to_aggregate_id_error(e.to_string()));
                },
            }
        };
        let user_id = match UserId::from_str(v.user_id.as_str()) {
            Ok(id) => id,
            Err(e) => {
                return Err(to_aggregate_id_error(e.to_string()));
            },
        };
        let category_name = match CategoryName::from_str(v.category_name.as_str()) {
            Ok(name) => name,
            Err(e) => {
                return Err(to_category_error(e.to_string()));
            },
        };
        Ok(Category::from(category_id, user_id, category_name))
    }

    /// The wire record of a category.
    pub fn to_dto(v: &Category) -> (r: CategoryDto)
        ensures
            r@ == category_to_dto_spec(v@),
    {
        CategoryDto {
            category_id: v.category_id().to_string(),
            user_id: v.user_id().to_string(),
            category_name: v.category_name().to_string(),
        }
    }

    /// The wire records of categories, in order.
    pub fn to_dtos(items: &Vec<Category>) -> (r: Vec<CategoryDto>)
        ensures
            r.len() == items.len(),
            forall|i: int| 0 <= i < r.len() ==> (#[trigger] r[i])@ == category_to_dto_spec(items[i]@),
    {
        let mut r: Vec<CategoryDto> = Vec::new();
        let mut k: usize = 0;
        while k < items.len()
            invariant
                k <= items.len(),
                r.len() == k,
                forall|i: int| 0 <= i < k ==> (#[trigger] r[i])@ == category_to_dto_spec(items[i]@),
            decreases items.len() - k,
        {
            r.push(Self::to_dto(&items[k]));
            k += 1;
        }
        r
    }
}

impl CategoryDtoBuilder {
    /// Sets the identifier text.
    pub fn category_id(self, category_id: String) -> (r: Self)
        ensures
            r@ == (CategoryDtoBuilderView { category_id: Some(category_id@), ..self@ }),
    {
        Self { category_id: Some(category_id), user_id: self.user_id, category_name: self.category_name }
    }

    /// Sets the user identifier text.
    pub fn user_id(self, user_id: String) -> (r: Self)
        ensures
            r@ == (CategoryDtoBuilderView { user_id: Some(user_id@), ..self@ }),
    {
        Self { category_id: self.category_id, user_id: Some(user_id), category_name: self.category_name }
    }

    /// Sets the name.
    pub fn category_name(self, category_name: String) -> (r: Self)
        ensures
            r@ == (CategoryDtoBuilderView { category_name: Some(category_name@), ..self@ }),
    {
        Self { category_id: self.category_id, user_id: self.user_id, category_name: Some(category_name) }
    }

    /// The record of the collected fields, or the first field that is
    /// missing.
    pub fn build(self) -> (r: Result<CategoryDto, CategoryError>)
        ensures
            match r {
                Ok(d) => category_dto_build_spec(self@) == Ok::<CategoryDtoView, CategoryErrorView>(
                    d@,
                ),
                Err(e) => category_dto_build_spec(self@) == Err::<
                    CategoryDtoView,
                    CategoryErrorView,
                >(e@),
            },
    {
        let category_id = match self.category_id {
            Some(s) => s,
            None => {
                return Err(CategoryError::MissingField("category_id".to_owned()));
            },
        };
        let user_id = match self.user_id {
            Some(s) => s,
            None => {
                return Err(CategoryError::MissingField("user_id".to_owned()));
            },
        };
        let category_name = match self.category_name {
            Some(s) => s,
            None => {
                return Err(CategoryError::MissingField("category_name".to_owned()));
            },
        };
        Ok(CategoryDto { category_id, user_id, category_name })
    }
}

impl DTO<CategoryDto, Category, ApplicationError> for CategoryDto {
    /// Validates the record and builds the category from it; a new category
    /// gets a random UUID.
    fn map_to_domain_model(v: CategoryDto) -> (r: Result<Category, ApplicationError>)
        ensures
            exists|fresh: u128|
                is_version4(fresh) && category_result_is(
                    r,
                    #[trigger] category_to_domain_spec(v@, fresh),
                ),
    {
        let fresh = random_uuid();
        let r = Self::to_domain_with(&v, fresh);
        assert(is_version4(fresh) && category_result_is(r, category_to_domain_spec(v@, fresh)));
        r
    }

    fn map_to_dto(v: &Category) -> (r: CategoryDto)
        ensures
            r@ == category_to_dto_spec(v@),
    {
        Self::to_dto(v)
    }
}

/// Round trip from a category: the wire record of a category whose name is
/// valid is mapped back to the same category, whatever the fresh UUID.
pub proof fn lemma_category_dto_round_trip(a: CategoryView, fresh: u128)
    requires
        a.valid(),
    ensures
        category_to_domain_spec(category_to_dto_spec(a), fresh) == Ok::<
            CategoryView,
            ApplicationErrorView,
        >(a),
{
    lemma_category_prefix();
    lemma_user_prefix();
    lemma_id_round_trip(CATEGORY_PREFIX@, a.category_id);
    lemma_id_round_trip(USER_PREFIX@, a.user_id);
}

/// Round trip from a wire record: a record with a non-empty identifier that
/// maps to a category is the wire record of that category, provided its
/// identifiers are written in canonical form.
pub proof fn lemma_category_dto_round_trip_from_record(
    d: CategoryDtoView,
    fresh: u128,
    category_id: u128,
    user_id: u128,
)
    requires
        d.category_id == id_text(CATEGORY_PREFIX@, category_id),
        d.user_id == id_text(USER_PREFIX@, user_id),
        category_to_domain_spec(d, fresh) is Ok,
    ensures
        category_to_dto_spec(category_to_domain_spec(d, fresh)->Ok_0) == d,
{
    lemma_category_prefix();
    lemma_user_prefix();
    lemma_id_round_trip(CATEGORY_PREFIX@, category_id);
    lemma_id_round_trip(USER_PREFIX@, user_id);
}

} // verus!
