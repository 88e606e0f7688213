//! What can go wrong with a category.

use crate::domain::category::category_name::CategoryNameError;
use crate::domain::AggregateIdError;
use vstd::prelude::*;

verus! {

/// What can go wrong with a category.
#[derive(Debug, PartialEq, Eq)]
pub enum CategoryError {
    /// The store refused to create the category.
    CreateCategoryFailed(String),
    /// The category could not be read by its id.
    FindByIdError(String),
    /// The categories of a user could not be read.
    QueryError(String),
    /// The store refused to update the category.
    UpdateCategoryFailed(String),
    /// The store refused to delete the category.
    DeleteCategoryFailed(String),
    /// A stored category could not be read back.
    ParseCategoryFailed(String),
    /// There is no such category.
    NotExist,
    /// A required field is missing.
    MissingField(String),
    /// An identifier is malformed; holds the message.
    CategoryIdFailed(String),
    /// A name is invalid; holds the message.
    CategoryNameFailed(String),
}

/// The mathematical value of a [`CategoryError`].
pub enum CategoryErrorView {
    CreateCategoryFailed(Seq<char>),
    FindByIdError(Seq<char>),
    QueryError(Seq<char>),
    UpdateCategoryFailed(Seq<char>),
    DeleteCategoryFailed(Seq<char>),
    ParseCategoryFailed(Seq<char>),
    NotExist,
    MissingField(Seq<char>),
    CategoryIdFailed(Seq<char>),
    CategoryNameFailed(Seq<char>),
}

impl CategoryErrorView {
    /// The message of this error.
    pub open spec fn message(self) -> Seq<char> {
        match self {
            CategoryErrorView::CreateCategoryFailed(s) => "Failed to create category: "@ + s,
            CategoryErrorView::FindByIdError(s) => "Failed to find by id category: "@ + s,
            CategoryErrorView::QueryError(s) => "Failed to query category: "@ + s,
            CategoryErrorView::UpdateCategoryFailed(s) => "Failed to update category: "@ + s,
            CategoryErrorView::DeleteCategoryFailed(s) => "Failed to delete category: "@ + s,
            CategoryErrorView::ParseCategoryFailed(s) => "Failed to parse category: "@ + s,
            CategoryErrorView::NotExist => "Category not exist"@,
            CategoryErrorView::MissingField(s) => "Required category field '"@ + s + "' was missing"@,
            CategoryErrorView::CategoryIdFailed(s) => s,
            CategoryErrorView::CategoryNameFailed(s) => s,
        }
    }
}

impl View for CategoryError {
    type V = CategoryErrorView;

    open spec fn view(&self) -> CategoryErrorView {
        match self {
            CategoryError::CreateCategoryFailed(s) => CategoryErrorView::CreateCategoryFailed(s@),
            CategoryError::FindByIdError(s) => CategoryErrorView::FindByIdError(s@),
            CategoryError::QueryError(s) => CategoryErrorView::QueryError(s@),
            CategoryError::UpdateCategoryFailed(s) => CategoryErrorView::UpdateCategoryFailed(s@),
            CategoryError::DeleteCategoryFailed(s) => CategoryErrorView::DeleteCategoryFailed(s@),
            CategoryError::ParseCategoryFailed(s) => CategoryErrorView::ParseCategoryFailed(s@),
            CategoryError::NotExist => CategoryErrorView::NotExist,
            CategoryError::MissingField(s) => CategoryErrorView::MissingField(s@),
            CategoryError::CategoryIdFailed(s) => CategoryErrorView::CategoryIdFailed(s@),
            CategoryError::CategoryNameFailed(s) => CategoryErrorView::CategoryNameFailed(s@),
        }
    }
}

impl CategoryError {
    /// The message of this error, as a string.
    pub fn to_string(&self) -> (r: String)
        ensures
            r@ == self@.message(),
    {
        match self {
            CategoryError::CreateCategoryFailed(s) => "Failed to create category: ".to_owned().concat(s.as_str()),
            CategoryError::FindByIdError(s) => "Failed to find by id category: ".to_owned().concat(s.as_str()),
            CategoryError::QueryError(s) => "Failed to query category: ".to_owned().concat(s.as_str()),
            CategoryError::UpdateCategoryFailed(s) => "Failed to update category: ".to_owned().concat(s.as_str()),
            CategoryError::DeleteCategoryFailed(s) => "Failed to delete category: ".to_owned().concat(s.as_str()),
            CategoryError::ParseCategoryFailed(s) => "Failed to parse category: ".to_owned().concat(s.as_str()),
            CategoryError::NotExist => "Category not exist".to_owned(),
            CategoryError::MissingField(s) => "Required category field '".to_owned().concat(s.as_str()).concat("' was missing"),
            CategoryError::CategoryIdFailed(s) => s.clone(),
            CategoryError::CategoryNameFailed(s) => s.clone(),
        }
    }

    /// Wraps an identifier error, keeping its message.
    pub fn from_id_error(value: AggregateIdError) -> (r: Self)
        ensures
            r@ == CategoryErrorView::CategoryIdFailed(value.message()),
    {
        CategoryError::CategoryIdFailed(value.to_string())
    }

    /// Wraps a name error, keeping its message.
    pub fn from_name_error(value: CategoryNameError) -> (r: Self)
        ensures
            r@ == CategoryErrorView::CategoryNameFailed(value.message()),
    {
        CategoryError::CategoryNameFailed(value.to_string())
    }
}

} // verus!
