//! Categories of spending.

use crate::domain::category::category_id::CategoryId;
use crate::domain::category::category_name::CategoryName;
use crate::domain::user::user_id::UserId;
use crate::domain::uuid_codec::is_version4;
use vstd::prelude::*;

pub mod category_error;
pub mod category_id;
pub mod category_name;

verus! {

/// A category of spending that a user has defined.
#[derive(Debug, Clone, PartialEq, Eq)]
pub struct Category {
    category_id: CategoryId,
    user_id: UserId,
    category_name: CategoryName,
}

/// The mathematical value of a [`Category`].
pub struct CategoryView {
    pub category_id: u128,
    pub user_id: u128,
    pub category_name: Seq<char>,
}

impl View for Category {
    type V = CategoryView;

    closed spec fn view(&self) -> CategoryView {
        CategoryView {
            category_id: self.category_id@,
            user_id: self.user_id@,
            category_name: self.category_name@,
        }
    }
}

impl CategoryView {
    /// The name is a valid category name.
    pub open spec fn valid(self) -> bool {
        1 <= self.category_name.len() <= 20
    }
}

impl Category {
    /// A new category with a fresh identifier: that of a random UUID.
    pub fn new(user_id: UserId, category_name: CategoryName) -> (r: Self)
        ensures
            is_version4(r@.category_id),
            r@.user_id == user_id@,
            r@.category_name == category_name@,
            r@.valid(),
    {
        proof {
            use_type_invariant(&category_name);
        }
        let category_id = CategoryId::new();
        Self { category_id, user_id, category_name }
    }

    /// The category with the given identifier.
    pub fn from(category_id: CategoryId, user_id: UserId, category_name: CategoryName) -> (r: Self)
        ensures
            r@ == (CategoryView {
                category_id: category_id@,
                user_id: user_id@,
                category_name: category_name@,
            }),
            r@.valid(),
    {
        proof {
            use_type_invariant(&category_name);
        }
        Self { category_id, user_id, category_name }
    }

    /// The identifier of the category.
    pub fn category_id(&self) -> (r: &CategoryId)
        ensures
            r@ == self@.category_id,
    {
        &self.category_id
    }

    /// The user that the category belongs to.
    pub fn user_id(&self) -> (r: &UserId)
        ensures
            r@ == self@.user_id,
    {
        &self.user_id
    }

    /// The name of the category.
    pub fn category_name(&self) -> (r: &CategoryName)
        ensures
            r@ == self@.category_name,
    {
        &self.category_name
    }
}

} // verus!
