//! Users.

use crate::domain::user::user_id::UserId;
use crate::domain::uuid_codec::is_version4;
use crate::domain::value_object::timestamp::Timestamp;
use vstd::prelude::*;

pub mod user_id;

verus! {

/// A user of the tracker.
#[derive(Debug, Clone, PartialEq, Eq)]
pub struct User {
    user_id: UserId,
    country_id: i32,
    created_at: Timestamp,
    updated_at: Timestamp,
}

/// The mathematical value of a [`User`].
pub struct UserView {
    pub user_id: u128,
    pub country_id: i32,
    pub created_at: (i64, u32),
    pub updated_at: (i64, u32),
}

impl View for User {
    type V = UserView;

    closed spec fn view(&self) -> UserView {
        UserView {
            user_id: self.user_id@,
            country_id: self.country_id,
            created_at: self.created_at@,
            updated_at: self.updated_at@,
        }
    }
}

impl User {
    /// A new user with a fresh identifier, created and updated at the time
    /// of the call.
    pub fn new(country_id: i32) -> (r: Self)
        ensures
            is_version4(r@.user_id),
            r@.country_id == country_id,
            r@.created_at == r@.updated_at,
    {
        let now = Timestamp::now();
        Self { user_id: UserId::new(), country_id, created_at: now, updated_at: now }
    }

    /// The user with the given parts.
    pub fn from(user_id: UserId, country_id: i32, created_at: Timestamp, updated_at: Timestamp) -> (r:
        Self)
        ensures
            r@ == (UserView {
                user_id: user_id@,
                country_id,
                created_at: created_at@,
                updated_at: updated_at@,
            }),
    {
        Self { user_id, country_id, created_at, updated_at }
    }

    /// The identifier of the user.
    pub fn user_id(&self) -> (r: &UserId)
        ensures
            r@ == self@.user_id,
    {
        &self.user_id
    }

    /// The country of the user.
    pub fn country_id(&self) -> (r: i32)
        ensures
            r == self@.country_id,
    {
        self.country_id
    }

    /// When the user was created.
    pub fn created_at(&self) -> (r: &Timestamp)
        ensures
            r@ == self@.created_at,
    {
        &self.created_at
    }

    /// When the user was last updated.
    pub fn updated_at(&self) -> (r: &Timestamp)
        ensures
            r@ == self@.updated_at,
    {
        &self.updated_at
    }
}

} // verus!
