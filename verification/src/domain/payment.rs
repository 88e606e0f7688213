//! Payment methods.

use crate::domain::payment::payment_error::{PaymentError, PaymentErrorView};
use crate::domain::payment::payment_method_id::PaymentMethodId;
use crate::domain::payment::payment_method_name::{
    PaymentMethodCategoryName, PaymentMethodKindName,
};
use crate::domain::user::user_id::UserId;
use crate::domain::value_object::timestamp::{
    datetime_parse, datetime_text, optional_time, Timestamp,
};
use vstd::prelude::*;

pub mod payment_error;
pub mod payment_method;
pub mod payment_method_id;
pub mod payment_method_name;

verus! {

/// A way of paying that a user has registered.
#[derive(Debug, Clone, PartialEq, Eq)]
pub struct PaymentMethod {
    payment_method_id: PaymentMethodId,
    user_id: UserId,
    method_name: PaymentMethodCategoryName,
    method_kind_name: PaymentMethodKindName,
    additional_name: String,
    created_at: Timestamp,
    updated_at: Option<Timestamp>,
}

/// The mathematical value of a [`PaymentMethod`].
pub struct PaymentMethodView {
    pub payment_method_id: u128,
    pub user_id: u128,
    pub method_name: PaymentMethodCategoryName,
    pub method_kind_name: PaymentMethodKindName,
    pub additional_name: Seq<char>,
    pub created_at: (i64, u32),
    pub updated_at: Option<(i64, u32)>,
}

impl View for PaymentMethod {
    type V = PaymentMethodView;

    closed spec fn view(&self) -> PaymentMethodView {
        PaymentMethodView {
            payment_method_id: self.payment_method_id@,
            user_id: self.user_id@,
            method_name: self.method_name,
            method_kind_name: self.method_kind_name,
            additional_name: self.additional_name@,
            created_at: self.created_at@,
            updated_at: optional_time(self.updated_at),
        }
    }
}

/// Whether a kind may stand under a category: it must belong to it.
pub open spec fn combination_is_valid(
    category: PaymentMethodCategoryName,
    kind: PaymentMethodKindName,
) -> bool {
    kind.family() == category
}

/// The creation time of a payment method that arrives with the identifier
/// text `payment_id` and the creation time `created_at`, at the time `now`:
/// `now` for a new payment method or a missing time; else the given time,
/// displayed and read again.
pub open spec fn created_at_spec(
    payment_id: Seq<char>,
    created_at: Option<(i64, u32)>,
    now: (i64, u32),
) -> Result<(i64, u32), PaymentErrorView> {
    match created_at {
        Some(t) if payment_id.len() > 0 => match datetime_parse(datetime_text(t.0, t.1)) {
            Ok(v) => Ok(v),
            Err(m) => Err(PaymentErrorView::InvalidFormatDatetime(m)),
        },
        _ => Ok(now),
    }
}

/// The update time of a payment method that arrives with the creation time
/// `created_at`, at the time `now`.
pub open spec fn updated_at_spec(created_at: Option<(i64, u32)>, now: (i64, u32)) -> Option<
    (i64, u32),
> {
    match created_at {
        Some(_) => Some(now),
        None => None,
    }
}

impl PaymentMethod {
    /// The payment method with the given parts. Whether the kind belongs to
    /// the category is not checked here.
    pub fn new(
        payment_method_id: PaymentMethodId,
        user_id: UserId,
        method_name: PaymentMethodCategoryName,
        method_kind_name: PaymentMethodKindName,
        additional_name: &str,
        created_at: Timestamp,
        updated_at: Option<Timestamp>,
    ) -> (r: Self)
        ensures
            r@ == (PaymentMethodView {
                payment_method_id: payment_method_id@,
                user_id: user_id@,
                method_name,
                method_kind_name,
                additional_name: additional_name@,
                created_at: created_at@,
                updated_at: optional_time(updated_at),
            }),
    {
        Self {
            payment_method_id,
            user_id,
            method_name,
            method_kind_name,
            additional_name: additional_name.to_owned(),
            created_at,
            updated_at,
        }
    }

    /// The identifier of the payment method.
    pub fn payment_method_id(&self) -> (r: &PaymentMethodId)
        ensures
            r@ == self@.payment_method_id,
    {
        &self.payment_method_id
    }

    /// The user that the payment method belongs to.
    pub fn user_id(&self) -> (r: &UserId)
        ensures
            r@ == self@.user_id,
    {
        &self.user_id
    }

    /// The category of the payment method.
    pub fn method_name(&self) -> (r: &PaymentMethodCategoryName)
        ensures
            *r == self@.method_name,
    {
        &self.method_name
    }

    /// The kind of the payment method.
    pub fn method_kind_name(&self) -> (r: &PaymentMethodKindName)
        ensures
            *r == self@.method_kind_name,
    {
        &self.method_kind_name
    }

    /// The free text that the user gave the payment method.
    pub fn additional_name(&self) -> (r: &String)
        ensures
            r@ == self@.additional_name,
    {
        &self.additional_name
    }

    /// When the payment method was created.
    pub fn created_at(&self) -> (r: &Timestamp)
        ensures
            r@ == self@.created_at,
    {
        &self.created_at
    }

    /// When the payment method was last updated, if ever.
    pub fn updated_at(&self) -> (r: &Option<Timestamp>)
        ensures
            optional_time(*r) == self@.updated_at,
    {
        &self.updated_at
    }

    /// Whether the kind belongs to the category.
    pub fn _is_valid_method_combination(
        method_name: &PaymentMethodCategoryName,
        kind_name: &PaymentMethodKindName,
    ) -> (r: bool)
        ensures
            r == combination_is_valid(*method_name, *kind_name),
    {
        kind_name.category() == *method_name
    }

    /// Accepts a kind under a category if it belongs to it.
    pub fn is_valid_method_combination(
        method_name: &PaymentMethodCategoryName,
        kind_name: &PaymentMethodKindName,
    ) -> (r: Result<(), PaymentError>)
        ensures
            r is Ok <==> combination_is_valid(*method_name, *kind_name),
            r matches Err(e) ==> e@ == PaymentErrorView::InvalidMethodCombination,
    {
        if Self::_is_valid_method_combination(method_name, kind_name) {
            Ok(())
        } else {
            Err(PaymentError::InvalidMethodCombination)
        }
    }

    /// Accepts an update only of a payment method that exists.
    pub fn ensure_exists(exist: bool) -> (r: Result<(), PaymentError>)
        ensures
            r is Ok <==> exist,
            r matches Err(e) ==> e@ == PaymentErrorView::NotExists,
    {
        if exist {
            Ok(())
        } else {
            Err(PaymentError::NotExists)
        }
    }

    /// The update time at the time `now`: `now` if a creation time came
    /// with the payment method, else none.
    pub fn make_updated_at_with(created_at: &Option<Timestamp>, now: Timestamp) -> (r: Option<
        Timestamp,
    >)
        ensures
            optional_time(r) == updated_at_spec(optional_time(*created_at), now@),
    {
        match created_at {
            Some(_) => Some(now),
            None => None,
        }
    }

    /// The update time at the time of the call.
    pub fn make_updated_at(created_at: &Option<Timestamp>) -> (r: Option<Timestamp>)
        ensures
            r is Some <==> *created_at is Some,
    {
        match created_at {
            Some(_) => Some(Timestamp::now()),
            None => None,
        }
    }

    /// The creation time at the time `now`; see [`created_at_spec`].
    pub fn make_created_at_with(
        payment_id: &str,
        created_at: Option<Timestamp>,
        now: Timestamp,
    ) -> (r: Result<Timestamp, PaymentError>)
        ensures
            match r {
                Ok(t) => created_at_spec(payment_id@, optional_time(created_at), now@) == Ok::<
                    (i64, u32),
                    PaymentErrorView,
                >(t@),
                Err(e) => created_at_spec(payment_id@, optional_time(created_at), now@) == Err::<
                    (i64, u32),
                    PaymentErrorView,
                >(e@),
            },
    {
        match created_at {
            Some(t) => {
                if payment_id.unicode_len() == 0 {
                    return Ok(now);
                }
                let text = t.to_string();
                match Timestamp::from_str(text.as_str()) {
                    Ok(v) => Ok(v),
                    Err(m) => Err(PaymentError::InvalidFormatDatetime(m)),
                }
            },
            None => Ok(now),
        }
    }

    /// The creation time at the time of the call: the result is that of
    /// [`PaymentMethod::make_created_at_with`] for some time `now`.
    pub fn make_created_at(payment_id: &str, created_at: Option<Timestamp>) -> (r: Result<
        Timestamp,
        PaymentError,
    >)
        ensures
            exists|now: (i64, u32)|
                match r {
                    Ok(t) => #[trigger] created_at_spec(
                        payment_id@,
                        optional_time(created_at),
                        now,
                    ) == Ok::<(i64, u32), PaymentErrorView>(t@),
                    Err(e) => created_at_spec(payment_id@, optional_time(created_at), now) == Err::<
                        (i64, u32),
                        PaymentErrorView,
                    >(e@),
                },
    {
        let now = Timestamp::now();
        let r = Self::make_created_at_with(payment_id, created_at, now);
        proof {
            let w = now@;
            assert(match r {
                Ok(t) => created_at_spec(payment_id@, optional_time(created_at), w) == Ok::<
                    (i64, u32),
                    PaymentErrorView,
                >(t@),
                Err(e) => created_at_spec(payment_id@, optional_time(created_at), w) == Err::<
                    (i64, u32),
                    PaymentErrorView,
                >(e@),
            });
        }
        r
    }
}

} // verus!
