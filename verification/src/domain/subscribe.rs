//! Subscriptions.
//!
//! A subscription stores its amount as a monthly equivalent: an amount that
//! comes with a yearly cycle is divided by twelve when the subscription is
//! built, and the cycle is kept beside it.

use crate::domain::category::category_id::CategoryId;
use crate::domain::payment::payment_method_id::PaymentMethodId;
use crate::domain::payment_cycle::PaymentCycle;
use crate::domain::subscribe::subscribe_id::SubscribeId;
use crate::domain::subscribe::subscribe_name::SubscribeName;
use crate::domain::subscribe::subscribe_status::SubscribeStatus;
use crate::domain::user::user_id::UserId;
use crate::domain::uuid_codec::is_version4;
use crate::domain::value_object::amount::{amount_quotient, Amount, AmountError};
use crate::domain::value_object::decimal::DecimalValue;
use crate::domain::value_object::timestamp::Timestamp;
use crate::text::optional_text;
use vstd::prelude::*;

pub mod subscribe_error;
pub mod subscribe_id;
pub mod subscribe_name;
pub mod subscribe_status;

verus! {

/// A subscription of a user.
#[derive(Debug, Clone, PartialEq, Eq)]
pub struct Subscribe {
    subscribe_id: SubscribeId,
    user_id: UserId,
    name: SubscribeName,
    payment_method_id: PaymentMethodId,
    amount: Amount,
    payment_cycle: PaymentCycle,
    category_id: CategoryId,
    icon_local_path: String,
    notification: bool,
    first_payment_date: Timestamp,
    next_payment_date: Timestamp,
    auto_renewal: bool,
    status: SubscribeStatus,
    memo: Option<String>,
}

/// The mathematical value of a [`Subscribe`].
pub struct SubscribeView {
    pub subscribe_id: u128,
    pub user_id: u128,
    pub name: Seq<char>,
    pub payment_method_id: u128,
    pub amount: (i128, u32),
    pub payment_cycle: PaymentCycle,
    pub category_id: u128,
    pub icon_local_path: Seq<char>,
    pub notification: bool,
    pub first_payment_date: (i64, u32),
    pub next_payment_date: (i64, u32),
    pub auto_renewal: bool,
    pub status: SubscribeStatus,
    pub memo: Option<Seq<char>>,
}

impl View for Subscribe {
    type V = SubscribeView;

    closed spec fn view(&self) -> SubscribeView {
        SubscribeView {
            subscribe_id: self.subscribe_id@,
            user_id: self.user_id@,
            name: self.name@,
            payment_method_id: self.payment_method_id@,
            amount: self.amount@,
            payment_cycle: self.payment_cycle,
            category_id: self.category_id@,
            icon_local_path: self.icon_local_path@,
            notification: self.notification,
            first_payment_date: self.first_payment_date@,
            next_payment_date: self.next_payment_date@,
            auto_renewal: self.auto_renewal,
            status: self.status,
            memo: optional_text(self.memo),
        }
    }
}

/// The monthly equivalent of an amount that is paid in the given cycle: a
/// yearly amount is divided by twelve, and the quotient must again be an
/// amount; a monthly amount stays.
pub open spec fn monthly_amount_spec(amount: (i128, u32), cycle: PaymentCycle) -> Result<
    (i128, u32),
    AmountError,
> {
    match cycle {
        PaymentCycle::Yearly => amount_quotient(amount, (12i128, 0u32)),
        PaymentCycle::Monthly => Ok(amount),
    }
}

/// The value of the subscription that is built from the given parts, if the
/// amount has a monthly equivalent.
pub open spec fn subscribe_spec(parts: SubscribeView) -> Result<SubscribeView, AmountError> {
    match monthly_amount_spec(parts.amount, parts.payment_cycle) {
        Ok(monthly) => Ok(SubscribeView { amount: monthly, ..parts }),
        Err(e) => Err(e),
    }
}

impl SubscribeView {
    /// Name and amount are valid.
    pub open spec fn valid(self) -> bool {
        1 <= self.name.len() <= 20 && self.amount.0 > 0
    }
}

impl Subscribe {
    /// The monthly equivalent of `amount`; see [`monthly_amount_spec`].
    pub fn yearly_amount_per_monthly(amount: Amount, cycle: &PaymentCycle) -> (r: Result<
        Amount,
        AmountError,
    >)
        ensures
            match r {
                Ok(a) => monthly_amount_spec(amount@, *cycle) == Ok::<(i128, u32), AmountError>(a@),
                Err(e) => monthly_amount_spec(amount@, *cycle) == Err::<(i128, u32), AmountError>(
                    e,
                ),
            },
    {
        match cycle {
            PaymentCycle::Yearly => amount.divide(&DecimalValue::from_int(12)),
            PaymentCycle::Monthly => Ok(amount),
        }
    }

    /// A new subscription with a fresh identifier: that of a random UUID.
    /// The amount must have a
    /// monthly equivalent; [`Subscribe::try_new`] tests that first.
    pub fn new(
        user_id: UserId,
        name: SubscribeName,
        payment_method_id: PaymentMethodId,
        amount: Amount,
        payment_cycle: PaymentCycle,
        category_id: CategoryId,
        icon_local_path: String,
        notification: bool,
        first_payment_date: Timestamp,
        next_payment_date: Timestamp,
        auto_renewal: bool,
        status: SubscribeStatus,
        memo: Option<String>,
    ) -> (r: Self)
        requires
            monthly_amount_spec(amount@, payment_cycle) is Ok,
        ensures
            is_version4(r@.subscribe_id),
            subscribe_spec(
                SubscribeView {
                    subscribe_id: r@.subscribe_id,
                    user_id: user_id@,
                    name: name@,
                    payment_method_id: payment_method_id@,
                    amount: amount@,
                    payment_cycle,
                    category_id: category_id@,
                    icon_local_path: icon_local_path@,
                    notification,
                    first_payment_date: first_payment_date@,
                    next_payment_date: next_payment_date@,
                    auto_renewal,
                    status,
                    memo: optional_text(memo),
                },
            ) == Ok::<SubscribeView, AmountError>(r@),
            r@.valid(),
    {
        Self::from(
            SubscribeId::new(),
            user_id,
            name,
            payment_method_id,
            amount,
            payment_cycle,
            category_id,
            icon_local_path,
            notification,
            first_payment_date,
            next_payment_date,
            auto_renewal,
            status,
            memo,
        )
    }

    /// The subscription with the given identifier. The amount must have a
    /// monthly equivalent; [`Subscribe::try_from`] tests that first.
    pub fn from(
        subscribe_id: SubscribeId,
        user_id: UserId,
        name: SubscribeName,
        payment_method_id: PaymentMethodId,
        amount: Amount,
        payment_cycle: PaymentCycle,
        category_id: CategoryId,
        icon_local_path: String,
        notification: bool,
        first_payment_date: Timestamp,
        next_payment_date: Timestamp,
        auto_renewal: bool,
        status: SubscribeStatus,
        memo: Option<String>,
    ) -> (r: Self)
        requires
            monthly_amount_spec(amount@, payment_cycle) is Ok,
        ensures
            subscribe_spec(
                SubscribeView {
                    subscribe_id: subscribe_id@,
                    user_id: user_id@,
                    name: name@,
                    payment_method_id: payment_method_id@,
                    amount: amount@,
                    payment_cycle,
                    category_id: category_id@,
                    icon_local_path: icon_local_path@,
                    notification,
                    first_payment_date: first_payment_date@,
                    next_payment_date: next_payment_date@,
                    auto_renewal,
                    status,
                    memo: optional_text(memo),
                },
            ) == Ok::<SubscribeView, AmountError>(r@),
            r@.valid(),
    {
        proof {
            use_type_invariant(&name);
        }
        let amount = match Self::yearly_amount_per_monthly(amount, &payment_cycle) {
            Ok(monthly) => monthly,
            Err(_) => unreached(),
        };
        proof {
            use_type_invariant(&amount);
        }
        Self {
            subscribe_id,
            user_id,
            name,
            payment_method_id,
            amount,
            payment_cycle,
            category_id,
            icon_local_path,
            notification,
            first_payment_date,
            next_payment_date,
            auto_renewal,
            status,
            memo,
        }
    }

    /// A new subscription with a fresh identifier, or the error of the
    /// amount that has no monthly equivalent.
    pub fn try_new(
        user_id: UserId,
        name: SubscribeName,
        payment_method_id: PaymentMethodId,
        amount: Amount,
        payment_cycle: PaymentCycle,
        category_id: CategoryId,
        icon_local_path: String,
        notification: bool,
        first_payment_date: Timestamp,
        next_payment_date: Timestamp,
        auto_renewal: bool,
        status: SubscribeStatus,
        memo: Option<String>,
    ) -> (r: Result<Self, AmountError>)
        ensures
            match r {
                Ok(s) => subscribe_spec(
                    SubscribeView {
                        subscribe_id: s@.subscribe_id,
                        user_id: user_id@,
                        name: name@,
                        payment_method_id: payment_method_id@,
                        amount: amount@,
                        payment_cycle,
                        category_id: category_id@,
                        icon_local_path: icon_local_path@,
                        notification,
                        first_payment_date: first_payment_date@,
                        next_payment_date: next_payment_date@,
                        auto_renewal,
                        status,
                        memo: optional_text(memo),
                    },
                ) == Ok::<SubscribeView, AmountError>(s@) && s@.valid() && is_version4(
                    s@.subscribe_id,
                ),
                Err(e) => monthly_amount_spec(amount@, payment_cycle) == Err::<
                    (i128, u32),
                    AmountError,
                >(e),
            },
    {
        match Self::yearly_amount_per_monthly(amount, &payment_cycle) {
            Ok(_) => Ok(
                Self::new(
                    user_id,
                    name,
                    payment_method_id,
                    amount,
                    payment_cycle,
                    category_id,
                    icon_local_path,
                    notification,
                    first_payment_date,
                    next_payment_date,
                    auto_renewal,
                    status,
                    memo,
                ),
            ),
            Err(e) => Err(e),
        }
    }

    /// The subscription with the given identifier, or the error of the
    /// amount that has no monthly equivalent.
    pub fn try_from(
        subscribe_id: SubscribeId,
        user_id: UserId,
        name: SubscribeName,
        payment_method_id: PaymentMethodId,
        amount: Amount,
        payment_cycle: PaymentCycle,
        category_id: CategoryId,
        icon_local_path: String,
        notification: bool,
        first_payment_date: Timestamp,
        next_payment_date: Timestamp,
        auto_renewal: bool,
        status: SubscribeStatus,
        memo: Option<String>,
    ) -> (r: Result<Self, AmountError>)
        ensures
            match r {
                Ok(s) => subscribe_spec(
                    SubscribeView {
                        subscribe_id: subscribe_id@,
                        user_id: user_id@,
                        name: name@,
                        payment_method_id: payment_method_id@,
                        amount: amount@,
                        payment_cycle,
                        category_id: category_id@,
                        icon_local_path: icon_local_path@,
                        notification,
                        first_payment_date: first_payment_date@,
                        next_payment_date: next_payment_date@,
                        auto_renewal,
                        status,
                        memo: optional_text(memo),
                    },
                ) == Ok::<SubscribeView, AmountError>(s@) && s@.valid(),
                Err(e) => monthly_amount_spec(amount@, payment_cycle) == Err::<
                    (i128, u32),
                    AmountError,
                >(e),
            },
    {
        match Self::yearly_amount_per_monthly(amount, &payment_cycle) {
            Ok(_) => Ok(
                Self::from(
                    subscribe_id,
                    user_id,
                    name,
                    payment_method_id,
                    amount,
                    payment_cycle,
                    category_id,
                    icon_local_path,
                    notification,
                    first_payment_date,
                    next_payment_date,
                    auto_renewal,
                    status,
                    memo,
                ),
            ),
            Err(e) => Err(e),
        }
    }

    /// The identifier of the subscription.
    pub fn subscribe_id(&self) -> (r: &SubscribeId)
        ensures
            r@ == self@.subscribe_id,
    {
        &self.subscribe_id
    }

    /// The user that the subscription belongs to.
    pub fn user_id(&self) -> (r: &UserId)
        ensures
            r@ == self@.user_id,
    {
        &self.user_id
    }

    /// The name of the subscription.
    pub fn name(&self) -> (r: &SubscribeName)
        ensures
            r@ == self@.name,
    {
        &self.name
    }

    /// The payment method that pays for the subscription.
    pub fn payment_method_id(&self) -> (r: &PaymentMethodId)
        ensures
            r@ == self@.payment_method_id,
    {
        &self.payment_method_id
    }

    /// The monthly equivalent of what the subscription costs.
    pub fn amount(&self) -> (r: &Amount)
        ensures
            r@ == self@.amount,
    {
        &self.amount
    }

    /// How often the subscription is paid.
    pub fn payment_cycle(&self) -> (r: &PaymentCycle)
        ensures
            *r == self@.payment_cycle,
    {
        &self.payment_cycle
    }

    /// The category of the subscription.
    pub fn category_id(&self) -> (r: &CategoryId)
        ensures
            r@ == self@.category_id,
    {
        &self.category_id
    }

    /// Where the icon of the subscription is kept.
    pub fn icon_local_path(&self) -> (r: &String)
        ensures
            r@ == self@.icon_local_path,
    {
        &self.icon_local_path
    }

    /// Whether the user is notified of payments.
    pub fn notification(&self) -> (r: bool)
        ensures
            r == self@.notification,
    {
        self.notification
    }

    /// When the subscription was first paid.
    pub fn first_payment_date(&self) -> (r: &Timestamp)
        ensures
            r@ == self@.first_payment_date,
    {
        &self.first_payment_date
    }

    /// When the subscription is paid next.
    pub fn next_payment_date(&self) -> (r: &Timestamp)
        ensures
            r@ == self@.next_payment_date,
    {
        &self.next_payment_date
    }

    /// Whether the subscription renews by itself.
    pub fn auto_renewal(&self) -> (r: bool)
        ensures
            r == self@.auto_renewal,
    {
        self.auto_renewal
    }

    /// The state of the subscription.
    pub fn status(&self) -> (r: &SubscribeStatus)
        ensures
            *r == self@.status,
    {
        &self.status
    }

    /// The note of the user, if there is one.
    pub fn memo(&self) -> (r: &Option<String>)
        ensures
            optional_text(*r) == self@.memo,
    {
        &self.memo
    }
}

} // verus!
