//! The wire record of a subscription.

use crate::application::dtos::DTO;
use crate::application::error::{
    to_aggregate_id_error, to_subscribe_error, ApplicationError, ApplicationErrorView,
};
use crate::domain::category::category_id::{lemma_category_prefix, CategoryId, CATEGORY_PREFIX};
use crate::domain::payment::payment_method_id::{
    lemma_payment_prefix, PaymentMethodId, PAYMENT_PREFIX,
};
use crate::domain::payment_cycle::PaymentCycle;
use crate::domain::subscribe::subscribe_error::{SubscribeError, SubscribeErrorView};
use crate::domain::subscribe::subscribe_id::{
    lemma_subscribe_id_round_trip, parse_subscribe_id_spec, subscribe_id_text, SubscribeId,
};
use crate::domain::subscribe::subscribe_name::{subscribe_name_spec, SubscribeName};
use crate::domain::subscribe::subscribe_status::SubscribeStatus;
use crate::domain::subscribe::{monthly_amount_spec, subscribe_spec, Subscribe, SubscribeView};
use crate::domain::user::user_id::{lemma_user_prefix, UserId, USER_PREFIX};
use crate::domain::uuid_codec::{is_version4, random_uuid};
use crate::domain::value_object::amount::{amount_from_text, Amount};
use crate::domain::value_object::decimal::{decimal_parse, decimal_text};
use crate::domain::value_object::timestamp::{optional_time, Timestamp};
use crate::domain::{id_text, lemma_id_round_trip, parse_id_spec};
use crate::text::optional_text;
use vstd::prelude::*;

verus! {

/// The wire record of a subscription.
#[derive(Debug, Clone, PartialEq, Eq)]
pub struct SubscribeDto {
    subscribe_id: String,
    user_id: String,
    name: String,
    payment_method_id: String,
    amount: String,
    payment_cycle: String,
    category_id: String,
    icon_local_path: String,
    notification: bool,
    first_payment_date: Timestamp,
    next_payment_date: Timestamp,
    auto_renewal: bool,
    status: String,
    memo: Option<String>,
}

/// The mathematical value of a [`SubscribeDto`].
pub struct SubscribeDtoView {
    pub subscribe_id: Seq<char>,
    pub user_id: Seq<char>,
    pub name: Seq<char>,
    pub payment_method_id: Seq<char>,
    pub amount: Seq<char>,
    pub payment_cycle: Seq<char>,
    pub category_id: Seq<char>,
    pub icon_local_path: Seq<char>,
    pub notification: bool,
    pub first_payment_date: (i64, u32),
    pub next_payment_date: (i64, u32),
    pub auto_renewal: bool,
    pub status: Seq<char>,
    pub memo: Option<Seq<char>>,
}

impl View for SubscribeDto {
    type V = SubscribeDtoView;

    closed spec fn view(&self) -> SubscribeDtoView {
        SubscribeDtoView {
            subscribe_id: self.subscribe_id@,
            user_id: self.user_id@,
            name: self.name@,
            payment_method_id: self.payment_method_id@,
            amount: self.amount@,
            payment_cycle: self.payment_cycle@,
            category_id: self.category_id@,
            icon_local_path: self.icon_local_path@,
            notification: self.notification,
            first_payment_date: self.first_payment_date@,
            next_payment_date: self.next_payment_date@,
            auto_renewal: self.auto_renewal,
            status: self.status@,
            memo: optional_text(self.memo),
        }
    }
}

/// Collects the fields of a [`SubscribeDto`] one by one.
pub struct SubscribeDtoBuilder {
    subscribe_id: Option<String>,
    user_id: Option<String>,
    name: Option<String>,
    payment_method_id: Option<String>,
    amount: Option<String>,
    payment_cycle: Option<String>,
    category_id: Option<String>,
    icon_local_path: Option<String>,
    notification: Option<bool>,
    first_payment_date: Option<Timestamp>,
    next_payment_date: Option<Timestamp>,
    auto_renewal: Option<bool>,
    status: Option<String>,
    memo: Option<String>,
}

/// The mathematical value of a [`SubscribeDtoBuilder`].
pub struct SubscribeDtoBuilderView {
    pub subscribe_id: Option<Seq<char>>,
    pub user_id: Option<Seq<char>>,
    pub name: Option<Seq<char>>,
    pub payment_method_id: Option<Seq<char>>,
    pub amount: Option<Seq<char>>,
    pub payment_cycle: Option<Seq<char>>,
    pub category_id: Option<Seq<char>>,
    pub icon_local_path: Option<Seq<char>>,
    pub notification: Option<bool>,
    pub first_payment_date: Option<(i64, u32)>,
    pub next_payment_date: Option<(i64, u32)>,
    pub auto_renewal: Option<bool>,
    pub status: Option<Seq<char>>,
    pub memo: Option<Seq<char>>,
}

impl View for SubscribeDtoBuilder {
    type V = SubscribeDtoBuilderView;

    closed spec fn view(&self) -> SubscribeDtoBuilderView {
        SubscribeDtoBuilderView {
            subscribe_id: optional_text(self.subscribe_id),
            user_id: optional_text(self.user_id),
            name: optional_text(self.name),
            payment_method_id: optional_text(self.payment_method_id),
            amount: optional_text(self.amount),
            payment_cycle: optional_text(self.payment_cycle),
            category_id: optional_text(self.category_id),
            icon_local_path: optional_text(self.icon_local_path),
            notification: self.notification,
            first_payment_date: optional_time(self.first_payment_date),
            next_payment_date: optional_time(self.next_payment_date),
            auto_renewal: self.auto_renewal,
            status: optional_text(self.status),
            memo: optional_text(self.memo),
        }
    }
}

/// What building a record from the collected fields gives: the record, or
/// the first required field that is missing. The two flags default to
/// `false`.
pub open spec fn subscribe_dto_build_spec(b: SubscribeDtoBuilderView) -> Result<
    SubscribeDtoView,
    SubscribeErrorView,
> {
    if b.subscribe_id is None {
        Err(SubscribeErrorView::MissingField("subscribe_id"@))
    } else if b.user_id is None {
        Err(SubscribeErrorView::MissingField("user_id"@))
    } else if b.name is None {
        Err(SubscribeErrorView::MissingField("name"@))
    } else if b.payment_method_id is None {
        Err(SubscribeErrorView::MissingField("payment_method_id"@))
    } else if b.amount is None {
        Err(SubscribeErrorView::MissingField("amount"@))
    } else if b.payment_cycle is None {
        Err(SubscribeErrorView::MissingField("payment_cycle"@))
    } else if b.category_id is None {
        Err(SubscribeErrorView::MissingField("category_id"@))
    } else if b.icon_local_path is None {
        Err(SubscribeErrorView::MissingField("icon_local_path"@))
    } else if b.first_payment_date is None {
        Err(SubscribeErrorView::MissingField("first_payment_date"@))
    } else if b.next_payment_date is None {
        Err(SubscribeErrorView::MissingField("next_payment_date"@))
    } else if b.status is None {
        Err(SubscribeErrorView::MissingField("status"@))
    } else {
        Ok(
            SubscribeDtoView {
                subscribe_id: b.subscribe_id->0,
                user_id: b.user_id->0,
                name: b.name->0,
                payment_method_id: b.payment_method_id->0,
                amount: b.amount->0,
                payment_cycle: b.payment_cycle->0,
                category_id: b.category_id->0,
                icon_local_path: b.icon_local_path->0,
                notification: b.notification == Some(true),
                first_payment_date: b.first_payment_date->0,
                next_payment_date: b.next_payment_date->0,
                auto_renewal: b.auto_renewal == Some(true),
                status: b.status->0,
                memo: b.memo,
            },
        )
    }
}

/// The wire record of a subscription.
pub open spec fn subscribe_to_dto_spec(a: SubscribeView) -> SubscribeDtoView {
    SubscribeDtoView {
        subscribe_id: subscribe_id_text(a.subscribe_id),
        user_id: id_text(USER_PREFIX@, a.user_id),
        name: a.name,
        payment_method_id: id_text(PAYMENT_PREFIX@, a.payment_method_id),
        amount: decimal_text(a.amount.0, a.amount.1),
        payment_cycle: a.payment_cycle.label(),
        category_id: id_text(CATEGORY_PREFIX@, a.category_id),
        icon_local_path: a.icon_local_path,
        notification: a.notification,
        first_payment_date: a.first_payment_date,
        next_payment_date: a.next_payment_date,
        auto_renewal: a.auto_renewal,
        status: a.status.label(),
        memo: a.memo,
    }
}

/// What validating a wire record gives, where `fresh` is the UUID that a
/// new subscription gets. In this order: an empty identifier asks for a new
/// subscription, any other must parse; the user identifier must parse; the
/// name must be valid; the payment method identifier must parse; the amount
/// must be a decimal greater than zero; the cycle is read; the category
/// identifier must parse; the status must be known; the amount must have a
/// monthly equivalent. The first failure is reported with its message.
pub open spec fn subscribe_to_domain_spec(d: SubscribeDtoView, fresh: u128) -> Result<
    SubscribeView,
    ApplicationErrorView,
> {
    let id = if d.subscribe_id.len() == 0 {
        Ok(fresh)
    } else {
        parse_subscribe_id_spec(d.subscribe_id)
    };
    match id {
        Err(e) => Err(ApplicationErrorView::InvalidAggregateIdFormatError(e.message())),
        Ok(subscribe_id) => match parse_id_spec(USER_PREFIX@, d.user_id) {
            Err(e) => Err(ApplicationErrorView::InvalidAggregateIdFormatError(e.message())),
            Ok(user_id) => match subscribe_name_spec(d.name) {
                Err(e) => Err(ApplicationErrorView::SubscribeError(e.message())),
                Ok(name) => match parse_id_spec(PAYMENT_PREFIX@, d.payment_method_id) {
                    Err(e) => Err(ApplicationErrorView::InvalidAggregateIdFormatError(e.message())),
                    Ok(payment_method_id) => match amount_from_text(d.amount) {
                        Err(e) => Err(ApplicationErrorView::SubscribeError(e.message())),
                        Ok(amount) => match parse_id_spec(CATEGORY_PREFIX@, d.category_id) {
                            Err(e) => Err(
                                ApplicationErrorView::InvalidAggregateIdFormatError(e.message()),
                            ),
                            Ok(category_id) => match SubscribeStatus::from_text(d.status) {
                                None => Err(
                                    ApplicationErrorView::SubscribeError(
                                        SubscribeErrorView::InvalidSubscribeStatus(
                                            d.status,
                                        ).message(),
                                    ),
                                ),
                                Some(status) => match subscribe_spec(
                                    SubscribeView {
                                        subscribe_id,
                                        user_id,
                                        name,
                                        payment_method_id,
                                        amount,
                                        payment_cycle: PaymentCycle::from_text(d.payment_cycle),
                                        category_id,
                                        icon_local_path: d.icon_local_path,
                                        notification: d.notification,
                                        first_payment_date: d.first_payment_date,
                                        next_payment_date: d.next_payment_date,
                                        auto_renewal: d.auto_renewal,
                                        status,
                                        memo: d.memo,
                                    },
                                ) {
                                    Ok(a) => Ok(a),
                                    Err(e) => Err(
                                        ApplicationErrorView::SubscribeError(
                                            SubscribeErrorView::InvalidAmountError(e).message(),
                                        ),
                                    ),
                                },
                            },
                        },
                    },
                },
            },
        },
    }
}

/// Whether the result of a mapping to an aggregate has the given value.
pub open spec fn subscribe_result_is(
    r: Result<Subscribe, ApplicationError>,
    v: Result<SubscribeView, ApplicationErrorView>,
) -> bool {
    match r {
        Ok(a) => v == Ok::<SubscribeView, ApplicationErrorView>(a@),
        Err(e) => v == Err::<SubscribeView, ApplicationErrorView>(e@),
    }
}

impl SubscribeDto {
    /// The record with the given fields.
    pub fn new(
        subscribe_id: String,
        user_id: String,
        name: String,
        payment_method_id: String,
        amount: String,
        payment_cycle: String,
        category_id: String,
        icon_local_path: String,
        notification: bool,
        first_payment_date: Timestamp,
        next_payment_date: Timestamp,
        auto_renewal: bool,
        status: String,
        memo: Option<String>,
    ) -> (r: Self)
        ensures
            r@ == (SubscribeDtoView {
                subscribe_id: subscribe_id@,
                user_id: user_id@,
                name: name@,
                payment_method_id: payment_method_id@,
                amount: amount@,
                payment_cycle: payment_cycle@,
                category_id: category_id@,
                icon_local_path: icon_local_path@,
                notification: notification,
                first_payment_date: first_payment_date@,
                next_payment_date: next_payment_date@,
                auto_renewal: auto_renewal,
                status: status@,
                memo: optional_text(memo),
            }),
    {
        Self {
            subscribe_id,
            user_id,
            name,
            payment_method_id,
            amount,
            payment_cycle,
            category_id,
            icon_local_path,
            notification,
            first_payment_date,
            next_payment_date,
            auto_renewal,
            status,
            memo,
        }
    }

    /// A builder that has no field yet.
    pub fn builder() -> (r: SubscribeDtoBuilder)
        ensures
            r@ == (SubscribeDtoBuilderView {
                subscribe_id: None,
                user_id: None,
                name: None,
                payment_method_id: None,
                amount: None,
                payment_cycle: None,
                category_id: None,
                icon_local_path: None,
                notification: None,
                first_payment_date: None,
                next_payment_date: None,
                auto_renewal: None,
                status: None,
                memo: None,
            }),
    {
        SubscribeDtoBuilder {
            subscribe_id: None,
            user_id: None,
            name: None,
            payment_method_id: None,
            amount: None,
            payment_cycle: None,
            category_id: None,
            icon_local_path: None,
            notification: None,
            first_payment_date: None,
            next_payment_date: None,
            auto_renewal: None,
            status: None,
            memo: None,
        }
    }

    /// Validates the record and builds the subscription from it; a new
    /// subscription gets the UUID `fresh`.
    pub fn to_domain_with(v: &SubscribeDto, fresh: u128) -> (r: Result<Subscribe, ApplicationError>)
        ensures
            subscribe_result_is(r, subscribe_to_domain_spec(v@, fresh)),
    {
        let subscribe_id = if v.subscribe_id.as_str().unicode_len() == 0 {
            SubscribeId::from(fresh)
        } else {
            match SubscribeId::from_str(v.subscribe_id.as_str()) {
                Ok(id) => id,
                Err(e) => {
                    return Err(to_aggregate_id_error(e.to_string()));
                },
            }
        };
        let user_id = match UserId::from_str(v.user_id.as_str()) {
            Ok(id) => id,
            Err(e) => {
                return Err(to_aggregate_id_error(e.to_string()));
            },
        };
        let name = match SubscribeName::from_str(v.name.as_str()) {
            Ok(name) => name,
            Err(e) => {
                return Err(to_subscribe_error(e.to_string()));
            },
        };
        let payment_method_id = match PaymentMethodId::from_str(v.payment_method_id.as_str()) {
            Ok(id) => id,
            Err(e) => {
                return Err(to_aggregate_id_error(e.to_string()));
            },
        };
        let amount = match Amount::from_str(v.amount.as_str()) {
            Ok(amount) => amount,
            Err(e) => {
                return Err(to_subscribe_error(e.to_string()));
            },
        };
        let payment_cycle = match PaymentCycle::from_str(v.payment_cycle.as_str()) {
            Ok(cycle) => cycle,
            Err(_) => unreached(),
        };
        let category_id = match CategoryId::from_str(v.category_id.as_str()) {
            Ok(id) => id,
            Err(e) => {
                return Err(to_aggregate_id_error(e.to_string()));
            },
        };
        let status = match SubscribeStatus::from_str(v.status.as_str()) {
            Ok(status) => status,
            Err(e) => {
                return Err(to_subscribe_error(e.to_string()));
            },
        };
        match Subscribe::try_from(
            subscribe_id,
            user_id,
            name,
            payment_method_id,
            amount,
            payment_cycle,
            category_id,
            v.icon_local_path.clone(),
            v.notification,
            v.first_payment_date,
            v.next_payment_date,
            v.auto_renewal,
            status,
            v.memo.clone(),
        ) {
            Ok(a) => Ok(a),
            Err(e) => Err(to_subscribe_error(SubscribeError::from_amount_error(e).to_string())),
        }
    }

    /// The wire record of a subscription.
    pub fn to_dto(v: &Subscribe) -> (r: SubscribeDto)
        ensures
            r@ == subscribe_to_dto_spec(v@),
    {
        SubscribeDto {
            subscribe_id: v.subscribe_id().to_string(),
            user_id: v.user_id().to_string(),
            name: v.name().to_string(),
            payment_method_id: v.payment_method_id().to_string(),
            amount: v.amount().to_string(),
            payment_cycle: v.payment_cycle().to_string(),
            category_id: v.category_id().to_string(),
            icon_local_path: v.icon_local_path().clone(),
            notification: v.notification(),
            first_payment_date: *v.first_payment_date(),
            next_payment_date: *v.next_payment_date(),
            auto_renewal: v.auto_renewal(),
            status: v.status().to_string(),
            memo: v.memo().clone(),
        }
    }

    /// The record's field: the identifier text.
    pub fn subscribe_id(&self) -> (r: &String)
        ensures
            r@ == self@.subscribe_id,
    {
        &self.subscribe_id
    }

    /// The record's field: the user identifier text.
    pub fn user_id(&self) -> (r: &String)
        ensures
            r@ == self@.user_id,
    {
        &self.user_id
    }

    /// The record's field: the name.
    pub fn name(&self) -> (r: &String)
        ensures
            r@ == self@.name,
    {
        &self.name
    }

    /// The record's field: the payment method identifier text.
    pub fn payment_method_id(&self) -> (r: &String)
        ensures
            r@ == self@.payment_method_id,
    {
        &self.payment_method_id
    }

    /// The record's field: the amount text.
    pub fn amount(&self) -> (r: &String)
        ensures
            r@ == self@.amount,
    {
        &self.amount
    }

    /// The record's field: the payment cycle text.
    pub fn payment_cycle(&self) -> (r: &String)
        ensures
            r@ == self@.payment_cycle,
    {
        &self.payment_cycle
    }

    /// The record's field: the category identifier text.
    pub fn category_id(&self) -> (r: &String)
        ensures
            r@ == self@.category_id,
    {
        &self.category_id
    }

    /// The record's field: the path of the icon.
    pub fn icon_local_path(&self) -> (r: &String)
        ensures
            r@ == self@.icon_local_path,
    {
        &self.icon_local_path
    }

    /// The record's field: whether the user is notified.
    pub fn notification(&self) -> (r: bool)
        ensures
            r == self@.notification,
    {
        self.notification
    }

    /// The record's field: the first payment date.
    pub fn first_payment_date(&self) -> (r: &Timestamp)
        ensures
            r@ == self@.first_payment_date,
    {
        &self.first_payment_date
    }

    /// The record's field: the next payment date.
    pub fn next_payment_date(&self) -> (r: &Timestamp)
        ensures
            r@ == self@.next_payment_date,
    {
        &self.next_payment_date
    }

    /// The record's field: whether the subscription renews by itself.
    pub fn auto_renewal(&self) -> (r: bool)
        ensures
            r == self@.auto_renewal,
    {
        self.auto_renewal
    }

    /// The record's field: the status text.
    pub fn status(&self) -> (r: &String)
        ensures
            r@ == self@.status,
    {
        &self.status
    }

    /// The record's field: the note, if there is one.
    pub fn memo(&self) -> (r: &Option<String>)
        ensures
            optional_text(*r) == self@.memo,
    {
        &self.memo
    }

    /// The wire records of subscriptions, in order.
    pub fn to_dtos(items: &Vec<Subscribe>) -> (r: Vec<SubscribeDto>)
        ensures
            r.len() == items.len(),
            forall|i: int| 0 <= i < r.len() ==> (#[trigger] r[i])@ == subscribe_to_dto_spec(items[i]@),
    {
        let mut r: Vec<SubscribeDto> = Vec::new();
        let mut k: usize = 0;
        while k < items.len()
            invariant
                k <= items.len(),
                r.len() == k,
                forall|i: int| 0 <= i < k ==> (#[trigger] r[i])@ == subscribe_to_dto_spec(items[i]@),
            decreases items.len() - k,
        {
            r.push(Self::to_dto(&items[k]));
            k += 1;
        }
        r
    }
}

impl SubscribeDtoBuilder {
    /// Sets the identifier text.
    pub fn subscribe_id(self, subscribe_id: String) -> (r: Self)
        ensures
            r@ == (SubscribeDtoBuilderView { subscribe_id: Some(subscribe_id@), ..self@ }),
    {
        let mut b = self;
        b.subscribe_id = Some(subscribe_id);
        b
    }

    /// Sets the user identifier text.
    pub fn user_id(self, user_id: String) -> (r: Self)
        ensures
            r@ == (SubscribeDtoBuilderView { user_id: Some(user_id@), ..self@ }),
    {
        let mut b = self;
        b.user_id = Some(user_id);
        b
    }

    /// Sets the name.
    pub fn name(self, name: String) -> (r: Self)
        ensures
            r@ == (SubscribeDtoBuilderView { name: Some(name@), ..self@ }),
    {
        let mut b = self;
        b.name = Some(name);
        b
    }

    /// Sets the payment method identifier text.
    pub fn payment_method_id(self, payment_method_id: String) -> (r: Self)
        ensures
            r@ == (SubscribeDtoBuilderView { payment_method_id: Some(payment_method_id@), ..self@ }),
    {
        let mut b = self;
        b.payment_method_id = Some(payment_method_id);
        b
    }

    /// Sets the amount text.
    pub fn amount(self, amount: String) -> (r: Self)
        ensures
            r@ == (SubscribeDtoBuilderView { amount: Some(amount@), ..self@ }),
    {
        let mut b = self;
        b.amount = Some(amount);
        b
    }

    /// Sets the payment cycle text.
    pub fn payment_cycle(self, payment_cycle: String) -> (r: Self)
        ensures
            r@ == (SubscribeDtoBuilderView { payment_cycle: Some(payment_cycle@), ..self@ }),
    {
        let mut b = self;
        b.payment_cycle = Some(payment_cycle);
        b
    }

    /// Sets the category identifier text.
    pub fn category_id(self, category_id: String) -> (r: Self)
        ensures
            r@ == (SubscribeDtoBuilderView { category_id: Some(category_id@), ..self@ }),
    {
        let mut b = self;
        b.category_id = Some(category_id);
        b
    }

    /// Sets the path of the icon.
    pub fn icon_local_path(self, icon_local_path: String) -> (r: Self)
        ensures
            r@ == (SubscribeDtoBuilderView { icon_local_path: Some(icon_local_path@), ..self@ }),
    {
        let mut b = self;
        b.icon_local_path = Some(icon_local_path);
        b
    }

    /// Sets whether the user is notified.
    pub fn notification(self, notification: bool) -> (r: Self)
        ensures
            r@ == (SubscribeDtoBuilderView { notification: Some(notification), ..self@ }),
    {
        let mut b = self;
        b.notification = Some(notification);
        b
    }

    /// Sets the first payment date.
    pub fn first_payment_date(self, first_payment_date: Timestamp) -> (r: Self)
        ensures
            r@ == (SubscribeDtoBuilderView { first_payment_date: Some(first_payment_date@), ..self@ }),
    {
        let mut b = self;
        b.first_payment_date = Some(first_payment_date);
        b
    }

    /// Sets the next payment date.
    pub fn next_payment_date(self, next_payment_date: Timestamp) -> (r: Self)
        ensures
            r@ == (SubscribeDtoBuilderView { next_payment_date: Some(next_payment_date@), ..self@ }),
    {
        let mut b = self;
        b.next_payment_date = Some(next_payment_date);
        b
    }

    /// Sets whether the subscription renews by itself.
    pub fn auto_renewal(self, auto_renewal: bool) -> (r: Self)
        ensures
            r@ == (SubscribeDtoBuilderView { auto_renewal: Some(auto_renewal), ..self@ }),
    {
        let mut b = self;
        b.auto_renewal = Some(auto_renewal);
        b
    }

    /// Sets the status text.
    pub fn status(self, status: String) -> (r: Self)
        ensures
            r@ == (SubscribeDtoBuilderView { status: Some(status@), ..self@ }),
    {
        let mut b = self;
        b.status = Some(status);
        b
    }

    /// Sets or clears the note.
    pub fn memo(self, memo: Option<String>) -> (r: Self)
        ensures
            r@ == (SubscribeDtoBuilderView { memo: optional_text(memo), ..self@ }),
    {
        let mut b = self;
        b.memo = memo;
        b
    }

    /// The record of the collected fields, or the first required field that
    /// is missing.
    pub fn build(self) -> (r: Result<SubscribeDto, SubscribeError>)
        ensures
            match r {
                Ok(d) => subscribe_dto_build_spec(self@) == Ok::<
                    SubscribeDtoView,
                    SubscribeErrorView,
                >(d@),
                Err(e) => subscribe_dto_build_spec(self@) == Err::<
                    SubscribeDtoView,
                    SubscribeErrorView,
                >(e@),
            },
    {
        let subscribe_id = match self.subscribe_id {
            Some(x) => x,
            None => {
                return Err(SubscribeError::MissingField("subscribe_id".to_owned()));
            },
        };
        let user_id = match self.user_id {
            Some(x) => x,
            None => {
                return Err(SubscribeError::MissingField("user_id".to_owned()));
            },
        };
        let name = match self.name {
            Some(x) => x,
            None => {
                return Err(SubscribeError::MissingField("name".to_owned()));
            },
        };
        let payment_method_id = match self.payment_method_id {
            Some(x) => x,
            None => {
                return Err(SubscribeError::MissingField("payment_method_id".to_owned()));
            },
        };
        let amount = match self.amount {
            Some(x) => x,
            None => {
                return Err(SubscribeError::MissingField("amount".to_owned()));
            },
        };
        let payment_cycle = match self.payment_cycle {
            Some(x) => x,
            None => {
                return Err(SubscribeError::MissingField("payment_cycle".to_owned()));
            },
        };
        let category_id = match self.category_id {
            Some(x) => x,
            None => {
                return Err(SubscribeError::MissingField("category_id".to_owned()));
            },
        };
        let icon_local_path = match self.icon_local_path {
            Some(x) => x,
            None => {
                return Err(SubscribeError::MissingField("icon_local_path".to_owned()));
            },
        };
        let notification = match self.notification {
            Some(x) => x,
            None => false,
        };
        let first_payment_date = match self.first_payment_date {
            Some(x) => x,
            None => {
                return Err(SubscribeError::MissingField("first_payment_date".to_owned()));
            },
        };
        let next_payment_date = match self.next_payment_date {
            Some(x) => x,
            None => {
                return Err(SubscribeError::MissingField("next_payment_date".to_owned()));
            },
        };
        let auto_renewal = match self.auto_renewal {
            Some(x) => x,
            None => false,
        };
        let status = match self.status {
            Some(x) => x,
            None => {
                return Err(SubscribeError::MissingField("status".to_owned()));
            },
        };
        Ok(
            SubscribeDto {
                subscribe_id,
                user_id,
                name,
                payment_method_id,
                amount,
                payment_cycle,
                category_id,
                icon_local_path,
                notification,
                first_payment_date,
                next_payment_date,
                auto_renewal,
                status,
                memo: self.memo,
            },
        )
    }
}

impl DTO<SubscribeDto, Subscribe, ApplicationError> for SubscribeDto {
    /// Validates the record and builds the subscription from it; a new
    /// subscription gets a random UUID.
    fn map_to_domain_model(v: SubscribeDto) -> (r: Result<Subscribe, ApplicationError>)
        ensures
            exists|fresh: u128|
                is_version4(fresh) && subscribe_result_is(
                    r,
                    #[trigger] subscribe_to_domain_spec(v@, fresh),
                ),
    {
        let fresh = random_uuid();
        let r = Self::to_domain_with(&v, fresh);
        assert(is_version4(fresh) && subscribe_result_is(r, subscribe_to_domain_spec(v@, fresh)));
        r
    }

    fn map_to_dto(v: &Subscribe) -> (r: SubscribeDto)
        ensures
            r@ == subscribe_to_dto_spec(v@),
    {
        Self::to_dto(v)
    }
}

/// Round trip from a subscription with a valid name and amount that is paid
/// monthly: if the amount is read back from its text unchanged, the wire
/// record is mapped back to the same subscription. A yearly subscription is
/// left out: mapping it back divides its amount by twelve once more.
pub proof fn lemma_subscribe_dto_round_trip(a: SubscribeView, fresh: u128)
    requires
        a.valid(),
        a.payment_cycle == PaymentCycle::Monthly,
    ensures
        decimal_parse(decimal_text(a.amount.0, a.amount.1)) == Some(a.amount)
            ==> subscribe_to_domain_spec(subscribe_to_dto_spec(a), fresh) == Ok::<
            SubscribeView,
            ApplicationErrorView,
        >(a),
{
    lemma_user_prefix();
    lemma_payment_prefix();
    lemma_category_prefix();
    lemma_subscribe_id_round_trip(a.subscribe_id);
    lemma_id_round_trip(USER_PREFIX@, a.user_id);
    lemma_id_round_trip(PAYMENT_PREFIX@, a.payment_method_id);
    lemma_id_round_trip(CATEGORY_PREFIX@, a.category_id);
    PaymentCycle::lemma_from_text_label(a.payment_cycle);
    SubscribeStatus::lemma_from_text_label(a.status);
}

/// Round trip from a wire record: a record that maps to a subscription
/// agrees with the wire record of that subscription on every field but the
/// amount, provided its identifiers are written in canonical form and its
/// cycle is one of the two labels. The amount comes back as the text of the
/// monthly equivalent of the decimal that it writes: under a yearly cycle
/// the quotient by twelve, under a monthly cycle that decimal itself, so
/// that the whole record comes back if the amount text is the text of the
/// decimal that it writes.
pub proof fn lemma_subscribe_dto_round_trip_from_record(
    d: SubscribeDtoView,
    fresh: u128,
    subscribe_id: u128,
    user_id: u128,
    payment_method_id: u128,
    category_id: u128,
    cycle: PaymentCycle,
)
    requires
        d.subscribe_id == subscribe_id_text(subscribe_id),
        d.user_id == id_text(USER_PREFIX@, user_id),
        d.payment_method_id == id_text(PAYMENT_PREFIX@, payment_method_id),
        d.category_id == id_text(CATEGORY_PREFIX@, category_id),
        d.payment_cycle == cycle.label(),
        subscribe_to_domain_spec(d, fresh) is Ok,
    ensures
        ({
            let out = subscribe_to_dto_spec(subscribe_to_domain_spec(d, fresh)->Ok_0);
            &&& out == SubscribeDtoView { amount: out.amount, ..d }
            &&& amount_from_text(d.amount) matches Ok(v) && (monthly_amount_spec(v, cycle) matches Ok(
                q,
            ) && out.amount == decimal_text(q.0, q.1))
            &&& cycle == PaymentCycle::Monthly && (decimal_parse(d.amount) matches Some(v)
                && decimal_text(v.0, v.1) == d.amount) ==> out == d
        }),
{
    lemma_user_prefix();
    lemma_payment_prefix();
    lemma_category_prefix();
    lemma_subscribe_id_round_trip(subscribe_id);
    lemma_id_round_trip(USER_PREFIX@, user_id);
    lemma_id_round_trip(PAYMENT_PREFIX@, payment_method_id);
    lemma_id_round_trip(CATEGORY_PREFIX@, category_id);
    PaymentCycle::lemma_from_text_label(cycle);
}

} // verus!
