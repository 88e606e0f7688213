//! The wire record of a payment method.

use crate::application::dtos::DTO;
use crate::application::error::{
    to_aggregate_id_error, to_payment_method_error, ApplicationError, ApplicationErrorView,
};
use crate::domain::payment::payment_error::PaymentErrorView;
use crate::domain::payment::payment_method_id::{
    lemma_payment_prefix, PaymentMethodId, PAYMENT_PREFIX,
};
use crate::domain::payment::payment_method_name::{
    PaymentMethodCategoryName, PaymentMethodKindName, PaymentMethodNameErrorView,
};
use crate::domain::payment::{
    combination_is_valid, created_at_spec, updated_at_spec, PaymentMethod, PaymentMethodView,
};
use crate::domain::user::user_id::{lemma_user_prefix, UserId, USER_PREFIX};
use crate::domain::uuid_codec::{is_version4, random_uuid};
use crate::domain::value_object::timestamp::{
    datetime_parse, datetime_text, optional_time, Timestamp,
};
use crate::domain::{id_text, lemma_id_round_trip, parse_id_spec};
use vstd::prelude::*;

verus! {

/// The wire record of a payment method.
#[derive(Debug, Clone, PartialEq, Eq)]
pub struct PaymentMethodDTO {
    pub payment_method_id: String,
    pub user_id: String,
    pub method_name: String,
    pub method_kind_name: String,
    pub additional_name: String,
    pub created_at: Option<Timestamp>,
    pub updated_at: Option<Timestamp>,
}

/// The mathematical value of a [`PaymentMethodDTO`].
pub struct PaymentMethodDtoView {
    pub payment_method_id: Seq<char>,
    pub user_id: Seq<char>,
    pub method_name: Seq<char>,
    pub method_kind_name: Seq<char>,
    pub additional_name: Seq<char>,
    pub created_at: Option<(i64, u32)>,
    pub updated_at: Option<(i64, u32)>,
}

impl View for PaymentMethodDTO {
    type V = PaymentMethodDtoView;

    open spec fn view(&self) -> PaymentMethodDtoView {
        PaymentMethodDtoView {
            payment_method_id: self.payment_method_id@,
            user_id: self.user_id@,
            method_name: self.method_name@,
            method_kind_name: self.method_kind_name@,
            additional_name: self.additional_name@,
            created_at: optional_time(self.created_at),
            updated_at: optional_time(self.updated_at),
        }
    }
}

/// The wire record of a payment method. Category and kind are written with
/// their display labels.
pub open spec fn payment_to_dto_spec(a: PaymentMethodView) -> PaymentMethodDtoView {
    PaymentMethodDtoView {
        payment_method_id: id_text(PAYMENT_PREFIX@, a.payment_method_id),
        user_id: id_text(USER_PREFIX@, a.user_id),
        method_name: a.method_name.label(),
        method_kind_name: a.method_kind_name.label(),
        additional_name: a.additional_name,
        created_at: Some(a.created_at),
        updated_at: a.updated_at,
    }
}

/// What validating a wire record gives, where `fresh` is the UUID that a
/// new payment method gets and `created_now` and `updated_now` are the two
/// readings of the clock. In this order: an empty identifier asks for a new
/// payment method, any other must parse; the user identifier must parse;
/// category and kind must be known; the creation time is settled; the kind
/// must belong to the category. The first failure is reported with its
/// message.
pub open spec fn payment_to_domain_spec(
    d: PaymentMethodDtoView,
    fresh: u128,
    created_now: (i64, u32),
    updated_now: (i64, u32),
) -> Result<PaymentMethodView, ApplicationErrorView> {
    let id = if d.payment_method_id.len() == 0 {
        Ok(fresh)
    } else {
        parse_id_spec(PAYMENT_PREFIX@, d.payment_method_id)
    };
    match id {
        Err(e) => Err(ApplicationErrorView::InvalidAggregateIdFormatError(e.message())),
        Ok(payment_method_id) => match parse_id_spec(USER_PREFIX@, d.user_id) {
            Err(e) => Err(ApplicationErrorView::InvalidAggregateIdFormatError(e.message())),
            Ok(user_id) => match PaymentMethodCategoryName::from_text(d.method_name) {
                None => Err(
                    ApplicationErrorView::PaymentMethodError(
                        PaymentMethodNameErrorView::InvalidCategoryName(d.method_name).message(),
                    ),
                ),
                Some(method_name) => match PaymentMethodKindName::from_text(d.method_kind_name) {
                    None => Err(
                        ApplicationErrorView::PaymentMethodError(
                            PaymentMethodNameErrorView::InvalidKindName(
                                d.method_kind_name,
                            ).message(),
                        ),
                    ),
                    Some(method_kind_name) => match created_at_spec(
                        d.payment_method_id,
                        d.created_at,
                        created_now,
                    ) {
                        Err(e) => Err(ApplicationErrorView::PaymentMethodError(e.message())),
                        Ok(created_at) => if combination_is_valid(method_name, method_kind_name) {
                            Ok(
                                PaymentMethodView {
                                    payment_method_id,
                                    user_id,
                                    method_name,
                                    method_kind_name,
                                    additional_name: d.additional_name,
                                    created_at,
                                    updated_at: updated_at_spec(d.created_at, updated_now),
                                },
                            )
                        } else {
                            Err(
                                ApplicationErrorView::PaymentMethodError(
                                    PaymentErrorView::InvalidMethodCombination.message(),
                                ),
                            )
                        },
                    },
                },
            },
        },
    }
}

/// Whether the result of a mapping to an aggregate has the given value.
pub open spec fn payment_result_is(
    r: Result<PaymentMethod, ApplicationError>,
    v: Result<PaymentMethodView, ApplicationErrorView>,
) -> bool {
    match r {
        Ok(a) => v == Ok::<PaymentMethodView, ApplicationErrorView>(a@),
        Err(e) => v == Err::<PaymentMethodView, ApplicationErrorView>(e@),
    }
}

impl PaymentMethodDTO {
    /// The record with the given fields.
    pub fn new(
        payment_method_id: &str,
        user_id: &str,
        method_name: &str,
        method_kind_name: &str,
        additional_name: &str,
        created_at: &Option<Timestamp>,
        updated_at: &Option<Timestamp>,
    ) -> (r: PaymentMethodDTO)
        ensures
            r@ == (PaymentMethodDtoView {
                payment_method_id: payment_method_id@,
                user_id: user_id@,
                method_name: method_name@,
                method_kind_name: method_kind_name@,
                additional_name: additional_name@,
                created_at: optional_time(*created_at),
                updated_at: optional_time(*updated_at),
            }),
    {
        PaymentMethodDTO {
            payment_method_id: payment_method_id.to_owned(),
            user_id: user_id.to_owned(),
            method_name: method_name.to_owned(),
            method_kind_name: method_kind_name.to_owned(),
            additional_name: additional_name.to_owned(),
            created_at: *created_at,
            updated_at: *updated_at,
        }
    }

    /// Validates the record and builds the payment method from it; see
    /// [`payment_to_domain_spec`].
    pub fn to_domain_with(
        v: &PaymentMethodDTO,
        fresh: u128,
        created_now: Timestamp,
        updated_now: Timestamp,
    ) -> (r: Result<PaymentMethod, ApplicationError>)
        ensures
            payment_result_is(r, payment_to_domain_spec(v@, fresh, created_now@, updated_now@)),
    {
        let payment_method_id = if v.payment_method_id.as_str().unicode_len() == 0 {
            PaymentMethodId::from(fresh)
        } else {
            match PaymentMethodId::from_str(v.payment_method_id.as_str()) {
                Ok(id) => id,
                Err(e) => {
                    return Err(to_aggregate_id_error(e.to_string()));
                },
            }
        };
        let user_id = match UserId::from_str(v.user_id.as_str()) {
            Ok(id) => id,
            Err(e) => {
                return Err(to_aggregate_id_error(e.to_string()));
            },
        };
        let method_name = match PaymentMethodCategoryName::from_str(v.method_name.as_str()) {
            Ok(c) => c,
            Err(e) => {
                return Err(to_payment_method_error(e.to_string()));
            },
        };
        let method_kind_name = match PaymentMethodKindName::from_str(v.method_kind_name.as_str()) {
            Ok(k) => k,
            Err(e) => {
                return Err(to_payment_method_error(e.to_string()));
            },
        };
        let created_at = match PaymentMethod::make_created_at_with(
            v.payment_method_id.as_str(),
            v.created_at,
            created_now,
        ) {
            Ok(t) => t,
            Err(e) => {
                return Err(to_payment_method_error(e.to_string()));
            },
        };
        let updated_at = PaymentMethod::make_updated_at_with(&v.created_at, updated_now);
        match PaymentMethod::is_valid_method_combination(&method_name, &method_kind_name) {
            Ok(()) => {},
            Err(e) => {
                return Err(to_payment_method_error(e.to_string()));
            },
        }
        Ok(
            PaymentMethod::new(
                payment_method_id,
                user_id,
                method_name,
                method_kind_name,
                v.additional_name.as_str(),
                created_at,
                updated_at,
            ),
        )
    }

    /// The wire record of a payment method.
    pub fn to_dto(v: &PaymentMethod) -> (r: PaymentMethodDTO)
        ensures
            r@ == payment_to_dto_spec(v@),
    {
        let created_at = Some(*v.created_at());
        PaymentMethodDTO::new(
            v.payment_method_id().to_string().as_str(),
            v.user_id().to_string().as_str(),
            v.method_name().to_string().as_str(),
            v.method_kind_name().to_string().as_str(),
            v.additional_name().as_str(),
            &created_at,
            v.updated_at(),
        )
    }

    /// The wire records of payment methods, in order.
    pub fn to_dtos(items: &Vec<PaymentMethod>) -> (r: Vec<PaymentMethodDTO>)
        ensures
            r.len() == items.len(),
            forall|i: int| 0 <= i < r.len() ==> (#[trigger] r[i])@ == payment_to_dto_spec(items[i]@),
    {
        let mut r: Vec<PaymentMethodDTO> = Vec::new();
        let mut k: usize = 0;
        while k < items.len()
            invariant
                k <= items.len(),
                r.len() == k,
                forall|i: int| 0 <= i < k ==> (#[trigger] r[i])@ == payment_to_dto_spec(items[i]@),
            decreases items.len() - k,
        {
            r.push(Self::to_dto(&items[k]));
            k += 1;
        }
        r
    }
}

impl DTO<PaymentMethodDTO, PaymentMethod, ApplicationError> for PaymentMethodDTO {
    /// Validates the record and builds the payment method from it; a new
    /// payment method gets a random UUID, and the clock is read twice.
    fn map_to_domain_model(v: PaymentMethodDTO) -> (r: Result<PaymentMethod, ApplicationError>)
        ensures
            exists|fresh: u128, created_now: (i64, u32), updated_now: (i64, u32)|
                is_version4(fresh) && payment_result_is(
                    r,
                    #[trigger] payment_to_domain_spec(v@, fresh, created_now, updated_now),
                ),
    {
        let fresh = random_uuid();
        let created_now = Timestamp::now();
        let updated_now = Timestamp::now();
        let r = Self::to_domain_with(&v, fresh, created_now, updated_now);
        assert(is_version4(fresh) && payment_result_is(
            r,
            payment_to_domain_spec(v@, fresh, created_now@, updated_now@),
        ));
        r
    }

    fn map_to_dto(v: &PaymentMethod) -> (r: PaymentMethodDTO)
        ensures
            r@ == payment_to_dto_spec(v@),
    {
        Self::to_dto(v)
    }
}

/// Round trip from a payment method whose kind belongs to its category: if
/// the creation time is read back from its display unchanged, the wire
/// record is mapped back to the same payment method, but for the update
/// time, which is the second reading of the clock.
pub proof fn lemma_payment_dto_round_trip(
    a: PaymentMethodView,
    fresh: u128,
    created_now: (i64, u32),
    updated_now: (i64, u32),
)
    requires
        combination_is_valid(a.method_name, a.method_kind_name),
    ensures
        datetime_parse(datetime_text(a.created_at.0, a.created_at.1)) == Ok::<
            (i64, u32),
            Seq<char>,
        >(a.created_at) ==> payment_to_domain_spec(
            payment_to_dto_spec(a),
            fresh,
            created_now,
            updated_now,
        ) == Ok::<PaymentMethodView, ApplicationErrorView>(
            PaymentMethodView { updated_at: Some(updated_now), ..a },
        ),
{
    lemma_payment_prefix();
    lemma_user_prefix();
    lemma_id_round_trip(PAYMENT_PREFIX@, a.payment_method_id);
    lemma_id_round_trip(USER_PREFIX@, a.user_id);
    PaymentMethodCategoryName::lemma_from_text_label(a.method_name);
    PaymentMethodKindName::lemma_from_text_label(a.method_kind_name);
}

/// Round trip from a wire record: a record that maps to a payment method
/// agrees with the wire record of that payment method on both identifiers,
/// category, kind and free text, provided its identifiers are written in
/// canonical form; and on the creation time too, if that time is read back
/// from its display unchanged. The update time is the second reading of the
/// clock.
pub proof fn lemma_payment_dto_round_trip_from_record(
    d: PaymentMethodDtoView,
    fresh: u128,
    created_now: (i64, u32),
    updated_now: (i64, u32),
    payment_method_id: u128,
    user_id: u128,
)
    requires
        d.payment_method_id == id_text(PAYMENT_PREFIX@, payment_method_id),
        d.user_id == id_text(USER_PREFIX@, user_id),
        payment_to_domain_spec(d, fresh, created_now, updated_now) is Ok,
    ensures
        ({
            let out = payment_to_dto_spec(
                payment_to_domain_spec(d, fresh, created_now, updated_now)->Ok_0,
            );
            &&& out.payment_method_id == d.payment_method_id
            &&& out.user_id == d.user_id
            &&& out.method_name == d.method_name
            &&& out.method_kind_name == d.method_kind_name
            &&& out.additional_name == d.additional_name
            &&& (d.created_at matches Some(t) && datetime_parse(datetime_text(t.0, t.1)) == (Ok::<
                (i64, u32),
                Seq<char>,
            >(t))) ==> out.created_at == d.created_at
        }),
{
    lemma_payment_prefix();
    lemma_user_prefix();
    lemma_id_round_trip(PAYMENT_PREFIX@, payment_method_id);
    lemma_id_round_trip(USER_PREFIX@, user_id);
}

} // verus!
