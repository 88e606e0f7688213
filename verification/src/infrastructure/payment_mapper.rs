//! The persistence mapping of payment methods.

use crate::domain::payment::payment_error::{PaymentError, PaymentErrorView};
use crate::domain::payment::payment_method_id::{
    lemma_payment_prefix, PaymentMethodId, PAYMENT_PREFIX,
};
use crate::domain::payment::payment_method_name::{
    PaymentMethodCategoryName, PaymentMethodKindName, PaymentMethodNameErrorView,
};
use crate::domain::payment::{PaymentMethod, PaymentMethodView};
use crate::domain::user::user_id::{lemma_user_prefix, UserId, USER_PREFIX};
use crate::domain::value_object::timestamp::{rfc3339_text, Timestamp};
use crate::domain::{id_text, lemma_id_round_trip, parse_id_spec};
use crate::infrastructure::mapper::{
    as_datetime, as_string, attr_text, attr_time, field_code, lemma_as_string_attr,
    survives_rfc3339, value_name_code, AttrValue, AttrValueView, AttributeMap, Attributes,
    Mapper,
};
use vstd::prelude::*;

verus! {

// The attribute names of a stored payment method, and the names that the
// update expression gives the values it sets.
pub const PAYMENT_METHOD_KEY: &'static str = "payment_method_id";

pub const USER_ID: &'static str = "user_id";

pub const METHOD_NAME: &'static str = "method_name";

pub const METHOD_KIND_NAME: &'static str = "method_kind_name";

pub const ADDITIONAL_NAME: &'static str = "additional_name";

pub const CREATED_AT: &'static str = "created_at";

pub const UPDATED_AT: &'static str = "updated_at";

pub const METHOD_NAME_VALUE: &'static str = ":method_name";

pub const METHOD_KIND_NAME_VALUE: &'static str = ":method_kind_name";

pub const ADDITIONAL_NAME_VALUE: &'static str = ":additional_name";

pub const UPDATED_AT_VALUE: &'static str = ":updated_at";

/// The persistence mapping of payment methods.
pub struct PaymentMapper;

/// The attribute value of an optional point in time: its RFC 3339 text, or
/// the null marker.
pub open spec fn optional_time_attr(t: Option<(i64, u32)>) -> AttrValueView {
    match t {
        Some(t) => AttrValueView::S(rfc3339_text(t.0, t.1)),
        None => AttrValueView::Null(true),
    }
}

/// The attribute map of a payment method: identifiers, labels and free text
/// as texts, times as RFC 3339 texts, a missing update time as the null
/// marker.
pub open spec fn payment_attributes(a: PaymentMethodView) -> Attributes {
    Map::<Seq<char>, AttrValueView>::empty().insert(
        PAYMENT_METHOD_KEY@,
        AttrValueView::S(id_text(PAYMENT_PREFIX@, a.payment_method_id)),
    ).insert(USER_ID@, AttrValueView::S(id_text(USER_PREFIX@, a.user_id))).insert(
        METHOD_NAME@,
        AttrValueView::S(a.method_name.label()),
    ).insert(METHOD_KIND_NAME@, AttrValueView::S(a.method_kind_name.label())).insert(
        ADDITIONAL_NAME@,
        AttrValueView::S(a.additional_name),
    ).insert(CREATED_AT@, AttrValueView::S(rfc3339_text(a.created_at.0, a.created_at.1))).insert(
        UPDATED_AT@,
        optional_time_attr(a.updated_at),
    )
}

/// The key of a payment method in the store.
pub open spec fn payment_key_attributes(payment_method_id: u128, user_id: u128) -> Attributes {
    Map::<Seq<char>, AttrValueView>::empty().insert(
        PAYMENT_METHOD_KEY@,
        AttrValueView::S(id_text(PAYMENT_PREFIX@, payment_method_id)),
    ).insert(USER_ID@, AttrValueView::S(id_text(USER_PREFIX@, user_id)))
}

/// The values that an update of a payment method sets, under the names
/// that the update expression gives them.
pub open spec fn payment_update_values(a: PaymentMethodView) -> Attributes {
    Map::<Seq<char>, AttrValueView>::empty().insert(
        METHOD_NAME_VALUE@,
        AttrValueView::S(a.method_name.label()),
    ).insert(METHOD_KIND_NAME_VALUE@, AttrValueView::S(a.method_kind_name.label())).insert(
        ADDITIONAL_NAME_VALUE@,
        AttrValueView::S(a.additional_name),
    ).insert(UPDATED_AT_VALUE@, optional_time_attr(a.updated_at))
}

/// The payment method that an attribute map holds. A text field that is
/// missing or no text is read as the empty text. In this order: both
/// identifiers must parse, category and kind must be known, and a creation
/// time must be there and readable. The update time is optional.
pub open spec fn payment_from_attributes(m: Attributes) -> Result<
    PaymentMethodView,
    PaymentErrorView,
> {
    match parse_id_spec(PAYMENT_PREFIX@, attr_text(m, PAYMENT_METHOD_KEY@, Seq::empty())) {
        Err(e) => Err(PaymentErrorView::PaymentMethodIdFailed(e.message())),
        Ok(payment_method_id) => match parse_id_spec(
            USER_PREFIX@,
            attr_text(m, USER_ID@, Seq::empty()),
        ) {
            Err(e) => Err(PaymentErrorView::PaymentMethodIdFailed(e.message())),
            Ok(user_id) => match PaymentMethodCategoryName::from_text(
                attr_text(m, METHOD_NAME@, Seq::empty()),
            ) {
                None => Err(
                    PaymentErrorView::PaymentMethodNameFailed(
                        PaymentMethodNameErrorView::InvalidCategoryName(
                            attr_text(m, METHOD_NAME@, Seq::empty()),
                        ).message(),
                    ),
                ),
                Some(method_name) => match PaymentMethodKindName::from_text(
                    attr_text(m, METHOD_KIND_NAME@, Seq::empty()),
                ) {
                    None => Err(
                        PaymentErrorView::PaymentMethodNameFailed(
                            PaymentMethodNameErrorView::InvalidKindName(
                                attr_text(m, METHOD_KIND_NAME@, Seq::empty()),
                            ).message(),
                        ),
                    ),
                    Some(method_kind_name) => match attr_time(m, CREATED_AT@) {
                        None => Err(PaymentErrorView::MissingField(CREATED_AT@)),
                        Some(created_at) => Ok(
                            PaymentMethodView {
                                payment_method_id,
                                user_id,
                                method_name,
                                method_kind_name,
                                additional_name: attr_text(m, ADDITIONAL_NAME@, Seq::empty()),
                                created_at,
                                updated_at: attr_time(m, UPDATED_AT@),
                            },
                        ),
                    },
                },
            },
        },
    }
}

/// Length and first character of each attribute name; no two names agree
/// on both, so the names differ from each other.
pub proof fn lemma_payment_keys()
    ensures
        field_code(PAYMENT_METHOD_KEY@) == (17nat, 'p'),
        field_code(USER_ID@) == (7nat, 'u'),
        field_code(METHOD_NAME@) == (11nat, 'm'),
        field_code(METHOD_KIND_NAME@) == (16nat, 'm'),
        field_code(ADDITIONAL_NAME@) == (15nat, 'a'),
        field_code(CREATED_AT@) == (10nat, 'c'),
        field_code(UPDATED_AT@) == (10nat, 'u'),
{
    reveal_strlit("payment_method_id");
    reveal_strlit("user_id");
    reveal_strlit("method_name");
    reveal_strlit("method_kind_name");
    reveal_strlit("additional_name");
    reveal_strlit("created_at");
    reveal_strlit("updated_at");
}

impl PaymentMapper {
    /// The attribute value of an optional point in time.
    fn optional_time_value(t: &Option<Timestamp>) -> (r: AttrValue)
        ensures
            r@ == optional_time_attr(
                crate::domain::value_object::timestamp::optional_time(*t),
            ),
    {
        match t {
            Some(v) => AttrValue::S(v.to_rfc3339()),
            None => AttrValue::Null(true),
        }
    }

    /// The attribute map of a payment method.
    pub fn to_attribute_map(payment: &PaymentMethod) -> (r: AttributeMap)
        ensures
            r@ == payment_attributes(payment@),
    {
        let mut m = AttributeMap::new();
        m.insert(PAYMENT_METHOD_KEY, AttrValue::S(payment.payment_method_id().to_string()));
        m.insert(USER_ID, AttrValue::S(payment.user_id().to_string()));
        m.insert(METHOD_NAME, AttrValue::S(payment.method_name().to_string()));
        m.insert(METHOD_KIND_NAME, AttrValue::S(payment.method_kind_name().to_string()));
        m.insert(ADDITIONAL_NAME, AttrValue::S(payment.additional_name().clone()));
        m.insert(CREATED_AT, AttrValue::S(payment.created_at().to_rfc3339()));
        m.insert(UPDATED_AT, Self::optional_time_value(payment.updated_at()));
        m
    }

    /// The key of a payment method in the store.
    pub fn key_attributes(payment_id: &PaymentMethodId, user_id: &UserId) -> (r: AttributeMap)
        ensures
            r@ == payment_key_attributes(payment_id@, user_id@),
    {
        let mut m = AttributeMap::new();
        m.insert(PAYMENT_METHOD_KEY, AttrValue::S(payment_id.to_string()));
        m.insert(USER_ID, AttrValue::S(user_id.to_string()));
        m
    }

    /// The values that an update of a payment method sets.
    pub fn update_values(payment: &PaymentMethod) -> (r: AttributeMap)
        ensures
            r@ == payment_update_values(payment@),
    {
        let mut m = AttributeMap::new();
        m.insert(METHOD_NAME_VALUE, AttrValue::S(payment.method_name().to_string()));
        m.insert(METHOD_KIND_NAME_VALUE, AttrValue::S(payment.method_kind_name().to_string()));
        m.insert(ADDITIONAL_NAME_VALUE, AttrValue::S(payment.additional_name().clone()));
        m.insert(UPDATED_AT_VALUE, Self::optional_time_value(payment.updated_at()));
        m
    }

    /// The payment method that an attribute map holds.
    pub fn from_attribute_map(v: &AttributeMap) -> (r: Result<PaymentMethod, PaymentError>)
        ensures
            match r {
                Ok(a) => payment_from_attributes(v@) == Ok::<PaymentMethodView, PaymentErrorView>(
                    a@,
                ),
                Err(e) => payment_from_attributes(v@) == Err::<
                    PaymentMethodView,
                    PaymentErrorView,
                >(e@),
            },
    {
        proof {
            lemma_as_string_attr(v@, PAYMENT_METHOD_KEY@, Seq::empty());
            lemma_as_string_attr(v@, USER_ID@, Seq::empty());
            lemma_as_string_attr(v@, METHOD_NAME@, Seq::empty());
            lemma_as_string_attr(v@, METHOD_KIND_NAME@, Seq::empty());
            lemma_as_string_attr(v@, ADDITIONAL_NAME@, Seq::empty());
            lemma_as_string_attr(v@, CREATED_AT@, Seq::empty());
            lemma_as_string_attr(v@, UPDATED_AT@, Seq::empty());
            reveal_strlit("");
            assert(""@ =~= Seq::<char>::empty());
        }
        let payment_method_id = match PaymentMethodId::from_str(
            as_string(v.get(PAYMENT_METHOD_KEY), "").as_str(),
        ) {
            Ok(id) => id,
            Err(e) => {
                return Err(PaymentError::from_id_error(e));
            },
        };
        let user_id = match UserId::from_str(as_string(v.get(USER_ID), "").as_str()) {
            Ok(id) => id,
            Err(e) => {
                return Err(PaymentError::from_id_error(e));
            },
        };
        let method_name = match PaymentMethodCategoryName::from_str(
            as_string(v.get(METHOD_NAME), "").as_str(),
        ) {
            Ok(c) => c,
            Err(e) => {
                return Err(PaymentError::from_name_error(&e));
            },
        };
        let method_kind_name = match PaymentMethodKindName::from_str(
            as_string(v.get(METHOD_KIND_NAME), "").as_str(),
        ) {
            Ok(k) => k,
            Err(e) => {
                return Err(PaymentError::from_name_error(&e));
            },
        };
        let additional_name = as_string(v.get(ADDITIONAL_NAME), "");
        let created_at = match as_datetime(v.get(CREATED_AT)) {
            Some(t) => t,
            None => {
                return Err(PaymentError::MissingField(CREATED_AT.to_owned()));
            },
        };
        let updated_at = as_datetime(v.get(UPDATED_AT));
        Ok(
            PaymentMethod::new(
                payment_method_id,
                user_id,
                method_name,
                method_kind_name,
                additional_name.as_str(),
                created_at,
                updated_at,
            ),
        )
    }

    /// The payment methods that the attribute maps hold, in order; the error of the
    /// first map that holds none.
    pub fn from_attribute_maps(items: &Vec<AttributeMap>) -> (r: Result<Vec<PaymentMethod>, PaymentError>)
        ensures
            match r {
                Ok(v) => v.len() == items.len() && forall|i: int|
                    0 <= i < v.len() ==> payment_from_attributes(#[trigger] items[i]@) == Ok::<
                        PaymentMethodView,
                        PaymentErrorView,
                    >(v[i]@),
                Err(e) => exists|i: int|
                    0 <= i < items.len() && payment_from_attributes(#[trigger] items[i]@) == Err::<
                        PaymentMethodView,
                        PaymentErrorView,
                    >(e@) && forall|j: int| 0 <= j < i ==> payment_from_attributes(#[trigger] items[j]@) is Ok,
            },
    {
        let mut v: Vec<PaymentMethod> = Vec::new();
        let mut k: usize = 0;
        while k < items.len()
            invariant
                k <= items.len(),
                v.len() == k,
                forall|i: int|
                    0 <= i < k ==> payment_from_attributes(#[trigger] items[i]@) == Ok::<PaymentMethodView, PaymentErrorView>(
                        v[i]@,
                    ),
            decreases items.len() - k,
        {
            match Self::from_attribute_map(&items[k]) {
                Ok(a) => {
                    v.push(a);
                },
                Err(e) => {
                    assert(payment_from_attributes(items[k as int]@) == Err::<PaymentMethodView, PaymentErrorView>(e@));
                    return Err(e);
                },
            }
            k += 1;
        }
        Ok(v)
    }
}

impl Mapper<PaymentMethod, PaymentError> for PaymentMapper {
    fn map_to_domain_model(v: AttributeMap) -> (r: Result<PaymentMethod, PaymentError>)
        ensures
            match r {
                Ok(a) => payment_from_attributes(v@) == Ok::<PaymentMethodView, PaymentErrorView>(
                    a@,
                ),
                Err(e) => payment_from_attributes(v@) == Err::<
                    PaymentMethodView,
                    PaymentErrorView,
                >(e@),
            },
    {
        Self::from_attribute_map(&v)
    }
}

/// Persistence round trip from a payment method: if its times are read
/// back from their texts, its attribute map holds the same payment method.
pub proof fn lemma_payment_attributes_round_trip(a: PaymentMethodView)
    ensures
        survives_rfc3339(a.created_at) && (a.updated_at matches Some(u) ==> survives_rfc3339(u))
            ==> payment_from_attributes(payment_attributes(a)) == Ok::<
            PaymentMethodView,
            PaymentErrorView,
        >(a),
{
    lemma_payment_keys();
    lemma_payment_prefix();
    lemma_user_prefix();
    lemma_id_round_trip(PAYMENT_PREFIX@, a.payment_method_id);
    lemma_id_round_trip(USER_PREFIX@, a.user_id);
    PaymentMethodCategoryName::lemma_from_text_label(a.method_name);
    PaymentMethodKindName::lemma_from_text_label(a.method_kind_name);
}

/// A map that holds a payment method no longer does once its creation time
/// is removed: reading it reports the missing field.
pub proof fn lemma_payment_missing_created_at(m: Attributes)
    requires
        payment_from_attributes(m) is Ok,
    ensures
        payment_from_attributes(m.remove(CREATED_AT@)) == Err::<
            PaymentMethodView,
            PaymentErrorView,
        >(PaymentErrorView::MissingField(CREATED_AT@)),
{
    lemma_payment_keys();
}

/// Persistence round trip from an attribute map: a map that holds a
/// payment method, with identifiers in canonical form, has under the name
/// of each text field the value that the attribute map of that payment
/// method has; and under
/// the name of the creation time too, if the text there is the RFC 3339
/// text of the time that it writes.
pub proof fn lemma_payment_attributes_round_trip_from_map(
    m: Attributes,
    payment_method_id: u128,
    user_id: u128,
)
    requires
        m.contains_key(PAYMENT_METHOD_KEY@) && m[PAYMENT_METHOD_KEY@] == AttrValueView::S(
            id_text(PAYMENT_PREFIX@, payment_method_id),
        ),
        m.contains_key(USER_ID@) && m[USER_ID@] == AttrValueView::S(id_text(USER_PREFIX@, user_id)),
        m.contains_key(ADDITIONAL_NAME@) && m[ADDITIONAL_NAME@] is S,
        payment_from_attributes(m) is Ok,
    ensures
        ({
            let a = payment_from_attributes(m)->Ok_0;
            let out = payment_attributes(a);
            &&& out[PAYMENT_METHOD_KEY@] == m[PAYMENT_METHOD_KEY@]
            &&& out[USER_ID@] == m[USER_ID@]
            &&& out[METHOD_NAME@] == m[METHOD_NAME@]
            &&& out[METHOD_KIND_NAME@] == m[METHOD_KIND_NAME@]
            &&& out[ADDITIONAL_NAME@] == m[ADDITIONAL_NAME@]
            &&& m[CREATED_AT@] == AttrValueView::S(rfc3339_text(a.created_at.0, a.created_at.1))
                ==> out[CREATED_AT@] == m[CREATED_AT@]
        }),
{
    lemma_payment_keys();
    lemma_payment_prefix();
    lemma_user_prefix();
    lemma_id_round_trip(PAYMENT_PREFIX@, payment_method_id);
    lemma_id_round_trip(USER_PREFIX@, user_id);
    let a = payment_from_attributes(m)->Ok_0;
    // A known category is not named by the empty text, so the field is a text.
    PaymentMethodCategoryName::lemma_label_not_empty(a.method_name);
    PaymentMethodKindName::lemma_label_not_empty(a.method_kind_name);
}

/// Length and second character of each name of an update value; no two
/// names agree on both, so the names differ from each other.
pub proof fn lemma_payment_value_names()
    ensures
        value_name_code(METHOD_NAME_VALUE@) == (12nat, 'm'),
        value_name_code(METHOD_KIND_NAME_VALUE@) == (17nat, 'm'),
        value_name_code(ADDITIONAL_NAME_VALUE@) == (16nat, 'a'),
        value_name_code(UPDATED_AT_VALUE@) == (11nat, 'u'),
{
    reveal_strlit(":method_name");
    reveal_strlit(":method_kind_name");
    reveal_strlit(":additional_name");
    reveal_strlit(":updated_at");
}

/// An update sets category, kind, free text and update time to the values
/// that the attribute map of the payment method holds under their names.
pub proof fn lemma_payment_update_values(a: PaymentMethodView)
    ensures
        ({
            let values = payment_update_values(a);
            let item = payment_attributes(a);
            &&& values.contains_key(METHOD_NAME_VALUE@) && values[METHOD_NAME_VALUE@]
                == item[METHOD_NAME@]
            &&& values.contains_key(METHOD_KIND_NAME_VALUE@) && values[METHOD_KIND_NAME_VALUE@]
                == item[METHOD_KIND_NAME@]
            &&& values.contains_key(ADDITIONAL_NAME_VALUE@) && values[ADDITIONAL_NAME_VALUE@]
                == item[ADDITIONAL_NAME@]
            &&& values.contains_key(UPDATED_AT_VALUE@) && values[UPDATED_AT_VALUE@]
                == item[UPDATED_AT@]
        }),
{
    lemma_payment_keys();
    lemma_payment_value_names();
}

} // verus!
