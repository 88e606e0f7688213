//! The persistence mapping of subscriptions.

use crate::domain::category::category_id::{lemma_category_prefix, CategoryId, CATEGORY_PREFIX};
use crate::domain::payment::payment_method_id::{
    lemma_payment_prefix, PaymentMethodId, PAYMENT_PREFIX,
};
use crate::domain::payment_cycle::PaymentCycle;
use crate::domain::subscribe::subscribe_error::{SubscribeError, SubscribeErrorView};
use crate::domain::subscribe::subscribe_id::{
    lemma_subscribe_id_round_trip, parse_subscribe_id_spec, subscribe_id_text, SubscribeId,
};
use crate::domain::subscribe::subscribe_name::{subscribe_name_spec, SubscribeName};
use crate::domain::subscribe::subscribe_status::SubscribeStatus;
use crate::domain::subscribe::{subscribe_spec, Subscribe, SubscribeView};
use crate::domain::user::user_id::{lemma_user_prefix, UserId, USER_PREFIX};
use crate::domain::value_object::amount::{amount_from_text, Amount};
use crate::domain::value_object::decimal::{decimal_parse, decimal_text};
use crate::domain::value_object::timestamp::rfc3339_text;
use crate::domain::{id_text, lemma_id_round_trip, parse_id_spec};
use crate::infrastructure::mapper::{
    as_datetime, as_string, attr_text, attr_time, field_code, lemma_as_string_attr,
    survives_rfc3339, value_name_code, AttrValue, AttrValueView, AttributeMap, Attributes, Mapper,
};
use crate::text::optional_text;
use vstd::prelude::*;

verus! {

// The attribute names of a stored subscription.
pub const SUBSCRIBE_KEY: &'static str = "subscribe_id";

pub const USER_ID: &'static str = "user_id";

pub const NAME: &'static str = "name";

pub const PAYMENT_METHOD_ID: &'static str = "payment_method_id";

pub const AMOUNT: &'static str = "amount";

pub const PAYMENT_CYCLE: &'static str = "payment_cycle";

pub const CATEGORY_ID: &'static str = "category_id";

pub const ICON_LOCAL_PATH: &'static str = "icon_local_path";

pub const NOTIFICATION: &'static str = "notification";

pub const FIRST_PAYMENT_DATE: &'static str = "first_payment_date";

pub const NEXT_PAYMENT_DATE: &'static str = "next_payment_date";

pub const AUTO_RENEWAL: &'static str = "auto_renewal";

pub const STATUS: &'static str = "status";

pub const MEMO: &'static str = "memo";

// The names that the update expression gives the values it sets.
pub const NAME_VALUE: &'static str = ":name";

pub const PAYMENT_METHOD_ID_VALUE: &'static str = ":payment_method_id";

pub const AMOUNT_VALUE: &'static str = ":amount";

pub const PAYMENT_CYCLE_VALUE: &'static str = ":payment_cycle";

pub const CATEGORY_ID_VALUE: &'static str = ":category_id";

pub const ICON_LOCAL_PATH_VALUE: &'static str = ":icon_local_path";

pub const NOTIFICATION_VALUE: &'static str = ":notification";

pub const FIRST_PAYMENT_DATE_VALUE: &'static str = ":first_payment_date";

pub const NEXT_PAYMENT_DATE_VALUE: &'static str = ":next_payment_date";

pub const AUTO_RENEWAL_VALUE: &'static str = ":auto_renewal";

pub const STATUS_VALUE: &'static str = ":status";

pub const MEMO_VALUE: &'static str = ":memo";

/// The persistence mapping of subscriptions.
pub struct SubscribeMapper;

/// The attribute value of an optional text: the text, or the null marker.
pub open spec fn optional_text_attr(s: Option<Seq<char>>) -> AttrValueView {
    match s {
        Some(s) => AttrValueView::S(s),
        None => AttrValueView::Null(true),
    }
}

/// The attribute map of a subscription: identifiers, name, amount, labels
/// and path as texts, the two flags as flags, the two dates as RFC 3339
/// texts, a missing note as the null marker.
pub open spec fn subscribe_attributes(a: SubscribeView) -> Attributes {
    Map::<Seq<char>, AttrValueView>::empty().insert(
        SUBSCRIBE_KEY@,
        AttrValueView::S(subscribe_id_text(a.subscribe_id)),
    ).insert(USER_ID@, AttrValueView::S(id_text(USER_PREFIX@, a.user_id))).insert(
        NAME@,
        AttrValueView::S(a.name),
    ).insert(
        PAYMENT_METHOD_ID@,
        AttrValueView::S(id_text(PAYMENT_PREFIX@, a.payment_method_id)),
    ).insert(AMOUNT@, AttrValueView::S(decimal_text(a.amount.0, a.amount.1))).insert(
        PAYMENT_CYCLE@,
        AttrValueView::S(a.payment_cycle.label()),
    ).insert(CATEGORY_ID@, AttrValueView::S(id_text(CATEGORY_PREFIX@, a.category_id))).insert(
        ICON_LOCAL_PATH@,
        AttrValueView::S(a.icon_local_path),
    ).insert(NOTIFICATION@, AttrValueView::Bool(a.notification)).insert(
        FIRST_PAYMENT_DATE@,
        AttrValueView::S(rfc3339_text(a.first_payment_date.0, a.first_payment_date.1)),
    ).insert(
        NEXT_PAYMENT_DATE@,
        AttrValueView::S(rfc3339_text(a.next_payment_date.0, a.next_payment_date.1)),
    ).insert(AUTO_RENEWAL@, AttrValueView::Bool(a.auto_renewal)).insert(
        STATUS@,
        AttrValueView::S(a.status.label()),
    ).insert(MEMO@, optional_text_attr(a.memo))
}

/// The key of a subscription in the store: its identifier and the
/// identifier of its user, each as the attribute map of the subscription
/// holds it.
pub open spec fn subscribe_key_attributes(subscribe_id: u128, user_id: u128) -> Attributes {
    Map::<Seq<char>, AttrValueView>::empty().insert(
        SUBSCRIBE_KEY@,
        AttrValueView::S(subscribe_id_text(subscribe_id)),
    ).insert(USER_ID@, AttrValueView::S(id_text(USER_PREFIX@, user_id)))
}

/// The values that an update of a subscription sets, under the names that
/// the update expression gives them: every field but the key, each as the
/// attribute map of the subscription holds it.
pub open spec fn subscribe_update_values(a: SubscribeView) -> Attributes {
    Map::<Seq<char>, AttrValueView>::empty().insert(NAME_VALUE@, AttrValueView::S(a.name)).insert(
        PAYMENT_METHOD_ID_VALUE@,
        AttrValueView::S(id_text(PAYMENT_PREFIX@, a.payment_method_id)),
    ).insert(AMOUNT_VALUE@, AttrValueView::S(decimal_text(a.amount.0, a.amount.1))).insert(
        PAYMENT_CYCLE_VALUE@,
        AttrValueView::S(a.payment_cycle.label()),
    ).insert(
        CATEGORY_ID_VALUE@,
        AttrValueView::S(id_text(CATEGORY_PREFIX@, a.category_id)),
    ).insert(ICON_LOCAL_PATH_VALUE@, AttrValueView::S(a.icon_local_path)).insert(
        NOTIFICATION_VALUE@,
        AttrValueView::Bool(a.notification),
    ).insert(
        FIRST_PAYMENT_DATE_VALUE@,
        AttrValueView::S(rfc3339_text(a.first_payment_date.0, a.first_payment_date.1)),
    ).insert(
        NEXT_PAYMENT_DATE_VALUE@,
        AttrValueView::S(rfc3339_text(a.next_payment_date.0, a.next_payment_date.1)),
    ).insert(AUTO_RENEWAL_VALUE@, AttrValueView::Bool(a.auto_renewal)).insert(
        STATUS_VALUE@,
        AttrValueView::S(a.status.label()),
    ).insert(MEMO_VALUE@, optional_text_attr(a.memo))
}

/// The flag under `key`: a missing value and a value that is no flag are
/// two different errors.
pub open spec fn attr_flag(m: Attributes, key: Seq<char>) -> Result<bool, SubscribeErrorView> {
    if !m.contains_key(key) {
        Err(SubscribeErrorView::MissingField(key))
    } else {
        match m[key] {
            AttrValueView::Bool(b) => Ok(b),
            _ => Err(SubscribeErrorView::ParseFailed(key)),
        }
    }
}

/// The optional text under `key`: a text where there is one, else none.
pub open spec fn attr_optional_text(m: Attributes, key: Seq<char>) -> Option<Seq<char>> {
    if m.contains_key(key) {
        match m[key] {
            AttrValueView::S(s) => Some(s),
            _ => None,
        }
    } else {
        None
    }
}

/// The subscription that an attribute map holds. A text field that is
/// missing or no text is read as the empty text. In this order: the
/// identifier, the user identifier, the name, the payment method
/// identifier and the amount must be valid; the cycle is read; the category
/// identifier must parse; the notification flag, the two dates and the
/// renewal flag must be there; the status must be known; the amount must
/// have a monthly equivalent. The first failure is reported.
pub open spec fn subscribe_from_attributes(m: Attributes) -> Result<
    SubscribeView,
    SubscribeErrorView,
> {
    let e = Seq::<char>::empty();
    match parse_subscribe_id_spec(attr_text(m, SUBSCRIBE_KEY@, e)) {
        Err(x) => Err(SubscribeErrorView::SubscribeIdFailed(x.message())),
        Ok(subscribe_id) => match parse_id_spec(USER_PREFIX@, attr_text(m, USER_ID@, e)) {
            Err(x) => Err(SubscribeErrorView::SubscribeIdFailed(x.message())),
            Ok(user_id) => match subscribe_name_spec(attr_text(m, NAME@, e)) {
                Err(x) => Err(SubscribeErrorView::InvalidSubscribeName(x.message())),
                Ok(name) => match parse_id_spec(
                    PAYMENT_PREFIX@,
                    attr_text(m, PAYMENT_METHOD_ID@, e),
                ) {
                    Err(x) => Err(SubscribeErrorView::SubscribeIdFailed(x.message())),
                    Ok(payment_method_id) => match amount_from_text(attr_text(m, AMOUNT@, e)) {
                        Err(x) => Err(SubscribeErrorView::InvalidAmountError(x)),
                        Ok(amount) => match parse_id_spec(
                            CATEGORY_PREFIX@,
                            attr_text(m, CATEGORY_ID@, e),
                        ) {
                            Err(x) => Err(SubscribeErrorView::SubscribeIdFailed(x.message())),
                            Ok(category_id) => subscribe_from_attributes_tail(
                                m,
                                SubscribeView {
                                    subscribe_id,
                                    user_id,
                                    name,
                                    payment_method_id,
                                    amount,
                                    payment_cycle: PaymentCycle::from_text(
                                        attr_text(m, PAYMENT_CYCLE@, e),
                                    ),
                                    category_id,
                                    icon_local_path: attr_text(m, ICON_LOCAL_PATH@, e),
                                    notification: false,
                                    first_payment_date: (0i64, 0u32),
                                    next_payment_date: (0i64, 0u32),
                                    auto_renewal: false,
                                    status: SubscribeStatus::ACTIVE,
                                    memo: attr_optional_text(m, MEMO@),
                                },
                            ),
                        },
                    },
                },
            },
        },
    }
}

/// The second half of [`subscribe_from_attributes`]: flags, dates and
/// status are read into `head`, which holds the fields read so far.
pub open spec fn subscribe_from_attributes_tail(m: Attributes, head: SubscribeView) -> Result<
    SubscribeView,
    SubscribeErrorView,
> {
    match attr_flag(m, NOTIFICATION@) {
        Err(x) => Err(x),
        Ok(notification) => match attr_time(m, FIRST_PAYMENT_DATE@) {
            None => Err(SubscribeErrorView::MissingField(FIRST_PAYMENT_DATE@)),
            Some(first_payment_date) => match attr_time(m, NEXT_PAYMENT_DATE@) {
                None => Err(SubscribeErrorView::MissingField(NEXT_PAYMENT_DATE@)),
                Some(next_payment_date) => match attr_flag(m, AUTO_RENEWAL@) {
                    Err(x) => Err(x),
                    Ok(auto_renewal) => match SubscribeStatus::from_text(
                        attr_text(m, STATUS@, Seq::empty()),
                    ) {
                        None => Err(
                            SubscribeErrorView::InvalidSubscribeStatus(
                                attr_text(m, STATUS@, Seq::empty()),
                            ),
                        ),
                        Some(status) => match subscribe_spec(
                            SubscribeView {
                                notification,
                                first_payment_date,
                                next_payment_date,
                                auto_renewal,
                                status,
                                ..head
                            },
                        ) {
                            Ok(a) => Ok(a),
                            Err(x) => Err(SubscribeErrorView::InvalidAmountError(x)),
                        },
                    },
                },
            },
        },
    }
}

/// Length and first character of each attribute name; no two names agree
/// on both, so the names differ from each other.
pub proof fn lemma_subscribe_keys()
    ensures
        field_code(SUBSCRIBE_KEY@) == (12nat, 's'),
        field_code(USER_ID@) == (7nat, 'u'),
        field_code(NAME@) == (4nat, 'n'),
        field_code(PAYMENT_METHOD_ID@) == (17nat, 'p'),
        field_code(AMOUNT@) == (6nat, 'a'),
        field_code(PAYMENT_CYCLE@) == (13nat, 'p'),
        field_code(CATEGORY_ID@) == (11nat, 'c'),
        field_code(ICON_LOCAL_PATH@) == (15nat, 'i'),
        field_code(NOTIFICATION@) == (12nat, 'n'),
        field_code(FIRST_PAYMENT_DATE@) == (18nat, 'f'),
        field_code(NEXT_PAYMENT_DATE@) == (17nat, 'n'),
        field_code(AUTO_RENEWAL@) == (12nat, 'a'),
        field_code(STATUS@) == (6nat, 's'),
        field_code(MEMO@) == (4nat, 'm'),
{
    reveal_strlit("subscribe_id");
    reveal_strlit("user_id");
    reveal_strlit("name");
    reveal_strlit("payment_method_id");
    reveal_strlit("amount");
    reveal_strlit("payment_cycle");
    reveal_strlit("category_id");
    reveal_strlit("icon_local_path");
    reveal_strlit("notification");
    reveal_strlit("first_payment_date");
    reveal_strlit("next_payment_date");
    reveal_strlit("auto_renewal");
    reveal_strlit("status");
    reveal_strlit("memo");
}

impl SubscribeMapper {
    /// The attribute value of an optional text.
    fn optional_text_value(s: &Option<String>) -> (r: AttrValue)
        ensures
            r@ == optional_text_attr(optional_text(*s)),
    {
        match s {
            Some(v) => AttrValue::S(v.clone()),
            None => AttrValue::Null(true),
        }
    }

    /// The flag under `key`.
    fn flag(v: &AttributeMap, key: &str) -> (r: Result<bool, SubscribeError>)
        ensures
            match r {
                Ok(b) => attr_flag(v@, key@) == Ok::<bool, SubscribeErrorView>(b),
                Err(e) => attr_flag(v@, key@) == Err::<bool, SubscribeErrorView>(e@),
            },
    {
        match v.get(key) {
            None => Err(SubscribeError::MissingField(key.to_owned())),
            Some(AttrValue::Bool(b)) => Ok(*b),
            Some(_) => Err(SubscribeError::ParseFailed(key.to_owned())),
        }
    }

    /// The optional text under `key`.
    fn optional_text_at(v: &AttributeMap, key: &str) -> (r: Option<String>)
        ensures
            optional_text(r) == attr_optional_text(v@, key@),
    {
        match v.get(key) {
            Some(AttrValue::S(s)) => Some(s.clone()),
            _ => None,
        }
    }

    /// The attribute map of a subscription.
    pub fn to_attribute_map(subscribe: &Subscribe) -> (r: AttributeMap)
        ensures
            r@ == subscribe_attributes(subscribe@),
    {
        let mut m = AttributeMap::new();
        m.insert(SUBSCRIBE_KEY, AttrValue::S(subscribe.subscribe_id().to_string()));
        m.insert(USER_ID, AttrValue::S(subscribe.user_id().to_string()));
        m.insert(NAME, AttrValue::S(subscribe.name().to_string()));
        m.insert(PAYMENT_METHOD_ID, AttrValue::S(subscribe.payment_method_id().to_string()));
        m.insert(AMOUNT, AttrValue::S(subscribe.amount().to_string()));
        m.insert(PAYMENT_CYCLE, AttrValue::S(subscribe.payment_cycle().to_string()));
        m.insert(CATEGORY_ID, AttrValue::S(subscribe.category_id().to_string()));
        m.insert(ICON_LOCAL_PATH, AttrValue::S(subscribe.icon_local_path().clone()));
        m.insert(NOTIFICATION, AttrValue::Bool(subscribe.notification()));
        m.insert(FIRST_PAYMENT_DATE, AttrValue::S(subscribe.first_payment_date().to_rfc3339()));
        m.insert(NEXT_PAYMENT_DATE, AttrValue::S(subscribe.next_payment_date().to_rfc3339()));
        m.insert(AUTO_RENEWAL, AttrValue::Bool(subscribe.auto_renewal()));
        m.insert(STATUS, AttrValue::S(subscribe.status().to_string()));
        m.insert(MEMO, Self::optional_text_value(subscribe.memo()));
        m
    }

    /// The key of a subscription in the store.
    pub fn key_attributes(subscribe_id: &SubscribeId, user_id: &UserId) -> (r: AttributeMap)
        ensures
            r@ == subscribe_key_attributes(subscribe_id@, user_id@),
    {
        let mut m = AttributeMap::new();
        m.insert(SUBSCRIBE_KEY, AttrValue::S(subscribe_id.to_string()));
        m.insert(USER_ID, AttrValue::S(user_id.to_string()));
        m
    }

    /// The values that an update of a subscription sets.
    pub fn update_values(subscribe: &Subscribe) -> (r: AttributeMap)
        ensures
            r@ == subscribe_update_values(subscribe@),
    {
        let mut m = AttributeMap::new();
        m.insert(NAME_VALUE, AttrValue::S(subscribe.name().to_string()));
        m.insert(PAYMENT_METHOD_ID_VALUE, AttrValue::S(subscribe.payment_method_id().to_string()));
        m.insert(AMOUNT_VALUE, AttrValue::S(subscribe.amount().to_string()));
        m.insert(PAYMENT_CYCLE_VALUE, AttrValue::S(subscribe.payment_cycle().to_string()));
        m.insert(CATEGORY_ID_VALUE, AttrValue::S(subscribe.category_id().to_string()));
        m.insert(ICON_LOCAL_PATH_VALUE, AttrValue::S(subscribe.icon_local_path().clone()));
        m.insert(NOTIFICATION_VALUE, AttrValue::Bool(subscribe.notification()));
        m.insert(
            FIRST_PAYMENT_DATE_VALUE,
            AttrValue::S(subscribe.first_payment_date().to_rfc3339()),
        );
        m.insert(NEXT_PAYMENT_DATE_VALUE, AttrValue::S(subscribe.next_payment_date().to_rfc3339()));
        m.insert(AUTO_RENEWAL_VALUE, AttrValue::Bool(subscribe.auto_renewal()));
        m.insert(STATUS_VALUE, AttrValue::S(subscribe.status().to_string()));
        m.insert(MEMO_VALUE, Self::optional_text_value(subscribe.memo()));
        m
    }

    /// The subscription that an attribute map holds.
    pub fn from_attribute_map(v: &AttributeMap) -> (r: Result<Subscribe, SubscribeError>)
        ensures
            match r {
                Ok(a) => subscribe_from_attributes(v@) == Ok::<SubscribeView, SubscribeErrorView>(
                    a@,
                ),
                Err(e) => subscribe_from_attributes(v@) == Err::<
                    SubscribeView,
                    SubscribeErrorView,
                >(e@),
            },
    {
        proof {
            lemma_as_string_attr(v@, SUBSCRIBE_KEY@, Seq::empty());
            lemma_as_string_attr(v@, USER_ID@, Seq::empty());
            lemma_as_string_attr(v@, NAME@, Seq::empty());
            lemma_as_string_attr(v@, PAYMENT_METHOD_ID@, Seq::empty());
            lemma_as_string_attr(v@, AMOUNT@, Seq::empty());
            lemma_as_string_attr(v@, PAYMENT_CYCLE@, Seq::empty());
            lemma_as_string_attr(v@, CATEGORY_ID@, Seq::empty());
            lemma_as_string_attr(v@, ICON_LOCAL_PATH@, Seq::empty());
            lemma_as_string_attr(v@, NOTIFICATION@, Seq::empty());
            lemma_as_string_attr(v@, FIRST_PAYMENT_DATE@, Seq::empty());
            lemma_as_string_attr(v@, NEXT_PAYMENT_DATE@, Seq::empty());
            lemma_as_string_attr(v@, AUTO_RENEWAL@, Seq::empty());
            lemma_as_string_attr(v@, STATUS@, Seq::empty());
            lemma_as_string_attr(v@, MEMO@, Seq::empty());
            reveal_strlit("");
            assert(""@ =~= Seq::<char>::empty());
        }
        let subscribe_id = match SubscribeId::from_str(as_string(v.get(SUBSCRIBE_KEY), "").as_str()) {
            Ok(id) => id,
            Err(e) => {
                return Err(SubscribeError::from_id_error(e));
            },
        };
        let user_id = match UserId::from_str(as_string(v.get(USER_ID), "").as_str()) {
            Ok(id) => id,
            Err(e) => {
                return Err(SubscribeError::from_id_error(e));
            },
        };
        let name = match SubscribeName::from_str(as_string(v.get(NAME), "").as_str()) {
            Ok(name) => name,
            Err(e) => {
                return Err(SubscribeError::from_name_error(e));
            },
        };
        let payment_method_id = match PaymentMethodId::from_str(
            as_string(v.get(PAYMENT_METHOD_ID), "").as_str(),
        ) {
            Ok(id) => id,
            Err(e) => {
                return Err(SubscribeError::from_id_error(e));
            },
        };
        let amount = match Amount::from_str(as_string(v.get(AMOUNT), "").as_str()) {
            Ok(amount) => amount,
            Err(e) => {
                return Err(SubscribeError::from_amount_error(e));
            },
        };
        let payment_cycle = match PaymentCycle::from_str(
            as_string(v.get(PAYMENT_CYCLE), "").as_str(),
        ) {
            Ok(cycle) => cycle,
            Err(e) => {
                return Err(SubscribeError::from_cycle_error(&e));
            },
        };
        let category_id = match CategoryId::from_str(as_string(v.get(CATEGORY_ID), "").as_str()) {
            Ok(id) => id,
            Err(e) => {
                return Err(SubscribeError::from_id_error(e));
            },
        };
        let icon_local_path = as_string(v.get(ICON_LOCAL_PATH), "");
        let notification = match Self::flag(v, NOTIFICATION) {
            Ok(b) => b,
            Err(e) => {
                return Err(e);
            },
        };
        let first_payment_date = match as_datetime(v.get(FIRST_PAYMENT_DATE)) {
            Some(t) => t,
            None => {
                return Err(SubscribeError::MissingField(FIRST_PAYMENT_DATE.to_owned()));
            },
        };
        let next_payment_date = match as_datetime(v.get(NEXT_PAYMENT_DATE)) {
            Some(t) => t,
            None => {
                return Err(SubscribeError::MissingField(NEXT_PAYMENT_DATE.to_owned()));
            },
        };
        let auto_renewal = match Self::flag(v, AUTO_RENEWAL) {
            Ok(b) => b,
            Err(e) => {
                return Err(e);
            },
        };
        let status = match SubscribeStatus::from_str(as_string(v.get(STATUS), "").as_str()) {
            Ok(status) => status,
            Err(e) => {
                return Err(e);
            },
        };
        let memo = Self::optional_text_at(v, MEMO);
        match Subscribe::try_from(
            subscribe_id,
            user_id,
            name,
            payment_method_id,
            amount,
            payment_cycle,
            category_id,
            icon_local_path,
            notification,
            first_payment_date,
            next_payment_date,
            auto_renewal,
            status,
            memo,
        ) {
            Ok(a) => Ok(a),
            Err(e) => Err(SubscribeError::from_amount_error(e)),
        }
    }

    /// The subscriptions that the attribute maps hold, in order; the error of the
    /// first map that holds none.
    pub fn from_attribute_maps(items: &Vec<AttributeMap>) -> (r: Result<Vec<Subscribe>, SubscribeError>)
        ensures
            match r {
                Ok(v) => v.len() == items.len() && forall|i: int|
                    0 <= i < v.len() ==> subscribe_from_attributes(#[trigger] items[i]@) == Ok::<
                        SubscribeView,
                        SubscribeErrorView,
                    >(v[i]@),
                Err(e) => exists|i: int|
                    0 <= i < items.len() && subscribe_from_attributes(#[trigger] items[i]@) == Err::<
                        SubscribeView,
                        SubscribeErrorView,
                    >(e@) && forall|j: int| 0 <= j < i ==> subscribe_from_attributes(#[trigger] items[j]@) is Ok,
            },
    {
        let mut v: Vec<Subscribe> = Vec::new();
        let mut k: usize = 0;
        while k < items.len()
            invariant
                k <= items.len(),
                v.len() == k,
                forall|i: int|
                    0 <= i < k ==> subscribe_from_attributes(#[trigger] items[i]@) == Ok::<SubscribeView, SubscribeErrorView>(
                        v[i]@,
                    ),
            decreases items.len() - k,
        {
            match Self::from_attribute_map(&items[k]) {
                Ok(a) => {
                    v.push(a);
                },
                Err(e) => {
                    assert(subscribe_from_attributes(items[k as int]@) == Err::<SubscribeView, SubscribeErrorView>(e@));
                    return Err(e);
                },
            }
            k += 1;
        }
        Ok(v)
    }
}

impl Mapper<Subscribe, SubscribeError> for SubscribeMapper {
    fn map_to_domain_model(v: AttributeMap) -> (r: Result<Subscribe, SubscribeError>)
        ensures
            match r {
                Ok(a) => subscribe_from_attributes(v@) == Ok::<SubscribeView, SubscribeErrorView>(
                    a@,
                ),
                Err(e) => subscribe_from_attributes(v@) == Err::<
                    SubscribeView,
                    SubscribeErrorView,
                >(e@),
            },
    {
        Self::from_attribute_map(&v)
    }
}

/// Persistence round trip from a subscription with a valid name and amount
/// that is paid monthly: if its amount and its two dates are read back from
/// their texts, its attribute map holds the same subscription. A yearly
/// subscription is left out: reading it divides its amount by twelve once
/// more.
pub proof fn lemma_subscribe_attributes_round_trip(a: SubscribeView)
    requires
        a.valid(),
        a.payment_cycle == PaymentCycle::Monthly,
    ensures
        decimal_parse(decimal_text(a.amount.0, a.amount.1)) == Some(a.amount) && survives_rfc3339(
            a.first_payment_date,
        ) && survives_rfc3339(a.next_payment_date) ==> subscribe_from_attributes(
            subscribe_attributes(a),
        ) == Ok::<SubscribeView, SubscribeErrorView>(a),
{
    lemma_subscribe_keys();
    lemma_user_prefix();
    lemma_payment_prefix();
    lemma_category_prefix();
    lemma_subscribe_id_round_trip(a.subscribe_id);
    lemma_id_round_trip(USER_PREFIX@, a.user_id);
    lemma_id_round_trip(PAYMENT_PREFIX@, a.payment_method_id);
    lemma_id_round_trip(CATEGORY_PREFIX@, a.category_id);
    PaymentCycle::lemma_from_text_label(a.payment_cycle);
    SubscribeStatus::lemma_from_text_label(a.status);
}

/// A map that holds a subscription no longer does once a mandatory flag or
/// date is removed: reading it reports the missing field.
pub proof fn lemma_subscribe_missing_field(m: Attributes)
    requires
        subscribe_from_attributes(m) is Ok,
    ensures
        subscribe_from_attributes(m.remove(NOTIFICATION@)) == Err::<
            SubscribeView,
            SubscribeErrorView,
        >(SubscribeErrorView::MissingField(NOTIFICATION@)),
        subscribe_from_attributes(m.remove(FIRST_PAYMENT_DATE@)) == Err::<
            SubscribeView,
            SubscribeErrorView,
        >(SubscribeErrorView::MissingField(FIRST_PAYMENT_DATE@)),
        subscribe_from_attributes(m.remove(NEXT_PAYMENT_DATE@)) == Err::<
            SubscribeView,
            SubscribeErrorView,
        >(SubscribeErrorView::MissingField(NEXT_PAYMENT_DATE@)),
        subscribe_from_attributes(m.remove(AUTO_RENEWAL@)) == Err::<
            SubscribeView,
            SubscribeErrorView,
        >(SubscribeErrorView::MissingField(AUTO_RENEWAL@)),
{
    lemma_subscribe_keys();
}

/// Persistence round trip from an attribute map: a map that holds a
/// subscription, with identifiers in canonical form, a cycle that is one of
/// the two labels and a path that is a text, has under the name of every
/// mandatory field but the amount and the dates the value that the
/// attribute map of that subscription has. The amount agrees too if the
/// cycle is monthly and the amount is the text of the decimal that it
/// writes; a date agrees if it is the RFC 3339 text of the time that it
/// writes.
pub proof fn lemma_subscribe_attributes_round_trip_from_map(
    m: Attributes,
    subscribe_id: u128,
    user_id: u128,
    payment_method_id: u128,
    category_id: u128,
    cycle: PaymentCycle,
)
    requires
        m.contains_key(SUBSCRIBE_KEY@) && m[SUBSCRIBE_KEY@] == AttrValueView::S(
            subscribe_id_text(subscribe_id),
        ),
        m.contains_key(USER_ID@) && m[USER_ID@] == AttrValueView::S(id_text(USER_PREFIX@, user_id)),
        m.contains_key(PAYMENT_METHOD_ID@) && m[PAYMENT_METHOD_ID@] == AttrValueView::S(
            id_text(PAYMENT_PREFIX@, payment_method_id),
        ),
        m.contains_key(CATEGORY_ID@) && m[CATEGORY_ID@] == AttrValueView::S(
            id_text(CATEGORY_PREFIX@, category_id),
        ),
        m.contains_key(PAYMENT_CYCLE@) && m[PAYMENT_CYCLE@] == AttrValueView::S(cycle.label()),
        m.contains_key(ICON_LOCAL_PATH@) && m[ICON_LOCAL_PATH@] is S,
        subscribe_from_attributes(m) is Ok,
    ensures
        ({
            let a = subscribe_from_attributes(m)->Ok_0;
            let out = subscribe_attributes(a);
            &&& out[SUBSCRIBE_KEY@] == m[SUBSCRIBE_KEY@]
            &&& out[USER_ID@] == m[USER_ID@]
            &&& out[NAME@] == m[NAME@]
            &&& out[PAYMENT_METHOD_ID@] == m[PAYMENT_METHOD_ID@]
            &&& out[PAYMENT_CYCLE@] == m[PAYMENT_CYCLE@]
            &&& out[CATEGORY_ID@] == m[CATEGORY_ID@]
            &&& out[ICON_LOCAL_PATH@] == m[ICON_LOCAL_PATH@]
            &&& out[NOTIFICATION@] == m[NOTIFICATION@]
            &&& out[AUTO_RENEWAL@] == m[AUTO_RENEWAL@]
            &&& out[STATUS@] == m[STATUS@]
            &&& cycle == PaymentCycle::Monthly && m.contains_key(AMOUNT@) && m[AMOUNT@]
                == AttrValueView::S(decimal_text(a.amount.0, a.amount.1)) ==> out[AMOUNT@]
                == m[AMOUNT@]
            &&& m[FIRST_PAYMENT_DATE@] == AttrValueView::S(
                rfc3339_text(a.first_payment_date.0, a.first_payment_date.1),
            ) ==> out[FIRST_PAYMENT_DATE@] == m[FIRST_PAYMENT_DATE@]
            &&& m[NEXT_PAYMENT_DATE@] == AttrValueView::S(
                rfc3339_text(a.next_payment_date.0, a.next_payment_date.1),
            ) ==> out[NEXT_PAYMENT_DATE@] == m[NEXT_PAYMENT_DATE@]
        }),
{
    lemma_subscribe_keys();
    lemma_user_prefix();
    lemma_payment_prefix();
    lemma_category_prefix();
    lemma_subscribe_id_round_trip(subscribe_id);
    lemma_id_round_trip(USER_PREFIX@, user_id);
    lemma_id_round_trip(PAYMENT_PREFIX@, payment_method_id);
    lemma_id_round_trip(CATEGORY_PREFIX@, category_id);
    PaymentCycle::lemma_from_text_label(cycle);
    let a = subscribe_from_attributes(m)->Ok_0;
    SubscribeStatus::lemma_label_not_empty(a.status);
}

/// Length and second character of each name of an update value; no two
/// names agree on both, so the names differ from each other.
pub proof fn lemma_subscribe_value_names()
    ensures
        value_name_code(NAME_VALUE@) == (5nat, 'n'),
        value_name_code(PAYMENT_METHOD_ID_VALUE@) == (18nat, 'p'),
        value_name_code(AMOUNT_VALUE@) == (7nat, 'a'),
        value_name_code(PAYMENT_CYCLE_VALUE@) == (14nat, 'p'),
        value_name_code(CATEGORY_ID_VALUE@) == (12nat, 'c'),
        value_name_code(ICON_LOCAL_PATH_VALUE@) == (16nat, 'i'),
        value_name_code(NOTIFICATION_VALUE@) == (13nat, 'n'),
        value_name_code(FIRST_PAYMENT_DATE_VALUE@) == (19nat, 'f'),
        value_name_code(NEXT_PAYMENT_DATE_VALUE@) == (18nat, 'n'),
        value_name_code(AUTO_RENEWAL_VALUE@) == (13nat, 'a'),
        value_name_code(STATUS_VALUE@) == (7nat, 's'),
        value_name_code(MEMO_VALUE@) == (5nat, 'm'),
{
    reveal_strlit(":name");
    reveal_strlit(":payment_method_id");
    reveal_strlit(":amount");
    reveal_strlit(":payment_cycle");
    reveal_strlit(":category_id");
    reveal_strlit(":icon_local_path");
    reveal_strlit(":notification");
    reveal_strlit(":first_payment_date");
    reveal_strlit(":next_payment_date");
    reveal_strlit(":auto_renewal");
    reveal_strlit(":status");
    reveal_strlit(":memo");
}

/// An update sets every field but the key to the value that the attribute
/// map of the subscription holds under the name of the field.
pub proof fn lemma_subscribe_update_values(a: SubscribeView)
    ensures
        ({
            let values = subscribe_update_values(a);
            let item = subscribe_attributes(a);
            &&& values.contains_key(NAME_VALUE@) && values[NAME_VALUE@] == item[NAME@]
            &&& values.contains_key(PAYMENT_METHOD_ID_VALUE@) && values[PAYMENT_METHOD_ID_VALUE@] == item[PAYMENT_METHOD_ID@]
            &&& values.contains_key(AMOUNT_VALUE@) && values[AMOUNT_VALUE@] == item[AMOUNT@]
            &&& values.contains_key(PAYMENT_CYCLE_VALUE@) && values[PAYMENT_CYCLE_VALUE@] == item[PAYMENT_CYCLE@]
            &&& values.contains_key(CATEGORY_ID_VALUE@) && values[CATEGORY_ID_VALUE@] == item[CATEGORY_ID@]
            &&& values.contains_key(ICON_LOCAL_PATH_VALUE@) && values[ICON_LOCAL_PATH_VALUE@] == item[ICON_LOCAL_PATH@]
            &&& values.contains_key(NOTIFICATION_VALUE@) && values[NOTIFICATION_VALUE@] == item[NOTIFICATION@]
            &&& values.contains_key(FIRST_PAYMENT_DATE_VALUE@) && values[FIRST_PAYMENT_DATE_VALUE@] == item[FIRST_PAYMENT_DATE@]
            &&& values.contains_key(NEXT_PAYMENT_DATE_VALUE@) && values[NEXT_PAYMENT_DATE_VALUE@] == item[NEXT_PAYMENT_DATE@]
            &&& values.contains_key(AUTO_RENEWAL_VALUE@) && values[AUTO_RENEWAL_VALUE@] == item[AUTO_RENEWAL@]
            &&& values.contains_key(STATUS_VALUE@) && values[STATUS_VALUE@] == item[STATUS@]
            &&& values.contains_key(MEMO_VALUE@) && values[MEMO_VALUE@] == item[MEMO@]
            &&& values.len() == 12
        }),
{
    lemma_subscribe_keys();
    lemma_subscribe_value_names();
    let values = subscribe_update_values(a);
    assert(values.dom() =~= set![
        NAME_VALUE@,
        PAYMENT_METHOD_ID_VALUE@,
        AMOUNT_VALUE@,
        PAYMENT_CYCLE_VALUE@,
        CATEGORY_ID_VALUE@,
        ICON_LOCAL_PATH_VALUE@,
        NOTIFICATION_VALUE@,
        FIRST_PAYMENT_DATE_VALUE@,
        NEXT_PAYMENT_DATE_VALUE@,
        AUTO_RENEWAL_VALUE@,
        STATUS_VALUE@,
        MEMO_VALUE@,
    ]);
}

} // verus!
