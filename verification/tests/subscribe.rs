use chrono::{DateTime, Utc};
use finance_tracker::domain::category::category_id::CategoryId;
use finance_tracker::domain::payment::payment_method_id::PaymentMethodId;
use finance_tracker::domain::payment_cycle::PaymentCycle;
use finance_tracker::domain::subscribe::subscribe_id::{SubscribeId, SUBSCRIBE_PREFIX};
use finance_tracker::domain::subscribe::subscribe_name::SubscribeName;
use finance_tracker::domain::subscribe::subscribe_status::SubscribeStatus;
use finance_tracker::domain::subscribe::Subscribe;
use finance_tracker::domain::user::user_id::UserId;
use finance_tracker::domain::value_object::amount::{Amount, AmountError};
use finance_tracker::domain::value_object::decimal::DecimalValue;
use finance_tracker::domain::value_object::timestamp::Timestamp;
use finance_tracker::domain::{AggregateId, AggregateIdError};
use rust_decimal::Decimal;

fn timestamp(t: DateTime<Utc>) -> Timestamp {
    Timestamp::from_parts(t.timestamp(), t.timestamp_subsec_nanos()).unwrap()
}

fn decimal(d: Decimal) -> DecimalValue {
    DecimalValue::new(d.mantissa(), d.scale()).unwrap()
}

fn amount(value: i64) -> Amount {
    Amount::try_from(DecimalValue::from_int(value)).unwrap()
}

fn subscribe_with(value: Amount, cycle: PaymentCycle) -> Subscribe {
    let now = timestamp(Utc::now());
    Subscribe::try_new(
        UserId::new(),
        SubscribeName::new("hoge").unwrap(),
        PaymentMethodId::new(),
        value,
        cycle,
        CategoryId::new(),
        String::from("/path/to/icon"),
        true,
        now,
        now,
        true,
        SubscribeStatus::ACTIVE,
        None,
    )
    .unwrap()
}

#[test]
fn test_subscribe_new_success() {
    let user_id = UserId::new();
    let name = SubscribeName::new("hoge").unwrap();
    let payment_method_id = PaymentMethodId::new();
    let category_id = CategoryId::new();
    let amount = Amount::try_from(decimal(Decimal::ONE_HUNDRED)).unwrap();
    let now = timestamp(Utc::now());

    let result = Subscribe::new(
        user_id,
        name,
        payment_method_id,
        amount,
        PaymentCycle::Monthly,
        category_id,
        String::from("/path/to/icon"),
        true,
        now,
        now,
        true,
        SubscribeStatus::ACTIVE,
        Some("テストメモ".to_string()),
    );

    assert!(!result.subscribe_id().to_string().is_empty());
}

#[test]
fn test_subscribe_from_success() {
    let id = SubscribeId::new();
    let user_id = UserId::new();
    let name = SubscribeName::new("hoge").unwrap();
    let payment_method_id = PaymentMethodId::new();
    let category_id = CategoryId::new();
    let amount = Amount::try_from(decimal(Decimal::ONE_HUNDRED)).unwrap();
    let now = timestamp(Utc::now());

    let result = Subscribe::from(
        id.clone(),
        user_id,
        name,
        payment_method_id,
        amount,
        PaymentCycle::Yearly,
        category_id,
        String::from("/path/to/icon"),
        true,
        now,
        now,
        true,
        SubscribeStatus::ACTIVE,
        Some("テストメモ".to_string()),
    );

    assert!(!result.subscribe_id().to_string().is_empty());
    assert_eq!(id.to_string(), result.subscribe_id().to_string())
}

#[test]
fn test_getters() {
    let subscribe_id = SubscribeId::new();
    let user_id = UserId::new();
    let name = SubscribeName::new("hoge").unwrap();
    let payment_method_id = PaymentMethodId::new();
    let amount = Amount::try_from(decimal(Decimal::ONE_HUNDRED)).unwrap();
    let payment_cycle = PaymentCycle::Monthly;
    let now = timestamp(Utc::now());
    let category_id = CategoryId::new();
    let icon_path = String::from("/path/to/icon");
    let notification = true;
    let auto_renewal = true;
    let status = SubscribeStatus::ACTIVE;
    let memo = "テストメモ";

    let subscribe = Subscribe::from(
        subscribe_id.clone(),
        user_id.clone(),
        name.clone(),
        payment_method_id.clone(),
        amount.clone(),
        payment_cycle.clone(),
        category_id.clone(),
        icon_path.clone(),
        notification,
        now,
        now,
        auto_renewal,
        status.clone(),
        Some(memo.to_string()),
    );

    // The stored value is the bare UUID; the prefix is shown only on display.
    assert_eq!(
        format!("{}-{}", SUBSCRIBE_PREFIX, subscribe.subscribe_id().value()),
        subscribe_id.to_string()
    );
    assert_eq!(subscribe.user_id(), &user_id);
    assert_eq!(subscribe.name(), &name);
    assert_eq!(subscribe.amount(), &amount);
    assert_eq!(subscribe.payment_method_id(), &payment_method_id);
    assert_eq!(subscribe.payment_cycle(), &payment_cycle);
    assert_eq!(subscribe.category_id(), &category_id);
    assert_eq!(subscribe.icon_local_path(), &icon_path);
    assert_eq!(subscribe.notification(), notification);
    assert_eq!(subscribe.first_payment_date(), &now);
    assert_eq!(subscribe.next_payment_date(), &now);
    assert_eq!(subscribe.auto_renewal(), auto_renewal);
    assert_eq!(subscribe.status(), &status);
    assert_eq!(subscribe.memo(), &Some(memo.to_string()));
}

#[test]
fn yearly_amount_per_monthly_divides_a_yearly_amount_by_twelve() {
    for (a, b) in [(1000, PaymentCycle::Yearly), (1000, PaymentCycle::Monthly)] {
        let dec = Decimal::from(a);
        let amount = Amount::try_from(decimal(dec)).unwrap();
        let result = Subscribe::yearly_amount_per_monthly(amount, &b).unwrap();

        match b {
            PaymentCycle::Monthly => {
                assert_eq!(result.value(), &decimal(dec))
            }
            PaymentCycle::Yearly => {
                let u = dec / Decimal::from(12);
                assert_eq!(result.value(), &decimal(u))
            }
        }
    }
}

#[test]
fn monthly_normalization() {
    assert_eq!(subscribe_with(amount(1200), PaymentCycle::Yearly).amount(), &amount(100));
    assert_eq!(subscribe_with(amount(1200), PaymentCycle::Monthly).amount(), &amount(1200));
    // The cycle is kept beside the normalized amount.
    assert_eq!(
        subscribe_with(amount(1200), PaymentCycle::Yearly).payment_cycle(),
        &PaymentCycle::Yearly
    );
}

#[test]
fn an_amount_without_monthly_equivalent_is_refused() {
    let tiny = Amount::try_from(DecimalValue::new(1, 28).unwrap()).unwrap();
    let now = timestamp(Utc::now());
    let result = Subscribe::try_from(
        SubscribeId::new(),
        UserId::new(),
        SubscribeName::new("hoge").unwrap(),
        PaymentMethodId::new(),
        tiny,
        PaymentCycle::Yearly,
        CategoryId::new(),
        String::new(),
        false,
        now,
        now,
        false,
        SubscribeStatus::PAUSED,
        None,
    );
    assert_eq!(result.unwrap_err(), AmountError::ZeroOrLess);
    assert_eq!(subscribe_with(tiny, PaymentCycle::Monthly).amount(), &tiny);
}

#[test]
fn subscribe_id_shows_its_prefix_only_on_display() {
    let id = SubscribeId::from(0x67e55044_10b1_426f_9247_bb680e5fe0c8);
    assert_eq!(id.value(), "67e55044-10b1-426f-9247-bb680e5fe0c8");
    assert_eq!(id.to_string(), "SUBSCRIBE-67e55044-10b1-426f-9247-bb680e5fe0c8");
    assert_eq!(id.prefix(), "SUBSCRIBE");
    assert_eq!(SubscribeId::from_str(&id.to_string()), Ok(id.clone()));
    assert_eq!(SubscribeId::from_str("SUBSCRIBE-67E5504410B1426F9247BB680E5FE0C8"), Ok(id));
    let fresh = SubscribeId::new();
    assert_eq!(SubscribeId::from_str(&fresh.to_string()), Ok(fresh.clone()));
    assert_ne!(fresh, SubscribeId::new());
}

#[test]
fn subscribe_id_rejects_other_texts() {
    for text in ["", "SUBSCRIBE", "67e55044-10b1-426f-9247-bb680e5fe0c8", "sub-x", "SUBSCRIBE_x-y"] {
        assert_eq!(SubscribeId::from_str(text), Err(AggregateIdError::InvalidFormat), "{}", text);
    }
    for text in ["SUBSCRIBE-", "SUBSCRIBE-abc", "SUBSCRIBE--67e55044-10b1-426f-9247-bb680e5fe0c8"] {
        assert_eq!(SubscribeId::from_str(text), Err(AggregateIdError::InvalidUuid), "{}", text);
    }
}
