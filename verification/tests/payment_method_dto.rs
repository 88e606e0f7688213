use chrono::{DateTime, Utc};
use finance_tracker::application::dtos::payment_method_dto::PaymentMethodDTO;
use finance_tracker::application::dtos::DTO;
use finance_tracker::application::error::ApplicationError;
use finance_tracker::domain::payment::payment_method_id::PaymentMethodId;
use finance_tracker::domain::payment::payment_method_name::{
    CreditCard, MobilePayment, PaymentMethodCategoryName, PaymentMethodKindName,
};
use finance_tracker::domain::payment::PaymentMethod;
use finance_tracker::domain::user::user_id::UserId;
use finance_tracker::domain::value_object::timestamp::Timestamp;
use finance_tracker::domain::AggregateId;
use finance_tracker::infrastructure::mapper::Mapper;
use finance_tracker::infrastructure::payment_mapper::PaymentMapper;

fn timestamp(t: DateTime<Utc>) -> Timestamp {
    Timestamp::from_parts(t.timestamp(), t.timestamp_subsec_nanos()).unwrap()
}

fn now() -> Timestamp {
    timestamp(Utc::now())
}

fn record(id: &str, category: &str, kind: &str) -> PaymentMethodDTO {
    PaymentMethodDTO {
        payment_method_id: id.to_string(),
        user_id: "usr_550e8400-e29b-41d4-a716-446655440000".to_string(),
        method_name: category.to_string(),
        method_kind_name: kind.to_string(),
        additional_name: "x".to_string(),
        created_at: None,
        updated_at: None,
    }
}

#[test]
fn test_map_to_dto() {
    let payment_method_id = PaymentMethodId::new();
    let user_id = UserId::new();
    let method_name = PaymentMethodCategoryName::CreditCard;
    let method_kind_name = PaymentMethodKindName::CreditCard(CreditCard::JCB);
    let additional_name = "hoge";
    let created_at = now();
    let updated_at = Some(now());

    let payment_method = PaymentMethod::new(
        payment_method_id.clone(),
        user_id.clone(),
        method_name.clone(),
        method_kind_name.clone(),
        additional_name,
        created_at.clone(),
        updated_at.clone(),
    );

    let result = PaymentMethodDTO::map_to_dto(&payment_method);

    assert_eq!(&result.payment_method_id, payment_method_id.value());
    assert_eq!(&result.user_id, user_id.value());
    assert_eq!(&result.method_name.to_string(), &method_name.to_string());
    assert_eq!(&result.method_kind_name.to_string(), &method_kind_name.to_string());
    assert_eq!(&result.additional_name, additional_name);
    assert_eq!(&result.created_at, &Some(created_at));
    assert_eq!(&result.updated_at, &updated_at)
}

#[test]
fn test_map_to_domain_model() {
    // Setup test data
    let payment_method_id = PaymentMethodId::new();
    let user_id = UserId::new();
    let created_at = PaymentMethod::make_created_at(payment_method_id.value(), Some(now())).unwrap();
    let updated_at = PaymentMethod::make_updated_at(&Some(now()));

    let dto = PaymentMethodDTO {
        payment_method_id: payment_method_id.value().to_string(),
        user_id: user_id.value().to_string(),
        method_name: "Credit Card".to_string(),
        method_kind_name: "JCB".to_string(),
        additional_name: "test_card".to_string(),
        created_at: Some(created_at),
        updated_at,
    };

    // Execute
    let result = PaymentMethodDTO::map_to_domain_model(dto).unwrap();
    println!("{:?}", result.updated_at());
    println!("{:?}", updated_at);
    // Assert
    assert_eq!(result.payment_method_id().value(), payment_method_id.value());
    assert_eq!(result.user_id().value(), user_id.value());
    assert_eq!(result.method_name().to_string(), "Credit Card");
    assert_eq!(result.method_kind_name().to_string(), "JCB");
    assert_eq!(result.additional_name(), "test_card");
    assert_eq!(result.created_at(), &created_at);
    assert_eq!(result.updated_at().unwrap().timestamp(), updated_at.unwrap().timestamp());
}

#[test]
fn test_map_to_domain_model_with_invalid_id() {
    // Setup test data with invalid ID
    let dto = PaymentMethodDTO {
        payment_method_id: "invalid_id".to_string(),
        user_id: UserId::new().value().to_string(),
        method_name: "CreditCard".to_string(),
        method_kind_name: "JCB".to_string(),
        additional_name: "test_card".to_string(),
        created_at: Some(now()),
        updated_at: None,
    };

    // Execute and assert error
    let result = PaymentMethodDTO::map_to_domain_model(dto);
    assert!(result.is_err());
    assert!(matches!(result.unwrap_err(), ApplicationError::InvalidAggregateIdFormatError(_)));
}

#[test]
fn test_map_to_domain_model_with_invalid_method_name() {
    // Setup test data with invalid method name
    let dto = PaymentMethodDTO {
        payment_method_id: PaymentMethodId::new().value().to_string(),
        user_id: UserId::new().value().to_string(),
        method_name: "InvalidMethod".to_string(),
        method_kind_name: "JCB".to_string(),
        additional_name: "test_card".to_string(),
        created_at: Some(now()),
        updated_at: None,
    };

    // Execute and assert error
    let result = PaymentMethodDTO::map_to_domain_model(dto);
    assert!(result.is_err());
    assert!(matches!(result.unwrap_err(), ApplicationError::PaymentMethodError(_)));
}

#[test]
fn payment_dto_errors_in_order_with_their_messages() {
    let t = Timestamp::from_parts(1, 0).unwrap();
    let map = |d: &PaymentMethodDTO| PaymentMethodDTO::to_domain_with(d, 1, t, t).unwrap_err();
    let mut d = record("pay_nope", "nope", "nope");
    d.user_id = "nope".to_string();
    assert_eq!(
        map(&d),
        ApplicationError::InvalidAggregateIdFormatError("Invalid UUID format".to_string())
    );
    d.payment_method_id = String::new();
    assert_eq!(
        map(&d),
        ApplicationError::InvalidAggregateIdFormatError(
            "It is not in the prefix_UUID format.".to_string()
        )
    );
    d.user_id = "usr_550e8400-e29b-41d4-a716-446655440000".to_string();
    assert_eq!(
        map(&d),
        ApplicationError::PaymentMethodError("Invalid payment method category: nope".to_string())
    );
    d.method_name = "Credit Card".to_string();
    assert_eq!(
        map(&d),
        ApplicationError::PaymentMethodError("Invalid payment method kind: nope".to_string())
    );
    d.method_kind_name = "PayPal".to_string();
    assert_eq!(
        map(&d),
        ApplicationError::PaymentMethodError("Invalid method combination".to_string())
    );
    d.method_kind_name = "JCB".to_string();
    assert!(PaymentMethodDTO::to_domain_with(&d, 1, t, t).is_ok());
}

#[test]
fn payment_dto_settles_identifier_and_times() {
    let created_now = Timestamp::from_parts(100, 0).unwrap();
    let updated_now = Timestamp::from_parts(200, 0).unwrap();
    let given = Timestamp::from_parts(50, 500).unwrap();
    // A new payment method gets the fresh UUID and the clock.
    let mut d = record("", "Credit Card", "JCB");
    let a = PaymentMethodDTO::to_domain_with(&d, 7, created_now, updated_now).unwrap();
    assert_eq!(a.payment_method_id(), &PaymentMethodId::from(7));
    assert_eq!(a.created_at(), &created_now);
    assert_eq!(a.updated_at(), &None);
    // An existing one keeps its identifier and creation time and is updated now.
    d.payment_method_id = "pay_550e8400-e29b-41d4-a716-446655440000".to_string();
    d.created_at = Some(given);
    d.updated_at = Some(given);
    let a = PaymentMethodDTO::to_domain_with(&d, 7, created_now, updated_now).unwrap();
    assert_eq!(a.payment_method_id().value(), "pay_550e8400-e29b-41d4-a716-446655440000");
    assert_eq!(a.created_at(), &given);
    assert_eq!(a.updated_at(), &Some(updated_now));
}

#[test]
fn payment_dto_round_trip() {
    let t = Timestamp::from_parts(1_700_000_000, 0).unwrap();
    let mut d = record("pay_550e8400-e29b-41d4-a716-446655440000", "Mobile Payment", "PayPal");
    d.created_at = Some(t);
    d.updated_at = Some(t);
    let a = PaymentMethodDTO::to_domain_with(&d, 7, t, t).unwrap();
    assert_eq!(PaymentMethodDTO::to_dto(&a), d);
    // From the payment method: everything but the update time comes back.
    let b = PaymentMethodDTO::to_domain_with(&PaymentMethodDTO::to_dto(&a), 9, t, t).unwrap();
    assert_eq!(b, a);
    // Every kind comes back as the label that the record held.
    let mut d = record("pay_550e8400-e29b-41d4-a716-446655440000", "Mobile Payment", "LINE Pay");
    d.created_at = Some(t);
    let a = PaymentMethodDTO::to_domain_with(&d, 7, t, t).unwrap();
    assert_eq!(a.method_kind_name(), &PaymentMethodKindName::MobilePayment(MobilePayment::LinePay));
    let out = PaymentMethodDTO::to_dto(&a);
    assert_eq!(out.method_kind_name, "LINE Pay");
    assert_eq!(PaymentMethodDTO { updated_at: None, ..out }, d);
    let mut d = record("pay_550e8400-e29b-41d4-a716-446655440000", "Debit Card", "デビットカード");
    d.created_at = Some(t);
    let a = PaymentMethodDTO::to_domain_with(&d, 7, t, t).unwrap();
    assert_eq!(a.method_kind_name(), &PaymentMethodKindName::DebitCard);
    assert_eq!(PaymentMethodDTO { updated_at: None, ..PaymentMethodDTO::to_dto(&a) }, d);
    // A label that no kind is displayed as is refused.
    let d = record("pay_550e8400-e29b-41d4-a716-446655440000", "Mobile Payment", "LinePay");
    assert_eq!(
        PaymentMethodDTO::to_domain_with(&d, 7, t, t),
        Err(ApplicationError::PaymentMethodError("Invalid payment method kind: LinePay".to_string()))
    );
    // An identifier that is not in canonical form comes back in canonical form.
    let d = record("pay_550E8400E29B41D4A716446655440000", "Credit Card", "JCB");
    let a = PaymentMethodDTO::to_domain_with(&d, 7, t, t).unwrap();
    assert_eq!(
        PaymentMethodDTO::to_dto(&a).payment_method_id,
        "pay_550e8400-e29b-41d4-a716-446655440000"
    );
}

#[test]
fn end_to_end_new_payment_method() {
    let dto = PaymentMethodDTO::new(
        "",
        "usr_550e8400-e29b-41d4-a716-446655440000",
        "Credit Card",
        "JCB",
        "x",
        &None,
        &None,
    );
    let payment = PaymentMethodDTO::map_to_domain_model(dto).unwrap();
    assert!(payment.payment_method_id().value().starts_with("pay_"));
    assert!(PaymentMethodId::from_str(payment.payment_method_id().value()).is_ok());
    assert_eq!(payment.user_id().value(), "usr_550e8400-e29b-41d4-a716-446655440000");

    let stored = PaymentMapper::to_attribute_map(&payment);
    let read = PaymentMapper::map_to_domain_model(stored).unwrap();
    assert_eq!(read.method_name(), &PaymentMethodCategoryName::CreditCard);
    assert_eq!(read.method_kind_name(), &PaymentMethodKindName::CreditCard(CreditCard::JCB));
    assert_eq!(read.additional_name(), "x");
    assert_eq!(read.payment_method_id(), payment.payment_method_id());
    assert_eq!(read, payment);
}
