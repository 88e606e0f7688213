use finance_tracker::domain::payment::payment_method_id::{PaymentMethodId, PAYMENT_PREFIX};
use finance_tracker::domain::{AggregateId, AggregateIdError};
use uuid::Uuid;

#[test]
fn payment_method_id_test_new_success() {
    let id = PaymentMethodId::new();
    assert!(!id.value().is_empty());
    assert!(id.value().starts_with("pay_"));
}

#[test]
fn payment_method_id_test_type_name_success() {
    let id = PaymentMethodId::new();
    assert!(!id.prefix().is_empty());
    assert_eq!(PAYMENT_PREFIX, id.prefix());
}

#[test]
fn payment_method_id_test_from_success() {
    let uuid = Uuid::new_v4();
    let format = format!("pay_{}", uuid);
    let result = PaymentMethodId::from(uuid.as_u128());
    assert!(result.value().starts_with("pay_"));
    assert_eq!(&format, result.value());
}

#[test]
fn payment_method_id_test_from_str_success() {
    let uuid = Uuid::new_v4();
    let format = format!("pay_{}", uuid);
    let result = PaymentMethodId::from_str(&format);
    assert!(result.is_ok());
    assert_eq!(&format, result.unwrap().value());
}

#[test]
fn payment_method_id_test_display_format() {
    let id = PaymentMethodId::new();
    let display_string = id.to_string();
    assert!(display_string.starts_with("pay_"));
}

#[test]
fn payment_method_id_test_clone_equality() {
    let id1 = PaymentMethodId::new();
    let id2 = id1.clone();
    assert_eq!(id1, id2);
}

#[test]
fn payment_method_id_test_debug_format() {
    let id = PaymentMethodId::new();
    let debug_string = format!("{:?}", id);
    assert!(!debug_string.is_empty());
}

#[test]
fn payment_method_id_test_from_str_failed_invalid_format() {
    let result = PaymentMethodId::from_str("invalid");
    assert!(matches!(result, Err(AggregateIdError::InvalidFormat)));
}

#[test]
fn payment_method_id_test_from_str_failed_invalid_uuid() {
    let format = format!("pay_{}", "invalid-uuid");
    let result = PaymentMethodId::from_str(&format);
    assert!(matches!(result, Err(AggregateIdError::InvalidUuid)));
}

#[test]
fn payment_method_id_test_from_str_failed_wrong_prefix() {
    let uuid = Uuid::new_v4();
    let format = format!("wrong_{}", uuid);
    let result = PaymentMethodId::from_str(&format);
    assert!(matches!(result, Err(AggregateIdError::InvalidFormat)));
}

#[test]
fn payment_method_id_test_value_reference() {
    let id = PaymentMethodId::new();
    let value_ref = id.value();
    assert_eq!(&id.to_string(), value_ref);
}

#[test]
fn payment_method_id_test_multiple_instances_unique() {
    let id1 = PaymentMethodId::new();
    let id2 = PaymentMethodId::new();
    assert_ne!(id1, id2);
}

#[test]
fn payment_method_id_test_from_str_empty_string() {
    let result = PaymentMethodId::from_str("");
    assert!(matches!(result, Err(AggregateIdError::InvalidFormat)));
}

#[test]
fn payment_method_id_test_from_str_too_many_parts() {
    let result = PaymentMethodId::from_str("pay_uuid_extra");
    assert!(matches!(result, Err(AggregateIdError::InvalidFormat)));
}

#[test]
fn payment_method_id_test_display_and_from_str_consistency() {
    let original = PaymentMethodId::new();
    let display_string = original.to_string();
    assert!(display_string.contains(original.value().as_str()));
}

#[test]
fn payment_method_id_parses_every_accepted_uuid_shape_into_canonical_form() {
    let canonical = "pay_67e55044-10b1-426f-9247-bb680e5fe0c8";
    for text in [
        "pay_67e55044-10b1-426f-9247-bb680e5fe0c8",
        "pay_67E55044-10B1-426F-9247-BB680E5FE0C8",
        "pay_67e5504410b1426f9247bb680e5fe0c8",
        "pay_{67e55044-10b1-426f-9247-bb680e5fe0c8}",
        "pay_urn:uuid:67e55044-10b1-426f-9247-bb680e5fe0c8",
        "pay_URN:UUID:67e55044-10b1-426f-9247-bb680e5fe0c8",
    ] {
        let id = PaymentMethodId::from_str(text).unwrap();
        assert_eq!(id.value(), canonical);
        assert_eq!(id, PaymentMethodId::from(0x67e55044_10b1_426f_9247_bb680e5fe0c8));
    }
}

#[test]
fn payment_method_id_round_trip_of_formatted_identifier() {
    for u in [0u128, 1, u128::MAX, 0x0123_4567_89ab_cdef_0123_4567_89ab_cdef] {
        let id = PaymentMethodId::from(u);
        let parsed = PaymentMethodId::from_str(id.value()).unwrap();
        assert_eq!(parsed, id);
        assert_eq!(Uuid::parse_str(&id.value()[4..]).unwrap().as_u128(), u);
    }
}

#[test]
fn payment_method_id_rejects_malformed_uuid_parts() {
    for text in [
        "pay_",
        "pay_67e55044-10b1-426f-9247-bb680e5fe0c",
        "pay_67e55044-10b1-426f-9247-bb680e5fe0cg",
        "pay_67e5504410b1-426f-9247-bb680e5fe0c8a",
        "pay_(67e55044-10b1-426f-9247-bb680e5fe0c8)",
        "pay_urn-uuid:67e55044-10b1-426f-9247-bb680e5fe0c8",
    ] {
        assert!(matches!(PaymentMethodId::from_str(text), Err(AggregateIdError::InvalidUuid)), "{}", text);
    }
}

#[test]
fn payment_method_id_new_is_a_random_uuid() {
    for _ in 0..8 {
        let id = PaymentMethodId::new();
        let uuid = Uuid::parse_str(&id.value()[4..]).unwrap();
        assert_eq!(uuid.get_version_num(), 4);
        assert_eq!(uuid.get_variant(), uuid::Variant::RFC4122);
    }
}
