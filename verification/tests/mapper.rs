use chrono::Utc;
use finance_tracker::domain::value_object::timestamp::Timestamp;
use finance_tracker::infrastructure::mapper::{as_datetime, as_string, AttrValue, AttributeMap};

#[test]
fn test_as_string_success() {
    let binding1 = &AttrValue::S("hoge".to_string());
    let binding2 = &AttrValue::S("fuga".to_string());
    let test_case = vec![(Some(binding1), "hoge".to_string()), (Some(binding2), "fuga".to_string())];

    for (found, expected) in test_case {
        let result = as_string(found, "");
        assert_eq!(result, expected)
    }
}

#[test]
fn test_as_string_default_value() {
    let binding1 = None;
    let binding2 = None;
    let test_case = vec![(binding1, ""), (binding2, "")];

    for (found, expected) in test_case {
        let result = as_string(found, "");
        assert_eq!(result, expected)
    }
}

#[test]
fn test_as_datetime_success() {
    let binding1 = AttrValue::S(Utc::now().to_rfc3339());
    let result = as_datetime(Some(&binding1));

    assert!(result.is_some())
}

#[test]
fn test_as_datetime_default_value() {
    let binding1 = None;
    let result = as_datetime(binding1);

    assert!(result.is_none())
}

#[test]
fn typed_accessors_fall_back_on_values_of_another_type() {
    for value in [AttrValue::Bool(true), AttrValue::Null(true), AttrValue::Other] {
        assert_eq!(as_string(Some(&value), "default"), "default");
        assert_eq!(as_datetime(Some(&value)), None);
    }
    assert_eq!(as_string(None, "default"), "default");
    assert_eq!(as_datetime(Some(&AttrValue::S("not a time".to_string()))), None);
    assert_eq!(
        as_datetime(Some(&AttrValue::S("2024-01-01T00:00:00Z".to_string()))),
        Timestamp::from_parts(1_704_067_200, 0)
    );
}

#[test]
fn attribute_map_keeps_the_last_value_under_a_name() {
    let mut m = AttributeMap::new();
    assert_eq!(m.len(), 0);
    assert_eq!(m.get("a"), None);
    m.insert("a", AttrValue::S("1".to_string()));
    m.insert("b", AttrValue::Bool(false));
    m.insert("a", AttrValue::Null(true));
    assert_eq!(m.len(), 2);
    assert_eq!(m.get("a"), Some(&AttrValue::Null(true)));
    assert_eq!(m.get("b"), Some(&AttrValue::Bool(false)));
    assert!(m.contains_key("b"));
    assert!(!m.contains_key("c"));
}
