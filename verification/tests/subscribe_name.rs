use finance_tracker::domain::subscribe::subscribe_name::{SubscribeName, SubscribeNameError};

#[test]
fn test_subscribe_name_new_success() {
    let name = "あいうえおかきくけこさしすせそたちつてと";
    let result = SubscribeName::new(name);
    assert!(result.is_ok());
    assert_eq!(name, result.unwrap().to_string())
}

#[test]
fn test_subscribe_name_new_empty_error() {
    let name = "";
    let result = SubscribeName::new(name);
    assert!(result.is_err());
    assert!(matches!(result.unwrap_err(), SubscribeNameError::Empty))
}

#[test]
fn test_subscribe_name_new_too_long_error() {
    let name = "このサブスクリプション名は長すぎて20文字を超えています";
    let result = SubscribeName::new(name);
    assert!(result.is_err());
    assert!(matches!(result.unwrap_err(), SubscribeNameError::TooLong));
}

#[test]
fn test_subscribe_name_from_str_success() {
    let name = "テストサブスクリプション";
    let result = SubscribeName::from_str(name);
    assert!(result.is_ok());
    assert_eq!(name, result.unwrap().to_string());
}

#[test]
fn test_subscribe_name_from_str_empty_error() {
    let name = "";
    let result = SubscribeName::from_str(name);
    assert!(result.is_err());
    assert!(matches!(result.unwrap_err(), SubscribeNameError::Empty));
}

#[test]
fn test_subscribe_name_from_str_too_long_error() {
    let name = "このサブスクリプション名は長すぎて20文字を超えています";
    let result = SubscribeName::from_str(name);
    assert!(result.is_err());
    assert!(matches!(result.unwrap_err(), SubscribeNameError::TooLong));
}

#[test]
fn test_subscribe_name_display() {
    let name = "テストサブスクリプション";
    let category_name = SubscribeName::new(name).unwrap();
    assert_eq!(name, category_name.to_string());
}

#[test]
fn subscribe_name_counts_characters_not_bytes() {
    // 20 characters of three bytes each are accepted, 21 are not.
    let twenty = "あ".repeat(20);
    let twenty_one = "あ".repeat(21);
    assert_eq!(twenty.len(), 60);
    assert!(SubscribeName::new(&twenty).is_ok());
    assert!(matches!(SubscribeName::new(&twenty_one), Err(SubscribeNameError::TooLong)));
    // 21 ASCII characters are fewer bytes than 20 Japanese ones and still too long.
    assert!(matches!(SubscribeName::new(&"a".repeat(21)), Err(SubscribeNameError::TooLong)));
    assert!(SubscribeName::new(&"a".repeat(20)).is_ok());
    assert!(SubscribeName::new("a").is_ok());
}

#[test]
fn subscribe_name_error_messages() {
    assert_eq!(SubscribeNameError::Empty.to_string(), "the subscribe name is empty");
    assert_eq!(SubscribeNameError::TooLong.to_string(), "the subscribe name is too long");
}
