use finance_tracker::domain::category::category_name::{CategoryName, CategoryNameError};

#[test]
fn test_category_name_new_success() {
    let name = "あいうえおかきくけこさしすせそたちつてと";
    let result = CategoryName::new(name);
    assert!(result.is_ok());
    assert_eq!(name, result.unwrap().to_string())
}

#[test]
fn test_category_name_new_empty_error() {
    let name = "";
    let result = CategoryName::new(name);
    assert!(result.is_err());
    assert!(matches!(result.unwrap_err(), CategoryNameError::Empty))
}

#[test]
fn test_category_name_new_too_long_error() {
    let name = "このカテゴリー名は長すぎて20文字を超えています";
    let result = CategoryName::new(name);
    assert!(result.is_err());
    assert!(matches!(result.unwrap_err(), CategoryNameError::TooLong));
}

#[test]
fn test_category_name_from_str_success() {
    let name = "テストカテゴリー";
    let result = CategoryName::from_str(name);
    assert!(result.is_ok());
    assert_eq!(name, result.unwrap().to_string());
}

#[test]
fn test_category_name_from_str_empty_error() {
    let name = "";
    let result = CategoryName::from_str(name);
    assert!(result.is_err());
    assert!(matches!(result.unwrap_err(), CategoryNameError::Empty));
}

#[test]
fn test_category_name_from_str_too_long_error() {
    let name = "このカテゴリー名は長すぎて20文字を超えています";
    let result = CategoryName::from_str(name);
    assert!(result.is_err());
    assert!(matches!(result.unwrap_err(), CategoryNameError::TooLong));
}

#[test]
fn test_category_name_display() {
    let name = "テストカテゴリー";
    let category_name = CategoryName::new(name).unwrap();
    assert_eq!(name, category_name.to_string());
}

#[test]
fn category_name_counts_characters_not_bytes() {
    // 20 characters of three bytes each are accepted, 21 are not.
    let twenty = "あ".repeat(20);
    let twenty_one = "あ".repeat(21);
    assert_eq!(twenty.len(), 60);
    assert!(CategoryName::new(&twenty).is_ok());
    assert!(matches!(CategoryName::new(&twenty_one), Err(CategoryNameError::TooLong)));
    // 21 ASCII characters are fewer bytes than 20 Japanese ones and still too long.
    assert!(matches!(CategoryName::new(&"a".repeat(21)), Err(CategoryNameError::TooLong)));
    assert!(CategoryName::new(&"a".repeat(20)).is_ok());
    assert!(CategoryName::new("a").is_ok());
}

#[test]
fn category_name_error_messages() {
    assert_eq!(CategoryNameError::Empty.to_string(), "the category name is empty");
    assert_eq!(CategoryNameError::TooLong.to_string(), "the category name is too long");
}
