use finance_tracker::domain::category::category_id::CategoryId;
use finance_tracker::domain::category::category_name::CategoryName;
use finance_tracker::domain::category::Category;
use finance_tracker::domain::user::user_id::UserId;
use finance_tracker::domain::AggregateId;

#[test]
fn test_category_new_success() {
    let user_id = UserId::new();
    let category_name = CategoryName::from_str("hoge").unwrap();

    let result = Category::new(user_id, category_name);
    assert!(!result.category_id().to_string().is_empty())
}

#[test]
fn test_category_from_success() {
    let category_id = CategoryId::new();
    let user_id = UserId::new();
    let category_name = CategoryName::from_str("hoge").unwrap();

    let result = Category::from(category_id.clone(), user_id, category_name);

    assert_eq!(category_id.value(), result.category_id().value())
}

#[test]
fn category_keeps_its_parts() {
    let category_id = CategoryId::from(7);
    let user_id = UserId::from(9);
    let name = CategoryName::new("food").unwrap();
    let category = Category::from(category_id.clone(), user_id.clone(), name.clone());
    assert_eq!(category.category_id(), &category_id);
    assert_eq!(category.user_id(), &user_id);
    assert_eq!(category.category_name(), &name);
    let fresh = Category::new(user_id.clone(), name.clone());
    assert_eq!(fresh.user_id(), &user_id);
    assert_eq!(fresh.category_name(), &name);
    assert!(fresh.category_id().value().starts_with("ctg_"));
}
