use chrono::{DateTime, TimeZone, Utc};
use finance_tracker::domain::user::user_id::UserId;
use finance_tracker::domain::user::User;
use finance_tracker::domain::value_object::timestamp::Timestamp;

fn timestamp(t: DateTime<Utc>) -> Timestamp {
    Timestamp::from_parts(t.timestamp(), t.timestamp_subsec_nanos()).unwrap()
}

#[test]
fn test_user_new_success() {
    let country_id = 1;
    let result = User::new(country_id);

    assert_eq!(country_id, result.country_id());
    assert!(result.created_at() <= &timestamp(Utc::now()));
    assert_eq!(result.created_at(), result.updated_at());
}

#[test]
fn test_user_from_success() {
    let user_id = UserId::new();
    let country_id = 1;
    let created_at = timestamp(Utc.with_ymd_and_hms(2024, 1, 1, 0, 0, 0).unwrap());
    let updated_at = timestamp(Utc.with_ymd_and_hms(2024, 1, 2, 0, 0, 0).unwrap());

    let result = User::from(user_id.clone(), country_id, created_at, updated_at);

    assert_eq!(&user_id, result.user_id());
    assert_eq!(country_id, result.country_id());
    assert_eq!(&created_at, result.created_at());
    assert_eq!(&updated_at, result.updated_at());
}

#[test]
fn test_user_getters_success() {
    let user_id = UserId::new();
    let country_id = 1;
    let created_at = timestamp(Utc.with_ymd_and_hms(2024, 1, 1, 0, 0, 0).unwrap());
    let updated_at = timestamp(Utc.with_ymd_and_hms(2024, 1, 2, 0, 0, 0).unwrap());

    let user = User::from(user_id.clone(), country_id, created_at, updated_at);

    assert_eq!(&user_id, user.user_id());
    assert_eq!(country_id, user.country_id());
    assert_eq!(&created_at, user.created_at());
    assert_eq!(&updated_at, user.updated_at());
}
