use file_scanner::util::{
    download_path, epoch_seconds_minus_minutes, from_string_to_uuid, generate_random_token,
    get_unix_epoch_time_as_seconds, get_unix_epoch_time_minus_minutes_as_seconds,
    minus_minutes_from_reading,
    standardize_email, uuid_from_parsed, MalformedUuid, TOKEN_LENGTH,
};
use uuid::Uuid;

#[test]
fn a_uuid_is_valid() {
    let uuid = Uuid::new_v4();

    assert_eq!(uuid.as_u128(), from_string_to_uuid(&uuid.to_string()).unwrap());
}

#[test]
fn get_unix_epoch_time_as_seconds_works() {
    let secs = get_unix_epoch_time_as_seconds();
    println!("{:?}", secs);
}

#[test]
fn get_unix_epoch_time_minus_minutes_as_seconds_works() {
    let minus_five_minutes = get_unix_epoch_time_minus_minutes_as_seconds(5).unwrap();
    assert!((get_unix_epoch_time_as_seconds().unwrap() + (5 * 60)) >= minus_five_minutes);
}

#[test]
fn generate_random_token_works() {
    generate_random_token();
}

#[test]
fn standardize_email_works() {
    standardize_email(generate_random_token().as_str());
}

#[test]
fn random_tokens_are_fifty_letters_and_digits() {
    let token = generate_random_token();
    assert_eq!(token.chars().count(), TOKEN_LENGTH);
    assert_eq!(TOKEN_LENGTH, 50);
    assert!(token.chars().all(|c| c.is_ascii_alphanumeric()));
}

#[test]
fn standardized_email_is_lower_case() {
    assert_eq!(standardize_email("John.Doe@Example.COM"), "john.doe@example.com");
    assert_eq!(standardize_email("already@lower.case"), "already@lower.case");
}

#[test]
fn minutes_are_taken_off_as_seconds() {
    assert_eq!(epoch_seconds_minus_minutes(10_000, 15), 10_000 - 900);
    assert_eq!(epoch_seconds_minus_minutes(900, 15), 0);
    assert_eq!(epoch_seconds_minus_minutes(123, 0), 123);
}

#[test]
fn impossible_minute_offsets_give_none() {
    assert_eq!(get_unix_epoch_time_minus_minutes_as_seconds(-1), None);
    assert_eq!(get_unix_epoch_time_minus_minutes_as_seconds(i64::MAX), None);
}

#[test]
fn known_uuid_reads_as_its_value() {
    assert_eq!(
        from_string_to_uuid("550e8400-e29b-41d4-a716-446655440000"),
        Ok(0x550e8400_e29b_41d4_a716_446655440000u128)
    );
    assert_eq!(
        from_string_to_uuid("550E8400E29B41D4A716446655440000"),
        Ok(0x550e8400_e29b_41d4_a716_446655440000u128)
    );
}

#[test]
fn malformed_uuid_is_refused() {
    assert_eq!(from_string_to_uuid("not a uuid"), Err(MalformedUuid));
    assert_eq!(from_string_to_uuid(""), Err(MalformedUuid));
    assert_eq!(from_string_to_uuid("550e8400-e29b-41d4-a716-44665544000g"), Err(MalformedUuid));
}

#[test]
fn parsed_uuid_outcome() {
    assert_eq!(uuid_from_parsed(Some(5)), Ok(5));
    assert_eq!(uuid_from_parsed(None), Err(MalformedUuid));
}

#[test]
fn download_path_joins_with_a_slash() {
    assert_eq!(download_path("/var/scans", "abc"), "/var/scans/abc");
    assert_eq!(download_path("", "x"), "/x");
}

#[test]
fn minutes_off_a_clock_reading() {
    assert_eq!(minus_minutes_from_reading(Some(10_000), 15), Some(9_100));
    assert_eq!(minus_minutes_from_reading(Some(900), 15), Some(0));
    assert_eq!(minus_minutes_from_reading(Some(899), 15), None);
    assert_eq!(minus_minutes_from_reading(Some(10_000), -1), None);
    assert_eq!(minus_minutes_from_reading(None, 5), None);
}
