use std::str::FromStr;

use clipstash::clip::{ClipId, DbId};
use clipstash::field::{Content, Expires, Hits, Password, Posted, ShortCode, Title};
use clipstash::form::ValueField;
use clipstash::{ClipError, Time};

const CODE_CHARS: [char; 8] = ['a', 'b', 'c', 'd', '1', '2', '3', '4'];

#[test]
fn test_new_content() {
    let content = Content::new("Hello, world!").unwrap();
    assert_eq!(content.as_str(), "Hello, world!");
}

#[test]
fn test_empty_content() {
    let result = Content::new("");
    assert!(result.is_err());
    assert_eq!(result.unwrap_err(), ClipError::EmptyContent);
}

#[test]
fn blank_content_is_refused() {
    assert_eq!(Content::new(" \t\n\u{a0}").unwrap_err(), ClipError::EmptyContent);
    assert_eq!(Content::new("  x ").unwrap().as_str(), "  x ");
}

#[test]
fn content_test_into_inner() {
    let content = Content::new("Hello, world!").unwrap();
    let inner = content.into_inner();
    assert_eq!(inner, "Hello, world!");
}

#[test]
fn content_test_from_value() {
    let field = ValueField::parse("content=Hello, world!");
    let expected = Content::new("Hello, world!").unwrap();
    let result = Content::from_value(field);
    assert!(result.is_ok());
    assert_eq!(result.unwrap(), expected);
}

#[test]
fn test_hits_new() {
    let hits = Hits::new(10);
    assert_eq!(hits.into_inner(), 10);
}

#[test]
fn test_hits_into_inner() {
    let hits = Hits::new(5);
    assert_eq!(hits.into_inner(), 5);
}

#[test]
fn test_new_password() {
    let password = Password::new(Some("password123".to_string())).unwrap();
    assert_eq!(password.has_password(), true);
    assert_eq!(password.into_inner().unwrap(), "password123".to_string());

    let password = Password::new(Some("".to_string())).unwrap();
    assert_eq!(password.has_password(), false);
    assert_eq!(password.into_inner(), None);

    let password = Password::new(None).unwrap();
    assert_eq!(password.has_password(), false);
    assert_eq!(password.into_inner(), None);
}

#[test]
fn test_default_password() {
    let password = <Password as std::default::Default>::default();
    assert_eq!(password.has_password(), false);
    assert_eq!(password.into_inner(), None);
}

#[test]
fn test_from_str_password() {
    let password: Password = "password123".parse().unwrap();
    assert_eq!(password.has_password(), true);
    assert_eq!(password.into_inner().unwrap(), "password123");

    let password: Password = "".parse().unwrap();
    assert_eq!(password.has_password(), false);
    assert_eq!(password.into_inner(), None);
}

#[test]
fn password_test_from_value() {
    let field = ValueField::parse("password=123");
    let result = Password::from_value(field);
    let expected = Password::new(Some("123".to_string())).unwrap();
    assert!(result.is_ok());
    assert_eq!(result.unwrap(), expected);
}

#[test]
fn shortcode_test_new() {
    let shortcode = ShortCode::new();
    assert_eq!(shortcode.as_str().len(), 10);
    assert!(shortcode.as_str().chars().all(|c| CODE_CHARS.contains(&c)));
}

#[test]
fn test_as_str() {
    let shortcode = ShortCode::from("abcd1234ef");
    assert_eq!(shortcode.as_str(), "abcd1234ef");
}

#[test]
fn shortcode_test_into_inner() {
    let shortcode = ShortCode::from("abcd1234ef");
    let inner = shortcode.into_inner();
    assert_eq!(inner, "abcd1234ef");
}

#[test]
fn shortcode_test_default() {
    let shortcode = ShortCode::default();
    assert_eq!(shortcode.as_str().len(), 10);
}

#[test]
fn test_from() {
    let shortcode = ShortCode::new();
    let string: String = shortcode.clone().into();
    assert_eq!(string.len(), 10);
    assert!(string.chars().all(|c| CODE_CHARS.contains(&c)));

    let shortcode_from_str = ShortCode::from(shortcode.as_str());
    assert_eq!(shortcode_from_str, shortcode);
}

#[test]
fn shortcode_test_from_str() {
    let shortcode = ShortCode::new();
    let shortcode_from_str = ShortCode::from_str(shortcode.as_str()).unwrap();
    assert_eq!(shortcode_from_str, shortcode);
}

#[test]
fn test_from_param() {
    let shortcode = ShortCode::new();
    let shortcode_from_param = ShortCode::from_param(shortcode.as_str()).unwrap();
    assert_eq!(shortcode_from_param, shortcode);
}

#[test]
fn test_new_title_with_valid_string() {
    let title = Title::new(Some("Valid Title".to_string()));
    assert_eq!(title.into_inner(), Some("Valid Title".to_string()));
}

#[test]
fn test_new_title_with_empty_string() {
    let title = Title::new(Some("".to_string()));
    assert_eq!(title.into_inner(), None);
}

#[test]
fn test_new_title_with_none() {
    let title = Title::new(None);
    assert_eq!(title.into_inner(), None);
}

#[test]
fn test_default_title() {
    let title = <Title as std::default::Default>::default();
    assert_eq!(title.into_inner(), None);
}

#[test]
fn test_from_str_with_valid_string() {
    let title = Title::from_str("Valid Title").unwrap();
    assert_eq!(title.into_inner(), Some("Valid Title".to_string()));
}

#[test]
fn test_from_str_with_empty_string() {
    let title = Title::from_str("").unwrap();
    assert_eq!(title.into_inner(), None);
}

#[test]
fn test_from_str_with_none() {
    let title = Title::from_str("None").unwrap();
    assert_eq!(title.into_inner(), Some("None".to_string()));
}

#[test]
fn title_test_from_value() {
    let field = ValueField::parse("title=Title");
    let result = Title::from_value(field);
    let expected = Title::from_str("Title").unwrap();
    assert!(result.is_ok());
    assert_eq!(result.unwrap(), expected);
}

#[test]
fn blank_title_is_no_title() {
    assert_eq!(Title::new(Some("   ".to_string())).into_inner(), None);
}

#[test]
fn value_field_splits_at_first_equals() {
    let field = ValueField::parse("a=b=c");
    assert_eq!(field.name, "a");
    assert_eq!(field.value, "b=c");
    let field = ValueField::parse("plain");
    assert_eq!(field.name, "plain");
    assert_eq!(field.value, "");
}

#[test]
fn expires_test_new() {
    let expires = Expires::new(Some(Time::from_seconds(3600)));
    assert_eq!(expires.into_inner(), Some(Time::from_seconds(3600)));

    let expires = Expires::new(None);
    assert_eq!(expires.into_inner(), None);
}

#[test]
fn expires_test_default() {
    let expires = <Expires as std::default::Default>::default();
    assert_eq!(expires.into_inner(), None);
}

#[test]
fn expires_test_from_str() {
    let expires = Expires::from_str("");
    assert_eq!(expires.unwrap().into_inner(), None);
}

#[test]
fn expires_test_from_value() {
    let field = ValueField::parse("expires=1997-05-01");
    let result = Expires::from_value(field);
    let expected = Expires::from_str("1997-05-01").unwrap();
    assert!(result.is_ok());
    assert_eq!(result.unwrap(), expected);
}

#[test]
fn expires_reads_midnight_utc() {
    let expires = Expires::from_str("1997-05-01").unwrap();
    assert_eq!(expires.into_inner(), Some(Time::from_seconds(862444800)));
}

#[test]
fn expires_refuses_a_bad_date() {
    assert!(matches!(Expires::from_str("soon"), Err(ClipError::DateParse(_))));
    let blank = Expires::from_value(ValueField::parse("expires=  ")).unwrap();
    assert_eq!(blank.into_inner(), None);
}

#[test]
fn expiry_is_inclusive() {
    let now = Time::from_seconds(1000);
    assert!(Expires::new(Some(Time::from_seconds(1000))).has_expired_at(now));
    assert!(Expires::new(Some(Time::from_seconds(999))).has_expired_at(now));
    assert!(!Expires::new(Some(Time::from_seconds(1001))).has_expired_at(now));
    assert!(!Expires::new(None).has_expired_at(now));
}

#[test]
fn posted_test_into_inner() {
    let time_str = "1997-05-01";
    let time = Time::from_str(time_str).unwrap();
    let posted = Posted::new(time.clone());
    assert_eq!(posted.into_inner(), time);
}

#[test]
fn test_timestamp() {
    let time = Time::from_seconds(1_700_000_000);
    assert_eq!(time.timestamp(), 1_700_000_000);
}

#[test]
fn time_test_from_str() {
    let time_str = "1997-05-01";
    let expected_time = Time::from_seconds(862444800);
    assert_eq!(time_str.parse::<Time>().unwrap(), expected_time);
}

#[test]
fn test_new_db_id() {
    let id1 = DbId::new();
    let id2 = DbId::new();
    assert_ne!(id1, id2);
}

#[test]
fn test_nil_db_id() {
    let id = DbId::nil();
    assert_eq!(id, DbId::from_str("00000000-0000-0000-0000-000000000000").unwrap());
}

#[test]
fn test_db_id_from_string() {
    let id_str = "01234567-89ab-cdef-0123-456789abcdef";
    let id = DbId::from_str(id_str).unwrap();
    assert_eq!(String::from(id), id_str);
    assert!(DbId::from_str("not-a-uuid").is_err());
}

#[test]
fn test_db_id_to_string() {
    let id_str = "01234567-89ab-cdef-0123-456789abcdef";
    let id = DbId::from_str(id_str).unwrap();
    assert_eq!(String::from(id), id_str);
}

#[test]
fn test_clip_id_new() {
    let db_id: DbId = DbId::new();
    let clip_id = ClipId::new(db_id.clone());
    assert_eq!(clip_id.into_inner(), db_id);
}

#[test]
fn test_clip_id_from() {
    let db_id = DbId::new();
    let clip_id = ClipId::from(db_id.clone());
    assert_eq!(clip_id.into_inner(), db_id);
}

#[test]
fn test_clip_id_default() {
    let clip_id = ClipId::default();
    assert_eq!(clip_id.into_inner(), DbId::nil());
}
