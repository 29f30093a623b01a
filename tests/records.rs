use clipstash::clip::{ClipId, DbId};
use clipstash::field::{Content, Expires, Hits, Password, Posted, ShortCode, Title};
use clipstash::maintenance::delete_expired;
use clipstash::model;
use clipstash::model::RevocationStatus;
use clipstash::service::check_password;
use clipstash::error::ServiceError;
use clipstash::{Clip, ClipError, Time};
use std::str::FromStr;

fn record(id: &str, content: &str, hits: i64) -> model::Clip {
    model::Clip {
        clip_id: id.to_string(),
        shortcode: "abc123".to_string(),
        content: content.to_string(),
        title: Some("Test Clip".to_string()),
        posted: 862070800,
        expires: Some(862060800),
        password: Some("password".to_string()),
        hits,
    }
}

const ID: &str = "01234567-89ab-cdef-0123-456789abcdef";

#[test]
fn test_try_from_clip() {
    let result = Clip::from_record(record(ID, "Hello, world!", 10)).unwrap();

    assert_eq!(result.clip_id, ClipId::new(DbId::from_str(ID).unwrap()));
    assert_eq!(result.shortcode, ShortCode::from("abc123"));
    assert_eq!(result.content, Content::new("Hello, world!").unwrap());
    assert_eq!(result.title, Title::new(Some("Test Clip".to_string())));
    assert_eq!(result.posted, Posted::new(Time::from_seconds(862070800)));
    assert_eq!(result.expires, Expires::new(Some(Time::from_seconds(862060800))));
    assert_eq!(result.password, Password::new(Some("password".to_string())).unwrap());
    assert_eq!(result.hits, Hits::new(10));
}

#[test]
fn records_are_checked_in_order() {
    assert!(matches!(Clip::from_record(record("nope", "", -1)), Err(ClipError::Id(_))));
    assert_eq!(Clip::from_record(record(ID, " ", -1)).unwrap_err(), ClipError::EmptyContent);
    assert!(matches!(Clip::from_record(record(ID, "x", -1)), Err(ClipError::Hits(_))));
}

fn clip_expiring(code: &str, expires: Option<i64>) -> Clip {
    Clip {
        clip_id: ClipId::default(),
        shortcode: ShortCode::from(code),
        content: Content::new("text").unwrap(),
        title: Title::default(),
        posted: Posted::new(Time::from_seconds(0)),
        expires: Expires::new(expires.map(Time::from_seconds)),
        password: Password::default(),
        hits: Hits::new(0),
    }
}

#[test]
fn sweep_deletes_what_expired_by_now() {
    let mut clips = vec![
        clip_expiring("past", Some(50)),
        clip_expiring("never", None),
        clip_expiring("now", Some(100)),
        clip_expiring("later", Some(101)),
    ];
    let deleted = delete_expired(&mut clips, Time::from_seconds(100));
    assert_eq!(deleted, 2);
    let left: Vec<&str> = clips.iter().map(|c| c.shortcode.as_str()).collect();
    assert_eq!(left, vec!["never", "later"]);
}

#[test]
fn sweep_of_nothing_deletes_nothing() {
    let mut clips: Vec<Clip> = Vec::new();
    assert_eq!(delete_expired(&mut clips, Time::from_seconds(0)), 0);
}

#[test]
fn protected_clip_needs_its_password() {
    let clip = Clip::from_record(record(ID, "secret", 0)).unwrap();
    let wrong = Password::new(Some("guess".to_string())).unwrap();
    match check_password(clip.clone(), &wrong) {
        Err(ServiceError::PermissionError(m)) => assert_eq!(m, "Invalid password"),
        other => panic!("unexpected {:?}", other),
    }
    assert!(check_password(clip.clone(), &Password::default()).is_err());
    let right = Password::new(Some("password".to_string())).unwrap();
    assert_eq!(check_password(clip, &right).unwrap().content.as_str(), "secret");
}

#[test]
fn open_clip_goes_to_anyone() {
    let clip = clip_expiring("open", None);
    let any = Password::new(Some("whatever".to_string())).unwrap();
    assert!(check_password(clip, &any).is_ok());
}

#[test]
fn revocation_status_follows_rows_removed() {
    assert_eq!(RevocationStatus::from_rows_affected(0), RevocationStatus::NotFound);
    assert_eq!(RevocationStatus::from_rows_affected(1), RevocationStatus::Revoked);
    assert_eq!(RevocationStatus::from_rows_affected(7), RevocationStatus::Revoked);
}
