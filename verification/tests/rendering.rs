use chrono::{DateTime, Utc};
use user_service::render::{compose_list, compose_record};
use user_service::Timestamp;

/// A record as the service's callers know it, with real date-times: its
/// derived debug notation is what the library's rendering must produce.
#[derive(Debug)]
struct User {
    id: u32,
    name: String,
    mailadress: String,
    password: String,
    created_at: DateTime<Utc>,
    updated_at: DateTime<Utc>,
    deleted_at: Option<DateTime<Utc>>,
}

fn pair(
    id: u32,
    name: &str,
    mailadress: &str,
    password: &str,
    created: i64,
    updated: i64,
    deleted: Option<i64>,
) -> (user_service::User, User) {
    let date = |micros: i64| DateTime::<Utc>::from_timestamp_micros(micros).unwrap();
    (
        user_service::User {
            id,
            name: name.to_string(),
            mailadress: mailadress.to_string(),
            password: password.to_string(),
            created_at: Timestamp { micros: created },
            updated_at: Timestamp { micros: updated },
            deleted_at: deleted.map(|micros| Timestamp { micros }),
        },
        User {
            id,
            name: name.to_string(),
            mailadress: mailadress.to_string(),
            password: password.to_string(),
            created_at: date(created),
            updated_at: date(updated),
            deleted_at: deleted.map(date),
        },
    )
}

#[test]
fn compose_record_puts_the_fields_in_order() {
    assert_eq!(
        compose_record(7, "N", "M", "P", "C", "U", None),
        "User { id: 7, name: N, mailadress: M, password: P, created_at: C, updated_at: U, deleted_at: None }"
    );
    assert_eq!(
        compose_record(4_294_967_295, "", "", "", "", "", Some("D")),
        "User { id: 4294967295, name: , mailadress: , password: , created_at: , updated_at: , deleted_at: Some(D) }"
    );
    assert_eq!(
        compose_record(0, "a", "b", "c", "d", "e", Some("")),
        "User { id: 0, name: a, mailadress: b, password: c, created_at: d, updated_at: e, deleted_at: Some() }"
    );
}

#[test]
fn compose_list_separates_items_by_comma_and_space() {
    assert_eq!(compose_list(&vec![]), "[]");
    assert_eq!(compose_list(&vec!["a".to_string()]), "[a]");
    assert_eq!(compose_list(&vec!["a".to_string(), "b".to_string()]), "[a, b]");
    assert_eq!(
        compose_list(&vec!["a".to_string(), String::new(), "c".to_string()]),
        "[a, , c]"
    );
    assert_eq!(compose_list(&vec![String::new()]), "[]");
}

#[test]
fn debug_text_quotes_strings_and_dates_timestamps() {
    let (user, _) = pair(1, "a", "a@x.com", "p", 1_577_836_800_000_000, 1_577_836_800_000_001, None);
    assert_eq!(
        user.debug_text().unwrap(),
        "User { id: 1, name: \"a\", mailadress: \"a@x.com\", password: \"p\", \
         created_at: 2020-01-01T00:00:00Z, updated_at: 2020-01-01T00:00:00.000001Z, \
         deleted_at: None }"
    );
}

#[test]
fn debug_text_escapes_what_a_string_holds() {
    let (user, mirror) = pair(2, "a \"b\"", "back\\slash", "line\nbreak\ttab é", 0, 1_000, Some(-1));
    let text = user.debug_text().unwrap();
    assert_eq!(text, format!("{:?}", mirror));
    assert!(text.contains("name: \"a \\\"b\\\"\""));
    assert!(text.contains("mailadress: \"back\\\\slash\""));
    assert!(text.contains("password: \"line\\nbreak\\ttab é\""));
    assert!(text.contains("updated_at: 1970-01-01T00:00:00.001Z"));
    assert!(text.ends_with("deleted_at: Some(1969-12-31T23:59:59.999999Z) }"));
}

#[test]
fn debug_text_agrees_with_the_derived_notation() {
    let cases = [
        (1, "a", "a@x.com", "p", 0, 0, None),
        (2, "", "", "", 1, 2, Some(3)),
        (3, "Ünïcödé", "x@y.z", "p w", 1_700_000_000_123_456, 1_700_000_000_123_000, Some(0)),
        (u32::MAX, "n", "m", "p", -62_135_596_800_000_000, 253_402_300_799_999_999, None),
        (5, "n", "m", "p", -62_167_219_200_000_001, 253_402_300_800_000_000, Some(951_782_400_000_000)),
    ];
    for (id, name, mail, password, created, updated, deleted) in cases {
        let (user, mirror) = pair(id, name, mail, password, created, updated, deleted);
        assert_eq!(user.debug_text(), Some(format!("{:?}", mirror)));
    }
}

#[test]
fn debug_text_is_none_where_there_is_no_date() {
    let far = i64::MAX;
    let (mut user, _) = pair(1, "a", "a@x.com", "p", 0, 0, Some(0));
    assert!(user.debug_text().is_some());
    user.created_at = Timestamp { micros: far };
    assert_eq!(user.debug_text(), None);
    user.created_at = Timestamp { micros: 0 };
    user.updated_at = Timestamp { micros: i64::MIN };
    assert_eq!(user.debug_text(), None);
    user.updated_at = Timestamp { micros: 0 };
    user.deleted_at = Some(Timestamp { micros: far });
    assert_eq!(user.debug_text(), None);
    user.deleted_at = None;
    assert!(user.debug_text().is_some());
}

#[test]
fn list_debug_text_agrees_with_the_derived_notation() {
    assert_eq!(user_service::User::list_debug_text(&vec![]), Some("[]".to_string()));
    let (u1, m1) = pair(1, "a", "a@x.com", "p", 0, 5, None);
    let (u2, m2) = pair(2, "b", "b@x.com", "q", 10, 10, Some(20));
    let (u3, m3) = pair(9, "c", "c@x.com", "r", 30, 40, None);
    assert_eq!(
        user_service::User::list_debug_text(&vec![u1.clone()]),
        Some(format!("{:?}", vec![&m1]))
    );
    assert_eq!(
        user_service::User::list_debug_text(&vec![u1.clone(), u2.clone(), u3]),
        Some(format!("{:?}", vec![&m1, &m2, &m3]))
    );
    let mut lost = u2;
    lost.created_at = Timestamp { micros: i64::MAX };
    assert_eq!(user_service::User::list_debug_text(&vec![u1, lost]), None);
}
