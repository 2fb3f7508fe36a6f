use taskchampion_py::entries::sorted_entries;
use taskchampion_py::error::{Error, OperationAttribute};
use taskchampion_py::ids::{uuid2tc, uuid_to_string, uuids_to_strings};
use taskchampion_py::status::{Status, StatusValue};
use taskchampion_py::text::{debug_string, join_strings, key_less};
use taskchampion_py::timestamp::Timestamp;

const U1: &str = "a1a2a3a4-b1b2-c1c2-d1d2-d3d4d5d6d7d8";

#[test]
fn uuid_parses_canonical_and_upper_case_text() {
    assert_eq!(uuid2tc(U1), Ok(0xa1a2a3a4b1b2c1c2d1d2d3d4d5d6d7d8));
    assert_eq!(
        uuid2tc("A1A2A3A4-B1B2-C1C2-D1D2-D3D4D5D6D7D8"),
        Ok(0xa1a2a3a4b1b2c1c2d1d2d3d4d5d6d7d8)
    );
    assert_eq!(uuid2tc("a1a2a3a4b1b2c1c2d1d2d3d4d5d6d7d8"), Ok(0xa1a2a3a4b1b2c1c2d1d2d3d4d5d6d7d8));
}

#[test]
fn uuid_refuses_other_text() {
    assert_eq!(uuid2tc("not-a-uuid"), Err(Error::InvalidUuid));
    assert_eq!(uuid2tc(""), Err(Error::InvalidUuid));
}

#[test]
fn uuid_text_is_hyphenated_lower_case() {
    assert_eq!(uuid_to_string(0xA1A2A3A4B1B2C1C2D1D2D3D4D5D6D7D8), U1);
    assert_eq!(uuid_to_string(0), "00000000-0000-0000-0000-000000000000");
    assert_eq!(uuid_to_string(1234), "00000000-0000-0000-0000-0000000004d2");
    let texts = uuids_to_strings(&vec![1, 2]);
    assert_eq!(
        texts,
        vec![
            "00000000-0000-0000-0000-000000000001".to_string(),
            "00000000-0000-0000-0000-000000000002".to_string()
        ]
    );
}

#[test]
fn uuid_text_parses_back() {
    let v: u128 = 0x0123456789abcdef0123456789abcdef;
    assert_eq!(uuid2tc(&uuid_to_string(v)), Ok(v));
}

#[test]
fn error_messages() {
    assert_eq!(Error::InvalidUuid.message(), "Invalid UUID");
    assert_eq!(
        Error::MissingAttribute(OperationAttribute::Uuid).message(),
        "Variant does not have attribute 'uuid'"
    );
    assert_eq!(
        Error::MissingAttribute(OperationAttribute::OldTask).message(),
        "Variant does not have attribute 'old_task'"
    );
    assert_eq!(
        Error::MissingAttribute(OperationAttribute::Property).message(),
        "Variant does not have attribute 'property'"
    );
    assert_eq!(
        Error::MissingAttribute(OperationAttribute::Timestamp).message(),
        "Variant does not have attribute 'timestamp'"
    );
    assert_eq!(
        Error::MissingAttribute(OperationAttribute::OldValue).message(),
        "Variant does not have attribute 'old_value'"
    );
    assert_eq!(
        Error::MissingAttribute(OperationAttribute::Value).message(),
        "Variant does not have attribute 'value'"
    );
    assert_eq!(Error::IndexOutOfRange.message(), "operation index out of range");
    assert_eq!(Error::InvalidIndexType.message(), "Operations indices must be integers or slices");
    assert_eq!(
        Error::UnknownStatusNotSettable.message(),
        "Status.Unknown cannot be set: the original status string is not preserved on read. Use Task.set_value(\"status\", \"<value>\", ops) to set a custom status."
    );
    assert_eq!(Error::InvalidTag("a b".to_string()).message(), "invalid tag \"a b\"");
    assert_eq!(Error::Runtime("boom".to_string()).message(), "boom");
}

#[test]
fn status_from_stored_value() {
    assert_eq!(Status::from(StatusValue::Pending), Status::Pending);
    assert_eq!(Status::from(StatusValue::Completed), Status::Completed);
    assert_eq!(Status::from(StatusValue::Deleted), Status::Deleted);
    assert_eq!(Status::from(StatusValue::Recurring), Status::Recurring);
    assert_eq!(Status::from(StatusValue::Unknown("wishful".to_string())), Status::Unknown);
}

#[test]
fn status_written_back() {
    assert_eq!(StatusValue::try_from(Status::Pending), Ok(StatusValue::Pending));
    assert_eq!(StatusValue::try_from(Status::Completed), Ok(StatusValue::Completed));
    assert_eq!(StatusValue::try_from(Status::Deleted), Ok(StatusValue::Deleted));
    assert_eq!(StatusValue::try_from(Status::Recurring), Ok(StatusValue::Recurring));
    assert_eq!(StatusValue::try_from(Status::Unknown), Err(Error::UnknownStatusNotSettable));
}

#[test]
fn status_round_trip() {
    for s in [Status::Pending, Status::Completed, Status::Deleted, Status::Recurring] {
        assert_eq!(Status::from(StatusValue::try_from(s).unwrap()), s);
    }
}

#[test]
fn timestamps() {
    let t = Timestamp::new(0, 0).unwrap();
    assert_eq!(t.seconds(), 0);
    assert_eq!(t.nanos(), 0);
    assert_eq!(t.to_rfc3339(), "1970-01-01T00:00:00+00:00");
    let t = Timestamp::new(1_700_000_000, 500_000_000).unwrap();
    assert_eq!(t.to_rfc3339(), "2023-11-14T22:13:20.500+00:00");
    assert!(Timestamp::new(i64::MAX, 0).is_none());
    assert!(Timestamp::new(0, 2_000_000_000).is_none());
}

#[test]
fn quoting_and_joining() {
    assert_eq!(debug_string("a\"b\n"), "\"a\\\"b\\n\"");
    assert_eq!(join_strings(&vec![], ", "), "");
    assert_eq!(join_strings(&vec!["x".to_string()], ", "), "x");
    assert_eq!(join_strings(&vec!["x".to_string(), "y".to_string(), "z".to_string()], "-"), "x-y-z");
}

#[test]
fn key_order() {
    assert!(key_less("a", "b"));
    assert!(!key_less("b", "a"));
    assert!(key_less("a", "ab"));
    assert!(!key_less("ab", "a"));
    assert!(!key_less("same", "same"));
    assert!(key_less("Z", "a"));
    assert!(key_less("\u{e9}", "\u{1f980}"));
    assert_eq!(key_less("\u{e9}", "\u{1f980}"), "\u{e9}".to_string() < "\u{1f980}".to_string());
}

#[test]
fn entries_sorted_by_key() {
    let v = vec![
        ("b".to_string(), "2".to_string()),
        ("c".to_string(), "3".to_string()),
        ("a".to_string(), "1".to_string()),
    ];
    let s = sorted_entries(&v);
    assert_eq!(
        s,
        vec![
            ("a".to_string(), "1".to_string()),
            ("b".to_string(), "2".to_string()),
            ("c".to_string(), "3".to_string())
        ]
    );
    assert_eq!(sorted_entries(&vec![]), vec![]);
}
