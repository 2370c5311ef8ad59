use sqlite_backend::ids::StreamItemId;
use sqlite_backend::jobs::change_marker_cutoff;
use sqlite_backend::sql::{
    blob, flag, integer, optional_integer, optional_seconds, optional_text, text, SqlValue,
};
use sqlite_backend::text::{
    decimal_text, decimal_text_u128, hexadecimal_text, parse_decimal, parse_hexadecimal,
    signed_decimal_text, DecimalError,
};
use sqlite_backend::types::{StreamDataType, StreamRetentionDuration, TableStatus};

#[test]
fn numbers_are_written_as_std_writes_them() {
    for n in [0, 7, 10, 4096, u64::MAX] {
        assert_eq!(decimal_text(n), n.to_string());
        assert_eq!(parse_decimal(&n.to_string()), Ok(n));
    }
    assert_eq!(decimal_text_u128(u128::MAX), u128::MAX.to_string());
    for n in [0, -1, 42, i64::MAX, i64::MIN] {
        assert_eq!(signed_decimal_text(n), n.to_string());
    }
    assert_eq!(hexadecimal_text(0xabc, 6), format!("{:06x}", 0xabc));
}

#[test]
fn numbers_are_read_as_std_reads_them() {
    assert_eq!(parse_decimal(""), Err(DecimalError::Empty));
    assert_eq!(parse_decimal("1x"), Err(DecimalError::InvalidDigit));
    assert_eq!(parse_decimal("-1"), Err(DecimalError::InvalidDigit));
    assert_eq!(parse_decimal("18446744073709551616"), Err(DecimalError::Overflow));
    assert_eq!(parse_decimal("007"), Ok(7));
    for s in ["", "+", "+5", "1x", "99999999999999999999999", "99999999999999999999999x"] {
        assert_eq!(parse_decimal(s).ok(), s.parse::<u64>().ok());
    }
}

#[test]
fn hexadecimal_digits_are_read() {
    assert_eq!(parse_hexadecimal("00ff"), Some(255));
    assert_eq!(parse_hexadecimal("fg"), None);
}

#[test]
fn stream_item_ids_round_trip_through_text() {
    for id in [
        StreamItemId::nil(),
        StreamItemId::from_version(1),
        StreamItemId { high: 0xdead_beef, low: 0x0123_4567_89ab_cdef },
        StreamItemId::max(),
    ] {
        assert_eq!(id.to_text().len(), 24);
        assert_eq!(StreamItemId::parse(&id.to_text()), Some(id));
    }
    assert_eq!(
        StreamItemId { high: 0xdead_beef, low: 0x0123_4567_89ab_cdef }.to_text(),
        "deadbeef0123456789abcdef"
    );
    assert_eq!(StreamItemId::parse("12"), None);
    assert_eq!(StreamItemId::parse("zz0000000000000000000000"), None);
}

#[test]
fn stream_item_ids_sort_as_their_texts() {
    let mut ids = vec![
        StreamItemId::max(),
        StreamItemId::from_version(10),
        StreamItemId { high: 1, low: 0 },
        StreamItemId::from_version(9),
        StreamItemId::nil(),
    ];
    ids.sort_by_key(|id| id.to_text());
    assert_eq!(
        ids,
        vec![
            StreamItemId::nil(),
            StreamItemId::from_version(9),
            StreamItemId::from_version(10),
            StreamItemId { high: 1, low: 0 },
            StreamItemId::max(),
        ]
    );
}

#[test]
fn ids_of_uuids_keep_their_order() {
    let uuid = uuid::Uuid::parse_str("00112233-4455-6677-8899-aabbccddeeff").unwrap();
    assert_eq!(
        StreamItemId::from_uuid(uuid.as_u128()).to_text(),
        "00112233445566778899aabb"
    );
    assert_eq!(StreamItemId::from_uuid(uuid::Uuid::max().as_u128()), StreamItemId::max());
    assert_eq!(StreamItemId::from_uuid(uuid::Uuid::nil().as_u128()), StreamItemId::nil());
}

#[test]
fn ids_are_followed_by_the_next_one() {
    assert_eq!(StreamItemId::from_version(1).increment(), StreamItemId::from_version(2));
    assert_eq!(
        StreamItemId::from_version(u64::MAX).increment(),
        StreamItemId { high: 1, low: 0 }
    );
    assert_eq!(StreamItemId::max().increment(), StreamItemId::max());
    assert_eq!(StreamItemId::from_version(77).version(), 77);
}

#[test]
fn data_types_have_codes() {
    for (data_type, code) in [
        (StreamDataType::Text, 0),
        (StreamDataType::DynamoDbJson, 1),
        (StreamDataType::StreamPointer, 2),
        (StreamDataType::DeleteMarker, 3),
    ] {
        assert_eq!(data_type.code(), code);
        assert_eq!(StreamDataType::from_code(code), data_type);
    }
    assert_eq!(StreamDataType::from_code(9), StreamDataType::Text);
}

#[test]
fn durations_and_statuses_have_stored_forms() {
    assert_eq!(StreamRetentionDuration::Forever.as_hours_wire_value(), -1);
    assert_eq!(StreamRetentionDuration::FiniteHours(72).as_hours_wire_value(), 72);
    assert_eq!(TableStatus::Creating.name(), "CREATING");
    assert_eq!(TableStatus::Updating.name(), "UPDATING");
    assert_eq!(TableStatus::Deleting.name(), "DELETING");
    assert_eq!(TableStatus::Active.name(), "ACTIVE");
}

#[test]
fn values_are_bound_as_they_are() {
    assert_eq!(text("a"), SqlValue::Text("a".to_string()));
    assert_eq!(integer(-3), SqlValue::Integer(-3));
    assert_eq!(optional_text(None), SqlValue::Null);
    assert_eq!(optional_text(Some("a")), SqlValue::Text("a".to_string()));
    assert_eq!(flag(true), SqlValue::Integer(1));
    assert_eq!(flag(false), SqlValue::Integer(0));
    assert_eq!(optional_seconds(Some(60)), SqlValue::Integer(60));
    assert_eq!(optional_integer(None), SqlValue::Null);
    assert_eq!(blob(b"ab"), SqlValue::Blob(b"ab".to_vec()));
}

#[test]
fn change_markers_are_kept_for_a_while() {
    assert_eq!(change_marker_cutoff(1000, 400), 600);
    assert_eq!(change_marker_cutoff(100, 400), -300);
    assert_eq!(change_marker_cutoff(i64::MIN, 1), i64::MIN);
}
