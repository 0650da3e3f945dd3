use chronolab_state::{
    decode_request, encode_state, request_key, AppState, AppStateField, DateTimeError,
    DateTimeParts, FieldKey, IsModifiedSinceLastSave, IsMultiwindow, JsonValue, LocalDateTime,
    SafePath, ValueKind,
};

#[test]
fn nullable_datetime_empty_is_none() {
    assert_eq!(LocalDateTime::parse_nullable(""), Ok(None));
}

#[test]
fn nullable_datetime_strips_zone_marker() {
    let t = LocalDateTime::parse_nullable("2024-01-01T00:00:00.000Z").unwrap().unwrap();
    assert_eq!(t.text(), "2024-01-01T00:00:00.000");
    assert_eq!(
        t.parts(),
        DateTimeParts { year: 2024, month: 1, day: 1, hour: 0, minute: 0, second: 0, nanosecond: 0 }
    );
}

#[test]
fn nullable_datetime_reads_fields() {
    let t = LocalDateTime::parse_nullable("1999-12-31T23:58:57.123").unwrap().unwrap();
    assert_eq!(
        t.parts(),
        DateTimeParts {
            year: 1999,
            month: 12,
            day: 31,
            hour: 23,
            minute: 58,
            second: 57,
            nanosecond: 123_000_000,
        }
    );
    let u = LocalDateTime::parse_nullable("2020-02-29T01:02:03").unwrap().unwrap();
    assert_eq!(u.parts().day, 29);
    assert_eq!(u.parts().nanosecond, 0);
}

#[test]
fn nullable_datetime_rejects_bad_text() {
    assert_eq!(LocalDateTime::parse_nullable("not-a-date"), Err(DateTimeError::Unparsable));
    assert_eq!(LocalDateTime::parse_nullable("Z"), Err(DateTimeError::Unparsable));
    assert_eq!(
        LocalDateTime::parse_nullable("2024-01-01T00:00:00.000ZZ"),
        Err(DateTimeError::Unparsable)
    );
    assert_eq!(
        LocalDateTime::parse_nullable("2023-02-30T00:00:00.000"),
        Err(DateTimeError::Unparsable)
    );
}

#[test]
fn safe_path_rejects_parent_components() {
    assert!(SafePath::new("..".to_string()).is_none());
    assert!(SafePath::new("../a".to_string()).is_none());
    assert!(SafePath::new("/a/../b".to_string()).is_none());
    assert!(SafePath::new("/a/..".to_string()).is_none());
    assert!(SafePath::new("C:\\a\\..\\b".to_string()).is_none());
    assert!(SafePath::new("a\\..\\b".to_string()).is_none());
}

#[test]
fn safe_path_accepts_dots_inside_names() {
    for p in ["", "/a/b.csv", "a..b", "/a/...", "./a", "/a/..b/c", ".hidden"] {
        assert_eq!(SafePath::new(p.to_string()).unwrap().as_str(), p);
    }
}

#[test]
fn field_names() {
    let names: Vec<String> = FieldKey::all().iter().map(|k| k.name()).collect();
    assert_eq!(
        names,
        vec![
            "saveFilePath",
            "csvFilePath",
            "loadCsvSettings",
            "videoFilePath",
            "videoStartTime",
            "isMultiwindow",
            "isModifiedSinceLastSave",
        ]
    );
    assert_eq!(FieldKey::VideoStartTime.event_name(), "state-change--video-start-time");
    assert_eq!(FieldKey::VideoStartTime.document_key(), "video_start_time");
    assert_eq!(FieldKey::IsMultiwindow.kind(), ValueKind::Flag);
    assert_eq!(FieldKey::from_name("loadCsvSettings"), Some(FieldKey::LoadCsvSettings));
    assert_eq!(FieldKey::from_name("LoadCsvSettings"), None);
}

#[test]
fn encode_state_lists_fields_in_schema_order() {
    let state = AppState::new();
    match encode_state(&state) {
        JsonValue::Object(members) => {
            let keys: Vec<&str> = members.iter().map(|(k, _)| k.as_str()).collect();
            assert_eq!(
                keys,
                vec![
                    "save_file_path",
                    "csv_file_path",
                    "load_csv_settings",
                    "video_file_path",
                    "video_start_time",
                    "is_multiwindow",
                    "is_modified_since_last_save",
                ]
            );
            assert_eq!(members[5].1, JsonValue::Bool(false));
            assert_eq!(members[0].1, JsonValue::Null);
        }
        _ => panic!("the saved form is an object"),
    }
}

#[test]
fn decode_request_reads_typed_value() {
    let request = JsonValue::Object(vec![(
        "isMultiwindow".to_string(),
        JsonValue::Object(vec![("value".to_string(), JsonValue::Bool(true))]),
    )]);
    assert_eq!(
        decode_request(&request),
        Ok(AppStateField::IsMultiwindow { value: IsMultiwindow(true) })
    );
    assert_eq!(request_key(&request), Ok(FieldKey::IsMultiwindow));
}

#[test]
fn newtype_conversions() {
    assert_eq!(IsMultiwindow::from(true), IsMultiwindow(true));
    assert!(bool::from(IsModifiedSinceLastSave(true)));
    assert_eq!(IsMultiwindow::default(), IsMultiwindow(false));
    assert_eq!(IsModifiedSinceLastSave::default(), IsModifiedSinceLastSave(false));
    assert_eq!(AppState::default(), AppState::new());
}
