use chronolab_state::{
    clear_app_state, get_app_state_field, load_app_state_from_file, save_app_state_to_file,
    set_app_state_field, AppState, AppStateField, CsvFilePath, DecodeCause, FieldKey,
    IsModifiedSinceLastSave, IsMultiwindow, JsonValue, LocalDateTime, SafePath, SaveFilePath,
    StoreError,
};

fn text(s: &str) -> JsonValue {
    JsonValue::String(s.to_string())
}

fn object(members: Vec<(&str, JsonValue)>) -> JsonValue {
    JsonValue::Object(members.into_iter().map(|(k, v)| (k.to_string(), v)).collect())
}

fn set_request(name: &str, value: JsonValue) -> JsonValue {
    object(vec![(name, object(vec![("value", value)]))])
}

fn get_request(name: &str) -> JsonValue {
    object(vec![(name, object(vec![]))])
}

fn path(s: &str) -> SafePath {
    SafePath::new(s.to_string()).unwrap()
}

fn all_values(state: &AppState) -> Vec<JsonValue> {
    FieldKey::all()
        .iter()
        .map(|k| get_app_state_field(state, &get_request(&k.name())).unwrap())
        .collect()
}

#[test]
fn scenario_set_save_clear() {
    let mut state = AppState::new();

    let events = set_app_state_field(&mut state, &set_request("csvFilePath", text("/a.csv"))).unwrap();
    assert_eq!(events.len(), 2);
    assert_eq!(events[0].key(), FieldKey::CsvFilePath);
    assert_eq!(events[0], AppStateField::CsvFilePath { value: Some(CsvFilePath(path("/a.csv"))) });
    assert_eq!(
        events[1],
        AppStateField::IsModifiedSinceLastSave { value: IsModifiedSinceLastSave(true) }
    );
    assert_eq!(events[0].event_name(), "state-change--csv-file-path");
    assert_eq!(events[1].event_name(), "state-change--is-modified-since-last-save");
    assert!(state.is_modified_since_last_save.0);

    assert_eq!(state.save_to_file().unwrap_err(), StoreError::NoSavePath);
    let before = all_values(&state);
    assert_eq!(save_app_state_to_file(&mut state, Ok(())), Err(StoreError::NoSavePath));
    assert_eq!(all_values(&state), before);
    assert!(state.is_modified_since_last_save.0);
    assert_eq!(state.csv_file_path, Some(CsvFilePath(path("/a.csv"))));

    set_app_state_field(&mut state, &set_request("saveFilePath", text("/s.json"))).unwrap();
    let (target, document) = state.save_to_file().unwrap();
    assert_eq!(target.as_str(), "/s.json");
    assert!(matches!(document, JsonValue::Object(_)));
    let events = save_app_state_to_file(&mut state, Ok(())).unwrap();
    assert_eq!(
        events,
        vec![AppStateField::IsModifiedSinceLastSave { value: IsModifiedSinceLastSave(false) }]
    );
    assert!(!state.is_modified_since_last_save.0);

    let events = clear_app_state(&mut state);
    assert_eq!(events.len(), 7);
    assert_eq!(state, AppState::new());
    assert_eq!(state.csv_file_path, None);
    assert_eq!(state.is_multiwindow, IsMultiwindow(false));
    assert!(!state.is_modified_since_last_save.0);
    for (event, key) in events.iter().zip(FieldKey::all()) {
        assert_eq!(event.key(), key);
        assert_eq!(*event, AppState::new().get_field(key));
    }
}

#[test]
fn get_after_set_returns_the_value() {
    let mut state = AppState::new();
    let case = |i: usize| match i {
        0 => ("saveFilePath", text("/s.json")),
        1 => ("csvFilePath", text("/data/a.csv")),
        2 => ("videoFilePath", text("C:\\videos\\v.mp4")),
        3 => ("videoStartTime", text("2024-03-05T06:07:08.900")),
        4 => ("isMultiwindow", JsonValue::Bool(true)),
        5 => ("isModifiedSinceLastSave", JsonValue::Bool(false)),
        _ => ("csvFilePath", JsonValue::Null),
    };
    for i in 0..7 {
        let (name, value) = case(i);
        set_app_state_field(&mut state, &set_request(name, value)).unwrap();
        assert_eq!(get_app_state_field(&state, &get_request(name)).unwrap(), case(i).1);
    }
}

#[test]
fn get_after_set_settings() {
    let mut state = AppState::new();
    let settings = || object(vec![
        ("datetime_index_col", text("time")),
        ("datetime_parsing_format_string", text("%Y-%m-%d %H:%M:%S")),
        ("load_cols", JsonValue::Array(vec![text("a"), text("b")])),
        (
            "time_bounds",
            object(vec![("start_time", text("2024-01-01T00:00:00.000")), ("end_time", JsonValue::Null)]),
        ),
    ]);
    set_app_state_field(&mut state, &set_request("loadCsvSettings", settings())).unwrap();
    assert_eq!(get_app_state_field(&state, &get_request("loadCsvSettings")).unwrap(), settings());
    let stored = state.load_csv_settings.clone().unwrap();
    assert_eq!(stored.datetime_index_col, "time");
    assert_eq!(stored.load_cols, vec!["a".to_string(), "b".to_string()]);
    let bounds = stored.time_bounds.unwrap();
    assert_eq!(bounds.start_time.unwrap().parts().year, 2024);
    assert!(bounds.end_time.is_none());
}

#[test]
fn clear_restores_defaults() {
    let mut state = AppState::new();
    set_app_state_field(&mut state, &set_request("isMultiwindow", JsonValue::Bool(true))).unwrap();
    set_app_state_field(&mut state, &set_request("videoFilePath", text("/v.mp4"))).unwrap();
    clear_app_state(&mut state);
    let expected = vec![
        JsonValue::Null,
        JsonValue::Null,
        JsonValue::Null,
        JsonValue::Null,
        JsonValue::Null,
        JsonValue::Bool(false),
        JsonValue::Bool(false),
    ];
    assert_eq!(all_values(&state), expected);
}

#[test]
fn save_without_path_keeps_dirty_flag() {
    let mut state = AppState::new();
    assert_eq!(state.save_to_file().unwrap_err(), StoreError::NoSavePath);
    assert!(!state.is_modified_since_last_save.0);
    set_app_state_field(&mut state, &set_request("isMultiwindow", JsonValue::Bool(true))).unwrap();
    assert_eq!(state.save_to_file().unwrap_err(), StoreError::NoSavePath);
    assert!(state.is_modified_since_last_save.0);
}

#[test]
fn failed_write_leaves_state_unchanged() {
    let mut state = AppState::new();
    set_app_state_field(&mut state, &set_request("saveFilePath", text("/s.json"))).unwrap();
    let before = all_values(&state);
    let r = save_app_state_to_file(&mut state, Err("disk full".to_string()));
    assert_eq!(r, Err(StoreError::IoFailure { message: "disk full".to_string() }));
    assert_eq!(all_values(&state), before);
    assert!(state.is_modified_since_last_save.0);
}

#[test]
fn save_then_load_round_trip() {
    let mut state = AppState::new();
    set_app_state_field(&mut state, &set_request("csvFilePath", text("/data/a.csv"))).unwrap();
    set_app_state_field(&mut state, &set_request("videoStartTime", text("2024-01-01T10:20:30.456Z")))
        .unwrap();
    set_app_state_field(&mut state, &set_request("isMultiwindow", JsonValue::Bool(true))).unwrap();
    set_app_state_field(
        &mut state,
        &set_request(
            "loadCsvSettings",
            object(vec![
                ("datetime_index_col", text("t")),
                ("datetime_parsing_format_string", text("%s")),
                ("load_cols", JsonValue::Array(vec![text("x")])),
                ("time_bounds", JsonValue::Null),
            ]),
        ),
    )
    .unwrap();
    set_app_state_field(&mut state, &set_request("saveFilePath", text("/p.json"))).unwrap();
    let before = all_values(&state);
    let (target, document) = state.save_to_file().unwrap();
    save_app_state_to_file(&mut state, Ok(())).unwrap();

    let mut other = AppState::new();
    let events = load_app_state_from_file(&mut other, target, &document).unwrap();
    assert_eq!(events.len(), 7);
    let after = all_values(&other);
    for i in 0..6 {
        assert_eq!(after[i], before[i]);
    }
    assert_eq!(after[0], text("/p.json"));
    assert_eq!(after[6], JsonValue::Bool(false));
    assert_eq!(other, state);
}

#[test]
fn load_overrides_save_path_and_clears_dirty_flag() {
    let document = object(vec![
        ("save_file_path", text("/old/place.json")),
        ("is_modified_since_last_save", JsonValue::Bool(true)),
        ("is_multiwindow", JsonValue::Bool(true)),
        ("unknown_key", JsonValue::Number("3".to_string())),
    ]);
    let mut state = AppState::new();
    let events = load_app_state_from_file(&mut state, path("/new/place.json"), &document).unwrap();
    assert_eq!(state.save_file_path, Some(SaveFilePath(path("/new/place.json"))));
    assert!(!state.is_modified_since_last_save.0);
    assert!(state.is_multiwindow.0);
    assert_eq!(state.csv_file_path, None);
    let keys: Vec<FieldKey> = events.iter().map(|e| e.key()).collect();
    assert_eq!(keys, FieldKey::all());
    assert_eq!(events[0], AppStateField::SaveFilePath { value: Some(SaveFilePath(path("/new/place.json"))) });
    assert_eq!(events[6], AppStateField::IsModifiedSinceLastSave { value: IsModifiedSinceLastSave(false) });
}

#[test]
fn load_failure_leaves_state_unchanged() {
    let mut state = AppState::new();
    set_app_state_field(&mut state, &set_request("csvFilePath", text("/a.csv"))).unwrap();
    let before = all_values(&state);
    let bad = object(vec![("video_start_time", text("yesterday"))]);
    let r = load_app_state_from_file(&mut state, path("/x.json"), &bad);
    assert_eq!(
        r,
        Err(StoreError::DecodeError { field: FieldKey::VideoStartTime, cause: DecodeCause::BadDateTime { text: "yesterday".to_string() } })
    );
    assert_eq!(all_values(&state), before);
    let r = load_app_state_from_file(&mut state, path("/x.json"), &JsonValue::Array(vec![]));
    assert_eq!(r, Err(StoreError::Malformed));
    assert_eq!(all_values(&state), before);
}

#[test]
fn load_reports_first_failing_field() {
    let bad = object(vec![
        ("is_multiwindow", text("yes")),
        ("csv_file_path", text("../up.csv")),
    ]);
    let mut state = AppState::new();
    let r = load_app_state_from_file(&mut state, path("/x.json"), &bad);
    assert_eq!(
        r,
        Err(StoreError::DecodeError { field: FieldKey::CsvFilePath, cause: DecodeCause::ParentDirInPath { path: "../up.csv".to_string() } })
    );
}

#[test]
fn setting_dirty_flag_reports_only_itself() {
    let mut state = AppState::new();
    let events =
        set_app_state_field(&mut state, &set_request("isModifiedSinceLastSave", JsonValue::Bool(false)))
            .unwrap();
    assert_eq!(
        events,
        vec![AppStateField::IsModifiedSinceLastSave { value: IsModifiedSinceLastSave(false) }]
    );
    assert!(!state.is_modified_since_last_save.0);
    let events =
        set_app_state_field(&mut state, &set_request("isModifiedSinceLastSave", JsonValue::Bool(true)))
            .unwrap();
    assert_eq!(events.len(), 1);
    assert!(state.is_modified_since_last_save.0);
}

#[test]
fn write_when_already_dirty_reports_one_event() {
    let mut state = AppState::new();
    set_app_state_field(&mut state, &set_request("isMultiwindow", JsonValue::Bool(true))).unwrap();
    let events =
        set_app_state_field(&mut state, &set_request("isMultiwindow", JsonValue::Bool(false))).unwrap();
    assert_eq!(events, vec![AppStateField::IsMultiwindow { value: IsMultiwindow(false) }]);
    assert!(state.is_modified_since_last_save.0);
}

#[test]
fn unknown_field_is_rejected_without_change() {
    let mut state = AppState::new();
    set_app_state_field(&mut state, &set_request("csvFilePath", text("/a.csv"))).unwrap();
    let before = all_values(&state);
    let r = set_app_state_field(&mut state, &set_request("colourScheme", text("dark")));
    assert_eq!(r, Err(StoreError::UnknownField { name: "colourScheme".to_string() }));
    assert_eq!(all_values(&state), before);
    let r = get_app_state_field(&state, &get_request("colourScheme"));
    assert_eq!(r, Err(StoreError::UnknownField { name: "colourScheme".to_string() }));
}

#[test]
fn malformed_requests_are_rejected() {
    let mut state = AppState::new();
    assert_eq!(set_app_state_field(&mut state, &JsonValue::Null), Err(StoreError::Malformed));
    let two = object(vec![("isMultiwindow", object(vec![])), ("csvFilePath", object(vec![]))]);
    assert_eq!(set_app_state_field(&mut state, &two), Err(StoreError::Malformed));
    assert_eq!(get_app_state_field(&state, &object(vec![])), Err(StoreError::Malformed));
    assert_eq!(state, AppState::new());
}

#[test]
fn bad_values_name_the_field() {
    let mut state = AppState::new();
    let r = set_app_state_field(&mut state, &set_request("videoStartTime", text("not-a-date")));
    assert_eq!(
        r,
        Err(StoreError::DecodeError { field: FieldKey::VideoStartTime, cause: DecodeCause::BadDateTime { text: "not-a-date".to_string() } })
    );
    let r = set_app_state_field(&mut state, &set_request("isMultiwindow", text("true")));
    assert_eq!(
        r,
        Err(StoreError::DecodeError { field: FieldKey::IsMultiwindow, cause: DecodeCause::WrongType })
    );
    let r = set_app_state_field(&mut state, &set_request("isMultiwindow", JsonValue::Null));
    assert_eq!(
        r,
        Err(StoreError::DecodeError { field: FieldKey::IsMultiwindow, cause: DecodeCause::WrongType })
    );
    let r = set_app_state_field(&mut state, &set_request("saveFilePath", text("/a/../b.json")));
    assert_eq!(
        r,
        Err(StoreError::DecodeError { field: FieldKey::SaveFilePath, cause: DecodeCause::ParentDirInPath { path: "/a/../b.json".to_string() } })
    );
    let r = set_app_state_field(
        &mut state,
        &set_request("loadCsvSettings", object(vec![("datetime_index_col", text("t"))])),
    );
    assert_eq!(
        r,
        Err(StoreError::DecodeError { field: FieldKey::LoadCsvSettings, cause: DecodeCause::MissingMember })
    );
    let r = set_app_state_field(
        &mut state,
        &object(vec![("csvFilePath", text("/a.csv"))]),
    );
    assert_eq!(
        r,
        Err(StoreError::DecodeError { field: FieldKey::CsvFilePath, cause: DecodeCause::WrongType })
    );
    assert_eq!(state, AppState::new());
}

#[test]
fn missing_value_member_reads_as_null() {
    let mut state = AppState::new();
    set_app_state_field(&mut state, &set_request("csvFilePath", text("/a.csv"))).unwrap();
    set_app_state_field(&mut state, &get_request("csvFilePath")).unwrap();
    assert_eq!(state.csv_file_path, None);
}

#[test]
fn video_start_time_is_stored_without_zone_marker() {
    let mut state = AppState::new();
    set_app_state_field(&mut state, &set_request("videoStartTime", text("2024-01-01T00:00:00.000Z")))
        .unwrap();
    let t: &LocalDateTime = state.video_start_time.as_ref().unwrap();
    assert_eq!(t.text(), "2024-01-01T00:00:00.000");
    assert_eq!(
        get_app_state_field(&state, &get_request("videoStartTime")).unwrap(),
        text("2024-01-01T00:00:00.000")
    );
    set_app_state_field(&mut state, &set_request("videoStartTime", text(""))).unwrap();
    assert!(state.video_start_time.is_none());
}

#[test]
fn csv_hooks_need_path_and_settings() {
    let mut state = AppState::new();
    assert_eq!(state.csv_source().unwrap_err(), StoreError::NoCsvFilePath);
    assert_eq!(state.csv_query().unwrap_err(), StoreError::NoCsvFilePath);
    set_app_state_field(&mut state, &set_request("csvFilePath", text("/a.csv"))).unwrap();
    assert_eq!(state.csv_source().unwrap().as_str(), "/a.csv");
    assert_eq!(state.csv_query().unwrap_err(), StoreError::NoCsvSettings);
    set_app_state_field(
        &mut state,
        &set_request(
            "loadCsvSettings",
            object(vec![
                ("datetime_index_col", text("t")),
                ("datetime_parsing_format_string", text("%s")),
                ("load_cols", JsonValue::Array(vec![])),
            ]),
        ),
    )
    .unwrap();
    let (p, s) = state.csv_query().unwrap();
    assert_eq!(p.as_str(), "/a.csv");
    assert_eq!(s.datetime_index_col, "t");
    assert!(s.time_bounds.is_none());
}

#[test]
fn completing_a_save_without_save_path_fails() {
    let mut state = AppState::new();
    set_app_state_field(&mut state, &set_request("isMultiwindow", JsonValue::Bool(true))).unwrap();
    let before = all_values(&state);
    assert_eq!(save_app_state_to_file(&mut state, Ok(())), Err(StoreError::NoSavePath));
    assert_eq!(
        save_app_state_to_file(&mut state, Err("disk full".to_string())),
        Err(StoreError::NoSavePath)
    );
    assert_eq!(all_values(&state), before);
    assert!(state.is_modified_since_last_save.0);
}

#[test]
fn bad_time_bound_names_the_text() {
    let mut state = AppState::new();
    let settings = object(vec![
        ("datetime_index_col", text("t")),
        ("datetime_parsing_format_string", text("%s")),
        ("load_cols", JsonValue::Array(vec![])),
        ("time_bounds", object(vec![("end_time", text("2024-13-01T00:00:00.000Z"))])),
    ]);
    let r = set_app_state_field(&mut state, &set_request("loadCsvSettings", settings));
    assert_eq!(
        r,
        Err(StoreError::DecodeError {
            field: FieldKey::LoadCsvSettings,
            cause: DecodeCause::BadDateTime { text: "2024-13-01T00:00:00.000Z".to_string() },
        })
    );
    assert_eq!(state, AppState::new());
}
