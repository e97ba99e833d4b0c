use plutodesk::json::Json;
use plutodesk::persist::{FileRead, PersistenceError};
use plutodesk::session::{SessionManager, SessionState};
use plutodesk::timestamp::Timestamp;

fn stamp(secs: i64, nanos: u32) -> Timestamp {
    Timestamp::new(secs, nanos).unwrap()
}

fn text(s: &str) -> Json {
    Json::Text(s.to_string())
}

fn entry(key: &str, value: Json) -> (String, Json) {
    (key.to_string(), value)
}

fn sample_store() -> SessionManager {
    let mut manager = SessionManager::new();
    let mut first = SessionState::with_identity(
        0x550e8400e29b41d4a716446655440000,
        "Computer Science / Algorithms / Dynamic Programming".to_string(),
        0x11111111111141118111111111111111,
        0x22222222222242228222222222222222,
        0x33333333333343338333333333333333,
        stamp(1_704_110_400, 123_456_789),
    );
    first.mark_used_at(stamp(1_704_110_405, 0));
    manager.add_session(first, true);
    manager.add_session(
        SessionState::with_identity(
            0x0123456789ab4def8123456789abcdef,
            "quotes \" and \\ and \u{e9}".to_string(),
            1,
            2,
            3,
            stamp(1_704_196_800, 500_000),
        ),
        false,
    );
    manager
}

const SAMPLE_TEXT: &str = r#"{
  "sessions": [
    {
      "id": "550e8400-e29b-41d4-a716-446655440000",
      "name": "Computer Science / Algorithms / Dynamic Programming",
      "folder_id": "11111111-1111-4111-8111-111111111111",
      "course_id": "22222222-2222-4222-8222-222222222222",
      "set_id": "33333333-3333-4333-8333-333333333333",
      "created_at": "2024-01-01 12:00:00.123456789",
      "last_used": "2024-01-01 12:00:05"
    },
    {
      "id": "01234567-89ab-4def-8123-456789abcdef",
      "name": "quotes \" and \\ and é",
      "folder_id": "00000000-0000-0000-0000-000000000001",
      "course_id": "00000000-0000-0000-0000-000000000002",
      "set_id": "00000000-0000-0000-0000-000000000003",
      "created_at": "2024-01-02 12:00:00.000500",
      "last_used": "2024-01-02 12:00:00.000500"
    }
  ],
  "active_session_id": "550e8400-e29b-41d4-a716-446655440000"
}"#;

fn corrupt(result: Result<SessionManager, PersistenceError>) -> String {
    match result {
        Err(PersistenceError::CorruptData(why)) => why,
        other => panic!("expected CorruptData, got {:?}", other),
    }
}

#[test]
fn to_json_lays_the_store_out_as_documented() {
    assert_eq!(sample_store().to_json(), SAMPLE_TEXT);
}

#[test]
fn an_empty_store_is_two_entries() {
    assert_eq!(
        SessionManager::new().to_json(),
        "{\n  \"sessions\": [],\n  \"active_session_id\": null\n}"
    );
}

#[test]
fn from_json_reads_the_documented_layout() {
    let loaded = SessionManager::from_json(SAMPLE_TEXT).unwrap();
    let expected = sample_store();
    assert_eq!(loaded.sessions, expected.sessions);
    assert_eq!(loaded.active_session_id, expected.active_session_id);
}

#[test]
fn a_store_is_read_back_field_for_field() {
    let store = sample_store();
    let loaded = SessionManager::from_json(&store.to_json()).unwrap();
    assert_eq!(loaded.sessions, store.sessions);
    assert_eq!(loaded.active_session_id, store.active_session_id);
    // Down to the nanosecond.
    assert_eq!(loaded.sessions[0].created_at.nanos(), 123_456_789);
    assert_eq!(loaded.sessions[1].created_at.nanos(), 500_000);
    assert_eq!(loaded.sessions[0].last_used, stamp(1_704_110_405, 0));
    // And again: the text does not change.
    assert_eq!(loaded.to_json(), store.to_json());
}

#[test]
fn a_store_made_by_the_clock_is_read_back() {
    let mut store = SessionManager::new();
    let a = store.create_session("A".to_string(), 1, 2, 3, false);
    let b = store.create_session("B".to_string(), 4, 5, 6, true);
    store.start_session(a.id).unwrap();
    let loaded =
        SessionManager::load_from_file(FileRead::Contents(store.to_json())).unwrap();
    assert_eq!(loaded.sessions, store.sessions);
    assert_eq!(loaded.active_session_id, Some(a.id));
    assert_eq!(loaded.sessions[1].id, b.id);
    assert_eq!(loaded.sessions[1].created_at, b.created_at);
}

#[test]
fn an_ended_store_is_read_back_with_none_active() {
    let mut store = sample_store();
    store.end_session();
    let loaded = SessionManager::from_json(&store.to_json()).unwrap();
    assert_eq!(loaded.active_session_id, None);
    assert_eq!(loaded.sessions, store.sessions);
}

#[test]
fn a_missing_file_gives_an_empty_store() {
    // Should not crash, should return new empty manager
    let result = SessionManager::load_from_file(FileRead::Missing);
    assert!(result.is_ok(), "Should handle nonexistent file gracefully");

    let manager = result.unwrap();
    assert_eq!(manager.sessions.len(), 0);
    assert_eq!(manager.active_session_id, None);
}

#[test]
fn a_file_that_is_no_json_is_corrupt() {
    // Should return error for corrupted file
    let result =
        SessionManager::load_from_file(FileRead::Contents("{ invalid json }".to_string()));
    assert!(result.is_err(), "Should return error for corrupted JSON");
    assert_eq!(corrupt(result), "key must be a string at line 1 column 3");
}

#[test]
fn a_file_that_could_not_be_read_is_an_io_error() {
    match SessionManager::load_from_file(FileRead::Failed("Permission denied".to_string())) {
        Err(PersistenceError::IoError(why)) => assert_eq!(why, "Permission denied"),
        other => panic!("expected IoError, got {:?}", other),
    }
}

#[test]
fn a_saved_file_overwritten_with_other_text_is_corrupt_not_empty() {
    let mut store = SessionManager::new();
    store.create_session("kept".to_string(), 1, 2, 3, true);
    let saved = store.to_json();
    assert!(SessionManager::load_from_file(FileRead::Contents(saved.clone())).is_ok());

    for damaged in ["this is not json", "", "\u{0}\u{1}", &saved[..saved.len() / 2]] {
        let result = SessionManager::load_from_file(FileRead::Contents(damaged.to_string()));
        let why = corrupt(result);
        assert!(!why.is_empty());
    }
}

#[test]
fn valid_json_of_the_wrong_shape_is_corrupt() {
    let cases = [
        ("[]", "expected a JSON object"),
        ("null", "expected a JSON object"),
        ("\"sessions\"", "expected a JSON object"),
        ("{}", "missing field `sessions`"),
        (r#"{"active_session_id": null}"#, "missing field `sessions`"),
        (r#"{"sessions": {}}"#, "invalid type for field `sessions`"),
        (r#"{"sessions": null}"#, "invalid type for field `sessions`"),
        (r#"{"sessions": [], "active_session_id": 5}"#, "invalid type for field `active_session_id`"),
        (r#"{"sessions": [], "active_session_id": []}"#, "invalid type for field `active_session_id`"),
        (r#"{"sessions": [7]}"#, "expected a JSON object"),
        (r#"{"sessions": [{}]}"#, "missing field `id`"),
        (r#"{"sessions": [{"id": 5}]}"#, "invalid type for field `id`"),
        (
            r#"{"sessions": [{"id": "550e8400-e29b-41d4-a716-446655440000"}]}"#,
            "missing field `name`",
        ),
        (
            r#"{"sessions": [{"id": "550e8400-e29b-41d4-a716-446655440000", "name": null}]}"#,
            "invalid type for field `name`",
        ),
        (
            r#"{"sessions": [{"id": "550e8400-e29b-41d4-a716-446655440000", "name": "n"}]}"#,
            "missing field `folder_id`",
        ),
    ];
    for (text, why) in cases {
        assert_eq!(SessionManager::from_json(text).unwrap_err(), why, "for {}", text);
        assert_eq!(
            corrupt(SessionManager::load_from_file(FileRead::Contents(text.to_string()))),
            why
        );
    }
}

fn record_text(id: &str, created_at: &str, last_used: &str) -> String {
    format!(
        r#"{{"sessions": [{{"id": "{}", "name": "n",
            "folder_id": "00000000-0000-0000-0000-000000000001",
            "course_id": "00000000-0000-0000-0000-000000000002",
            "set_id": "00000000-0000-0000-0000-000000000003",
            "created_at": "{}", "last_used": "{}"}}], "active_session_id": null}}"#,
        id, created_at, last_used
    )
}

#[test]
fn a_record_with_a_bad_identifier_or_timestamp_is_corrupt() {
    let good_id = "550e8400-e29b-41d4-a716-446655440000";
    let good_at = "2024-01-01 12:00:00";
    assert!(SessionManager::from_json(&record_text(good_id, good_at, good_at)).is_ok());

    let said = SessionManager::from_json(&record_text("not-a-uuid", good_at, good_at)).unwrap_err();
    assert_eq!(said, uuid::Uuid::parse_str("not-a-uuid").unwrap_err().to_string());

    let said =
        SessionManager::from_json(&record_text(good_id, "2024-01-01T12:00:00Z", good_at)).unwrap_err();
    let expected = chrono::NaiveDateTime::parse_from_str("2024-01-01T12:00:00Z", "%Y-%m-%d %H:%M:%S%.f")
        .unwrap_err()
        .to_string();
    assert_eq!(said, expected);

    assert!(SessionManager::from_json(&record_text(good_id, good_at, "soon")).is_err());

    let bad_active = r#"{"sessions": [], "active_session_id": "nobody"}"#;
    assert_eq!(
        SessionManager::from_json(bad_active).unwrap_err(),
        uuid::Uuid::parse_str("nobody").unwrap_err().to_string()
    );
}

#[test]
fn the_first_bad_record_decides_the_complaint() {
    let text = r#"{"sessions": [
        {"id": "550e8400-e29b-41d4-a716-446655440000", "name": "n",
         "folder_id": "00000000-0000-0000-0000-000000000001",
         "course_id": "00000000-0000-0000-0000-000000000002",
         "set_id": "00000000-0000-0000-0000-000000000003",
         "created_at": "2024-01-01 12:00:00", "last_used": "2024-01-01 12:00:00"},
        {"id": "550e8400-e29b-41d4-a716-446655440001"},
        {"name": "no id"}
    ], "active_session_id": 5}"#;
    assert_eq!(SessionManager::from_json(text).unwrap_err(), "missing field `name`");
}

#[test]
fn entries_under_other_keys_are_passed_over() {
    let text = r#"{"version": 2, "sessions": [
        {"colour": "red", "id": "550e8400-e29b-41d4-a716-446655440000", "name": "n",
         "folder_id": "00000000-0000-0000-0000-000000000001",
         "course_id": "00000000-0000-0000-0000-000000000002",
         "set_id": "00000000-0000-0000-0000-000000000003",
         "created_at": "2024-01-01 12:00:00.25", "last_used": "2024-01-01 12:00:01"}
    ]}"#;
    let store = SessionManager::from_json(text).unwrap();
    assert_eq!(store.active_session_id, None);
    assert_eq!(store.sessions.len(), 1);
    assert_eq!(store.sessions[0].id, 0x550e8400e29b41d4a716446655440000);
    assert_eq!(store.sessions[0].created_at, stamp(1_704_110_400, 250_000_000));
    assert_eq!(store.sessions[0].last_used, stamp(1_704_110_401, 0));
}

#[test]
fn an_active_id_without_a_record_is_loaded_as_it_stands() {
    let text = r#"{"sessions": [], "active_session_id": "550e8400-e29b-41d4-a716-446655440000"}"#;
    let store = SessionManager::from_json(text).unwrap();
    assert_eq!(store.active_session_id, Some(0x550e8400e29b41d4a716446655440000));
    assert!(store.get_active_session().is_none());
}

#[test]
fn documents_are_read_entry_by_entry() {
    let record = Json::Object(vec![
        entry("id", text("550e8400-e29b-41d4-a716-446655440000")),
        entry("name", text("n")),
        entry("folder_id", text("00000000-0000-0000-0000-000000000001")),
        entry("course_id", text("00000000-0000-0000-0000-000000000002")),
        entry("set_id", text("00000000-0000-0000-0000-000000000003")),
        entry("created_at", text("2024-01-01 12:00:00")),
        entry("last_used", text("2024-01-01 12:00:09.500")),
    ]);
    let session = SessionState::from_document(&record).unwrap();
    assert_eq!(session.id, 0x550e8400e29b41d4a716446655440000);
    assert_eq!(session.name, "n");
    assert_eq!((session.folder_id, session.course_id, session.set_id), (1, 2, 3));
    assert_eq!(session.created_at, stamp(1_704_110_400, 0));
    assert_eq!(session.last_used, stamp(1_704_110_409, 500_000_000));
    assert_eq!(session.to_document(), record);

    let doc = Json::Object(vec![
        entry("sessions", Json::Array(vec![record])),
        entry("active_session_id", Json::Null),
    ]);
    let store = SessionManager::from_document(&doc).unwrap();
    assert_eq!(store.sessions, vec![session]);
    assert_eq!(store.active_session_id, None);
    assert_eq!(store.to_document(), doc);
}

#[test]
fn of_two_entries_under_one_key_the_first_is_read() {
    let doc = Json::Object(vec![
        entry("sessions", Json::Array(vec![])),
        entry("active_session_id", text("550e8400-e29b-41d4-a716-446655440000")),
        entry("active_session_id", Json::Null),
        entry("sessions", Json::Null),
    ]);
    let store = SessionManager::from_document(&doc).unwrap();
    assert_eq!(store.active_session_id, Some(0x550e8400e29b41d4a716446655440000));
    assert!(store.sessions.is_empty());
}

#[test]
fn a_document_of_the_wrong_kind_is_refused() {
    assert_eq!(SessionManager::from_document(&Json::Null).unwrap_err(), "expected a JSON object");
    assert_eq!(
        SessionManager::from_document(&Json::Array(vec![])).unwrap_err(),
        "expected a JSON object"
    );
    assert_eq!(SessionState::from_document(&text("x")).unwrap_err(), "expected a JSON object");
    assert_eq!(
        SessionState::from_document(&Json::Object(vec![entry("id", Json::Bool(true))]))
            .unwrap_err(),
        "invalid type for field `id`"
    );
}
