use plutodesk::commands::courses::{CreateCourseRequest, UpdateCourseRequest};
use plutodesk::commands::folders::{CreateFolderRequest, UpdateFolderRequest};
use plutodesk::commands::problem_attempts::{CreateAttemptRequest, UpdateAttemptRequest};
use plutodesk::commands::problems::{
    CreateProblemRequest, UpdateProblemRequest, UpdateProblemStatsRequest,
};
use plutodesk::commands::sessions::{
    create_and_start_session, delete_session, end_session, get_active_session, get_all_sessions,
    session_name, start_session, CreateSessionRequest, SessionResponse,
};
use plutodesk::commands::sets::{CreateSetRequest, UpdateSetRequest};
use plutodesk::commands::subjects::{CreateSubjectRequest, UpdateSubjectRequest};
use plutodesk::session::{SessionManager, SessionState};
use plutodesk::timestamp::Timestamp;

const KNOWN: &str = "550e8400-e29b-41d4-a716-446655440000";
const KNOWN_ID: u128 = 0x550e8400e29b41d4a716446655440000;

fn stamp(secs: i64, nanos: u32) -> Timestamp {
    Timestamp::new(secs, nanos).unwrap()
}

fn request(folder: &str, course: &str, subject: &str) -> CreateSessionRequest {
    CreateSessionRequest {
        folder_name: folder.to_string(),
        course_name: course.to_string(),
        subject_name: subject.to_string(),
    }
}

fn bad_id_complaint(text: &str) -> String {
    uuid::Uuid::parse_str(text).unwrap_err().to_string()
}

#[test]
fn a_session_is_named_after_folder_course_and_subject() {
    let name = session_name(&request("Computer Science", "Algorithms", "Dynamic Programming"));
    assert_eq!(name, "Computer Science / Algorithms / Dynamic Programming");
    assert_eq!(session_name(&request("", "", "")), " /  / ");
    assert_eq!(session_name(&request("a / b", "c", "d")), "a / b / c / d");
}

#[test]
fn create_and_start_makes_the_session_active() {
    let mut manager = SessionManager::new();
    let asked = request("Computer Science", "Algorithms", "Dynamic Programming");
    let session = create_and_start_session(&mut manager, &asked, 1, 2, 3).unwrap();

    assert_eq!(session.name, "Computer Science / Algorithms / Dynamic Programming");
    assert_eq!(session.folder_id, 1);
    assert_eq!(session.course_id, 2);
    assert_eq!(session.set_id, 3);
    assert_eq!(session.created_at, session.last_used);
    assert_eq!(manager.active_session_id, Some(session.id));
    assert_eq!(manager.sessions.len(), 1);
    assert_eq!(manager.sessions[0], session);
}

#[test]
fn a_second_session_for_one_context_is_refused() {
    let mut manager = SessionManager::new();
    let asked = request("Physics", "Mechanics", "Kinematics");
    let first = create_and_start_session(&mut manager, &asked, 1, 2, 3).unwrap();
    end_session(&mut manager);
    let before = manager.clone();

    let again = create_and_start_session(&mut manager, &asked, 1, 2, 3);
    assert_eq!(
        again,
        Err("A session for 'Physics / Mechanics / Kinematics' already exists. Please select a different folder/course/subject combination.".to_string())
    );
    assert_eq!(manager.sessions, before.sessions);
    assert_eq!(manager.active_session_id, None);

    // Another name for the same context is refused as well; another context is not.
    assert!(create_and_start_session(&mut manager, &request("x", "y", "z"), 1, 2, 3).is_err());
    let other = create_and_start_session(&mut manager, &asked, 1, 2, 4).unwrap();
    assert_ne!(other.id, first.id);
    assert_eq!(manager.active_session_id, Some(other.id));
    assert_eq!(manager.sessions.len(), 2);
}

#[test]
fn start_and_delete_read_the_identifier_from_text() {
    let mut manager = SessionManager::new();
    manager.add_session(
        SessionState::with_identity(KNOWN_ID, "known".to_string(), 1, 2, 3, stamp(100, 0)),
        false,
    );

    assert_eq!(start_session(&mut manager, KNOWN), Ok(()));
    assert_eq!(manager.active_session_id, Some(KNOWN_ID));
    assert!(manager.sessions[0].last_used > stamp(100, 0));

    assert_eq!(delete_session(&mut manager, KNOWN), Ok(()));
    assert!(manager.sessions.is_empty());
    assert_eq!(manager.active_session_id, None);
}

#[test]
fn a_text_that_is_no_identifier_is_refused_and_changes_nothing() {
    let mut manager = SessionManager::new();
    manager.add_session(
        SessionState::with_identity(KNOWN_ID, "known".to_string(), 1, 2, 3, stamp(100, 0)),
        true,
    );
    let before = manager.clone();
    for bad in ["not-a-uuid", "", "12345678"] {
        assert_eq!(start_session(&mut manager, bad), Err(bad_id_complaint(bad)));
        assert_eq!(delete_session(&mut manager, bad), Err(bad_id_complaint(bad)));
    }
    let unknown = "00000000-0000-0000-0000-000000000000";
    let said = "Session with id 00000000-0000-0000-0000-000000000000 not found".to_string();
    assert_eq!(start_session(&mut manager, unknown), Err(said.clone()));
    assert_eq!(delete_session(&mut manager, unknown), Err(said));
    assert_eq!(manager.sessions, before.sessions);
    assert_eq!(manager.active_session_id, before.active_session_id);
}

#[test]
fn copies_of_the_sessions_are_handed_out() {
    let mut manager = SessionManager::new();
    assert!(get_all_sessions(&manager).is_empty());
    assert_eq!(get_active_session(&manager), None);

    let a = manager.create_session("a".to_string(), 1, 2, 3, false);
    let b = manager.create_session("b".to_string(), 4, 5, 6, true);
    assert_eq!(get_all_sessions(&manager), vec![a, b.clone()]);
    assert_eq!(get_active_session(&manager), Some(b));

    end_session(&mut manager);
    assert_eq!(get_active_session(&manager), None);
    assert_eq!(get_all_sessions(&manager).len(), 2);
}

#[test]
fn a_session_is_shown_with_texts_and_names() {
    let mut session = SessionState::with_identity(
        KNOWN_ID,
        "Test Folder / Test Course / Test Subject".to_string(),
        1,
        2,
        3,
        stamp(1_704_110_400, 123_000_000),
    );
    session.mark_used_at(stamp(1_704_110_460, 0));
    let response = SessionResponse::from_session_state(
        &session,
        Some("Test Folder".to_string()),
        Some("Test Course".to_string()),
        Some("Test Subject".to_string()),
    )
    .unwrap();

    assert_eq!(response.id, KNOWN);
    assert_eq!(response.name, "Test Folder / Test Course / Test Subject");
    assert_eq!(response.folder_id, "00000000-0000-0000-0000-000000000001");
    assert_eq!(response.course_id, "00000000-0000-0000-0000-000000000002");
    assert_eq!(response.subject_id, "00000000-0000-0000-0000-000000000003");
    assert_eq!(response.folder_name, "Test Folder");
    assert_eq!(response.course_name, "Test Course");
    assert_eq!(response.subject_name, "Test Subject");
    assert_eq!(response.created_at, "2024-01-01 12:00:00.123");
    assert_eq!(response.last_used, "2024-01-01 12:01:00");
}

#[test]
fn a_session_whose_folder_course_or_set_is_gone_is_not_shown() {
    let session = SessionState::with_identity(KNOWN_ID, "n".to_string(), 1, 2, 3, stamp(0, 0));
    let name = || Some("name".to_string());

    let gone = SessionResponse::from_session_state(&session, None, name(), name());
    assert_eq!(
        gone.unwrap_err(),
        "Folder with id 00000000-0000-0000-0000-000000000001 not found"
    );
    let gone = SessionResponse::from_session_state(&session, name(), None, name());
    assert_eq!(
        gone.unwrap_err(),
        "Course with id 00000000-0000-0000-0000-000000000002 not found"
    );
    let gone = SessionResponse::from_session_state(&session, name(), name(), None);
    assert_eq!(
        gone.unwrap_err(),
        "Subject with id 00000000-0000-0000-0000-000000000003 not found"
    );
    // The folder is looked at first, then the course.
    let gone = SessionResponse::from_session_state(&session, None, None, None);
    assert!(gone.unwrap_err().starts_with("Folder with id"));
    let gone = SessionResponse::from_session_state(&session, name(), None, None);
    assert!(gone.unwrap_err().starts_with("Course with id"));
}

#[test]
fn requests_give_the_identifier_they_name() {
    let folder = CreateFolderRequest {
        user_id: KNOWN.to_string(),
        name: "f".to_string(),
        description: None,
        sort_order: 0,
    };
    assert_eq!(folder.parse_user_id(), Ok(KNOWN_ID));
    let folder = UpdateFolderRequest {
        id: KNOWN.to_string(),
        name: None,
        description: Some(None),
        sort_order: Some(3),
    };
    assert_eq!(folder.parse_id(), Ok(KNOWN_ID));

    let course = CreateCourseRequest {
        folder_id: KNOWN.to_string(),
        name: "c".to_string(),
        description: None,
        color_code: Some("#fff".to_string()),
        sort_order: 1,
    };
    assert_eq!(course.parse_folder_id(), Ok(KNOWN_ID));
    let course = UpdateCourseRequest {
        id: KNOWN.to_string(),
        name: Some("c".to_string()),
        description: None,
        color_code: None,
        sort_order: None,
    };
    assert_eq!(course.parse_id(), Ok(KNOWN_ID));

    let set = CreateSetRequest {
        course_id: KNOWN.to_string(),
        name: "s".to_string(),
        description: None,
        sort_order: 2,
    };
    assert_eq!(set.parse_course_id(), Ok(KNOWN_ID));
    let set = UpdateSetRequest { id: KNOWN.to_string(), name: None, description: None, sort_order: None };
    assert_eq!(set.parse_id(), Ok(KNOWN_ID));

    let subject = CreateSubjectRequest {
        course_id: KNOWN.to_string(),
        name: "s".to_string(),
        description: None,
        sort_order: 2,
    };
    assert_eq!(subject.parse_course_id(), Ok(KNOWN_ID));
    let subject =
        UpdateSubjectRequest { id: KNOWN.to_string(), name: None, description: None, sort_order: None };
    assert_eq!(subject.parse_id(), Ok(KNOWN_ID));

    let problem = CreateProblemRequest {
        subject_id: KNOWN.to_string(),
        title: "t".to_string(),
        description: None,
        image_path: None,
        s3_image_key: None,
    };
    assert_eq!(problem.parse_subject_id(), Ok(KNOWN_ID));
    let problem = UpdateProblemRequest {
        id: KNOWN.to_string(),
        title: None,
        description: None,
        image_path: None,
        s3_image_key: None,
        confidence_level: Some(4),
        notes: Some(Some("n".to_string())),
    };
    assert_eq!(problem.parse_id(), Ok(KNOWN_ID));
    let stats = UpdateProblemStatsRequest { id: KNOWN.to_string(), was_successful: true };
    assert_eq!(stats.parse_id(), Ok(KNOWN_ID));

    let attempt = CreateAttemptRequest {
        problem_id: KNOWN.to_string(),
        time_spent_seconds: 60,
        difficulty_rating: 3,
        confidence_level: 2,
        was_successful: false,
        notes: None,
    };
    assert_eq!(attempt.parse_problem_id(), Ok(KNOWN_ID));
    let attempt = UpdateAttemptRequest {
        id: KNOWN.to_string(),
        time_spent_seconds: None,
        difficulty_rating: None,
        confidence_level: None,
        was_successful: Some(true),
        notes: None,
    };
    assert_eq!(attempt.parse_id(), Ok(KNOWN_ID));
}

#[test]
fn requests_with_a_bad_identifier_say_why() {
    let bad = "xxxxxxxx-xxxx-xxxx-xxxx-xxxxxxxxxxxx";
    let folder = CreateFolderRequest {
        user_id: bad.to_string(),
        name: "f".to_string(),
        description: None,
        sort_order: 0,
    };
    assert_eq!(folder.parse_user_id(), Err(bad_id_complaint(bad)));
    let stats = UpdateProblemStatsRequest { id: String::new(), was_successful: false };
    assert_eq!(stats.parse_id(), Err(bad_id_complaint("")));
    let attempt = UpdateAttemptRequest {
        id: "12345678".to_string(),
        time_spent_seconds: None,
        difficulty_rating: None,
        confidence_level: None,
        was_successful: None,
        notes: None,
    };
    assert_eq!(attempt.parse_id(), Err(bad_id_complaint("12345678")));
}
