//! The session commands, as far as they work on the store: the shell looks
//! up or creates folders, courses and sets before, and writes the session
//! file after.

use crate::ident::{id_parsed, id_text, id_to_string, parse_id};
use crate::session::{not_found_text, SessionManager, SessionState, SessionView};
use crate::timestamp::Timestamp;
use vstd::prelude::*;

verus! {

/// The names under which a new session is to be filed.
#[derive(Debug)]
pub struct CreateSessionRequest {
    pub folder_name: String,
    pub course_name: String,
    pub subject_name: String,
}

/// A session as the user interface shows it: every identifier and
/// timestamp as text, and the names of its folder, course and set.
#[derive(Debug)]
pub struct SessionResponse {
    pub id: String,
    pub name: String,
    pub folder_id: String,
    pub course_id: String,
    pub subject_id: String,
    pub folder_name: String,
    pub course_name: String,
    pub subject_name: String,
    pub created_at: String,
    pub last_used: String,
}

/// What a response says, each text as its characters.
pub struct SessionResponseView {
    pub id: Seq<char>,
    pub name: Seq<char>,
    pub folder_id: Seq<char>,
    pub course_id: Seq<char>,
    pub subject_id: Seq<char>,
    pub folder_name: Seq<char>,
    pub course_name: Seq<char>,
    pub subject_name: Seq<char>,
    pub created_at: Seq<char>,
    pub last_used: Seq<char>,
}

impl View for SessionResponse {
    type V = SessionResponseView;

    open spec fn view(&self) -> SessionResponseView {
        SessionResponseView {
            id: self.id@,
            name: self.name@,
            folder_id: self.folder_id@,
            course_id: self.course_id@,
            subject_id: self.subject_id@,
            folder_name: self.folder_name@,
            course_name: self.course_name@,
            subject_name: self.subject_name@,
            created_at: self.created_at@,
            last_used: self.last_used@,
        }
    }
}

/// The name of a session made for a request: the three names, with a slash
/// between blanks between two of them.
pub open spec fn session_name_text(folder: Seq<char>, course: Seq<char>, subject: Seq<char>) -> Seq<
    char,
> {
    folder + " / "@ + course + " / "@ + subject
}

/// The words with which a second session for one context is refused.
pub open spec fn duplicate_text(name: Seq<char>) -> Seq<char> {
    "A session for '"@ + name
        + "' already exists. Please select a different folder/course/subject combination."@
}

/// The words that say that a session points at something that is gone.
pub open spec fn stale_text(kind: Seq<char>, id: u128) -> Seq<char> {
    kind + " with id "@ + id_text(id) + " not found"@
}

/// What showing a session gives, from the names that the database has for
/// its folder, course and set; the first of the three that the database
/// does not have decides the complaint.
pub open spec fn shown_session(
    session: SessionView,
    folder_name: Option<Seq<char>>,
    course_name: Option<Seq<char>>,
    subject_name: Option<Seq<char>>,
) -> Result<SessionResponseView, Seq<char>> {
    if folder_name is None {
        Err(stale_text("Folder"@, session.folder_id))
    } else if course_name is None {
        Err(stale_text("Course"@, session.course_id))
    } else if subject_name is None {
        Err(stale_text("Subject"@, session.set_id))
    } else {
        Ok(
            SessionResponseView {
                id: id_text(session.id),
                name: session.name,
                folder_id: id_text(session.folder_id),
                course_id: id_text(session.course_id),
                subject_id: id_text(session.set_id),
                folder_name: folder_name->Some_0,
                course_name: course_name->Some_0,
                subject_name: subject_name->Some_0,
                created_at: session.created_at.shown(),
                last_used: session.last_used.shown(),
            },
        )
    }
}

/// The characters of a name that may be missing.
pub open spec fn name_chars(name: Option<String>) -> Option<Seq<char>> {
    match name {
        Some(text) => Some(text@),
        None => None,
    }
}

/// Says that what a session points at is gone.
fn stale_message(kind: &str, id: u128) -> (why: String)
    ensures
        why@ == stale_text(kind@, id),
{
    let mut why = kind.to_owned();
    why.append(" with id ");
    why.append(id_to_string(id).as_str());
    why.append(" not found");
    why
}

impl SessionResponse {
    /// Shows a session, given the names that the database has for its
    /// folder, course and set. A session whose folder, course or set is
    /// gone is not shown; the session itself is left as it is.
    pub fn from_session_state(
        session: &SessionState,
        folder_name: Option<String>,
        course_name: Option<String>,
        subject_name: Option<String>,
    ) -> (r: Result<SessionResponse, String>)
        ensures
            match shown_session(
                session@,
                name_chars(folder_name),
                name_chars(course_name),
                name_chars(subject_name),
            ) {
                Ok(shown) => r matches Ok(response) && response@ == shown,
                Err(why) => r matches Err(said) && said@ == why,
            },
    {
        let folder_name = match folder_name {
            Some(name) => name,
            None => {
                return Err(stale_message("Folder", session.folder_id));
            },
        };
        let course_name = match course_name {
            Some(name) => name,
            None => {
                return Err(stale_message("Course", session.course_id));
            },
        };
        let subject_name = match subject_name {
            Some(name) => name,
            None => {
                return Err(stale_message("Subject", session.set_id));
            },
        };
        Ok(
            SessionResponse {
                id: id_to_string(session.id),
                name: session.name.clone(),
                folder_id: id_to_string(session.folder_id),
                course_id: id_to_string(session.course_id),
                subject_id: id_to_string(session.set_id),
                folder_name,
                course_name,
                subject_name,
                created_at: session.created_at.to_shown(),
                last_used: session.last_used.to_shown(),
            },
        )
    }
}

/// The name of the session that a request asks for.
pub fn session_name(request: &CreateSessionRequest) -> (name: String)
    ensures
        name@ == session_name_text(
            request.folder_name@,
            request.course_name@,
            request.subject_name@,
        ),
{
    let mut name = request.folder_name.clone();
    name.append(" / ");
    name.append(request.course_name.as_str());
    name.append(" / ");
    name.append(request.subject_name.as_str());
    name
}

/// Copies of all saved sessions, in order, to work with once the store is
/// let go of.
pub fn get_all_sessions(manager: &SessionManager) -> (r: Vec<SessionState>)
    ensures
        r@ == manager.sessions@,
{
    let kept = manager.get_all_sessions();
    let mut copies: Vec<SessionState> = Vec::new();
    let mut i: usize = 0;
    while i < kept.len()
        invariant
            i <= kept.len(),
            copies@ == kept@.subrange(0, i as int),
        decreases kept.len() - i,
    {
        copies.push(kept[i].clone());
        assert(copies@ =~= kept@.subrange(0, i + 1));
        i += 1;
    }
    assert(copies@ =~= kept@);
    copies
}

/// A copy of the active session, to work with once the store is let go of.
pub fn get_active_session(manager: &SessionManager) -> (r: Option<SessionState>)
    ensures
        match r {
            Some(s) => manager@.active() == Some(s@),
            None => manager@.active() is None,
        },
{
    match manager.get_active_session() {
        Some(session) => Some(session.clone()),
        None => None,
    }
}

/// Starts the session whose identifier the text gives. A text that is no
/// identifier, and an identifier that the store does not hold, leave the
/// store as it is.
pub fn start_session(manager: &mut SessionManager, session_id: &str) -> (r: Result<(), String>)
    ensures
        match id_parsed(session_id@) {
            Ok(id) => {
                &&& r is Ok <==> old(manager)@.contains_id(id)
                &&& r matches Err(why) ==> why@ == not_found_text(id)
                &&& exists|now: Timestamp|
                    final(manager)@ == old(manager)@.started(id, now)
            },
            Err(why) => r matches Err(said) && said@ == why,
        },
        r is Err ==> *final(manager) == *old(manager),
        old(manager)@.wf() ==> final(manager)@.wf(),
{
    match parse_id(session_id) {
        Ok(id) => manager.start_session(id),
        Err(why) => Err(why),
    }
}

/// Ends the active session.
pub fn end_session(manager: &mut SessionManager)
    ensures
        final(manager)@ == old(manager)@.ended(),
        old(manager)@.wf() ==> final(manager)@.wf(),
{
    manager.end_session();
}

/// Deletes the session whose identifier the text gives. A text that is no
/// identifier, and an identifier that the store does not hold, leave the
/// store as it is.
pub fn delete_session(manager: &mut SessionManager, session_id: &str) -> (r: Result<(), String>)
    ensures
        match id_parsed(session_id@) {
            Ok(id) => {
                &&& r is Ok <==> old(manager)@.contains_id(id)
                &&& r matches Err(why) ==> why@ == not_found_text(id)
                &&& final(manager)@ == old(manager)@.without(id)
            },
            Err(why) => r matches Err(said) && said@ == why,
        },
        r is Err ==> *final(manager) == *old(manager),
        old(manager)@.wf() ==> final(manager)@.wf(),
{
    match parse_id(session_id) {
        Ok(id) => manager.delete_session(id),
        Err(why) => Err(why),
    }
}

/// Makes the session that a request asks for and starts it at once, once
/// the shell has found or made its folder, course and set. A context for
/// which the store already has a session is refused, and the store is then
/// left as it is.
pub fn create_and_start_session(
    manager: &mut SessionManager,
    request: &CreateSessionRequest,
    folder_id: u128,
    course_id: u128,
    subject_id: u128,
) -> (r: Result<SessionState, String>)
    ensures
        r is Err <==> old(manager)@.has_context(folder_id, course_id, subject_id),
        r matches Err(why) ==> *final(manager) == *old(manager) && why@ == duplicate_text(
            session_name_text(request.folder_name@, request.course_name@, request.subject_name@),
        ),
        r matches Ok(session) ==> {
            &&& final(manager)@ == old(manager)@.with_session(session@, true)
            &&& final(manager).active_session_id == Some(session.id)
            &&& session@.name == session_name_text(
                request.folder_name@,
                request.course_name@,
                request.subject_name@,
            )
            &&& session@.in_context(folder_id, course_id, subject_id)
            &&& session@.last_used == session@.created_at
        },
        old(manager)@.wf() ==> final(manager)@.wf(),
{
    let name = session_name(request);
    if manager.session_exists_for_context(folder_id, course_id, subject_id) {
        let mut why = "A session for '".to_owned();
        why.append(name.as_str());
        why.append(
            "' already exists. Please select a different folder/course/subject combination.",
        );
        return Err(why);
    }
    Ok(manager.create_session(name, folder_id, course_id, subject_id, true))
}

} // verus!
