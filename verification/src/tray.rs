//! What the tray menu decides when the user ends the session from it.

use crate::session::{ManagerView, SessionManager};
use vstd::prelude::*;

verus! {

/// The title of the notice about a session that was ended from the tray.
pub open spec fn notice_title(ended_name: Option<Seq<char>>) -> Seq<char> {
    match ended_name {
        Some(_) => "Session Ended"@,
        None => "No Active Session"@,
    }
}

/// The body of that notice.
pub open spec fn notice_body(ended_name: Option<Seq<char>>) -> Seq<char> {
    match ended_name {
        Some(name) => "Ended: "@ + name,
        None => "There was no active session to end."@,
    }
}

/// The name of the active session, if there is one.
pub open spec fn active_name(store: ManagerView) -> Option<Seq<char>> {
    match store.active() {
        Some(session) => Some(session.name),
        None => None,
    }
}

/// Title and body of the notice that tells the user what ending the session
/// did: which session it ended, or that there was none to end.
pub fn end_session_notice(ended_name: Option<String>) -> (r: (&'static str, String))
    ensures
        r.0@ == notice_title(
            match ended_name {
                Some(name) => Some(name@),
                None => None,
            },
        ),
        r.1@ == notice_body(
            match ended_name {
                Some(name) => Some(name@),
                None => None,
            },
        ),
{
    match ended_name {
        Some(name) => {
            let mut body = "Ended: ".to_owned();
            body.append(name.as_str());
            ("Session Ended", body)
        },
        None => ("No Active Session", "There was no active session to end.".to_owned()),
    }
}

/// Ends the active session and says, as title and body of a notice, which
/// session that was.
pub fn end_session_from_tray(manager: &mut SessionManager) -> (r: (&'static str, String))
    ensures
        final(manager)@ == old(manager)@.ended(),
        r.0@ == notice_title(active_name(old(manager)@)),
        r.1@ == notice_body(active_name(old(manager)@)),
        old(manager)@.wf() ==> final(manager)@.wf(),
{
    let ended_name = match manager.get_active_session() {
        Some(session) => Some(session.name.clone()),
        None => None,
    };
    manager.end_session();
    end_session_notice(ended_name)
}

} // verus!
