//! Decisions about the screenshot overlay window: when a hidden overlay is
//! shown by the fallback timer, and when a leftover overlay is torn down.

use vstd::prelude::*;

verus! {

/// How long, in milliseconds, the overlay may stay hidden before the
/// fallback shows it without waiting for the page to report readiness.
pub const FALLBACK_DELAY_MS: u64 = 500;

/// What is known of the overlay window at a given moment.
#[derive(Clone, Copy, Debug, PartialEq, Eq, Structural)]
pub enum WindowState {
    NotExists,
    Hidden,
    Visible,
    Invalid,
}

/// The note that goes with the fallback decision for a window in `state`
/// after `elapsed_ms` milliseconds.
pub open spec fn fallback_note(state: WindowState, elapsed_ms: u64) -> Seq<char> {
    if elapsed_ms < FALLBACK_DELAY_MS {
        "Too early for fallback"@
    } else {
        match state {
            WindowState::NotExists => "Window doesn't exist"@,
            WindowState::Hidden => "Show window"@,
            WindowState::Visible => "Already visible"@,
            WindowState::Invalid => "Invalid state"@,
        }
    }
}

/// Decides whether the fallback timer shows the overlay: only a hidden
/// window, and only once the delay has run out. The second component says
/// why, in words.
pub fn fallback_show_logic(state: WindowState, elapsed_ms: u64) -> (r: (bool, &'static str))
    ensures
        r.0 == (elapsed_ms >= FALLBACK_DELAY_MS && state == WindowState::Hidden),
        r.1@ == fallback_note(state, elapsed_ms),
{
    if elapsed_ms < FALLBACK_DELAY_MS {
        return (false, "Too early for fallback");
    }
    match state {
        WindowState::NotExists => (false, "Window doesn't exist"),
        WindowState::Hidden => (true, "Show window"),
        WindowState::Visible => (false, "Already visible"),
        WindowState::Invalid => (false, "Invalid state"),
    }
}

/// Decides whether a leftover overlay is torn down before a new capture,
/// given what asking it for its visibility returned: a visible window is
/// left alone, a hidden one and one that cannot answer are cleaned up.
pub fn should_cleanup_window(is_visible_result: Result<bool, String>) -> (r: bool)
    ensures
        r == !(is_visible_result matches Ok(visible) && visible),
{
    match is_visible_result {
        Ok(true) => false,
        Ok(false) => true,
        Err(_) => true,
    }
}

} // verus!
