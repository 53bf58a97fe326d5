//! Page-load progress reported by a web view.

use vstd::prelude::*;

verus! {

/// Stage of a page load, in the order the web view reports them.
#[derive(Debug, Clone, Copy, PartialEq, Eq, Structural)]
pub enum LoadEvent {
    Started,
    Redirected,
    Committed,
    Finished,
}

/// The load stage that a `load-changed` signal code stands for:
/// 0 started, 1 redirected, 2 committed, 3 finished; any other code none.
pub open spec fn load_event_for_code(code: i32) -> Option<LoadEvent> {
    if code == 0 {
        Some(LoadEvent::Started)
    } else if code == 1 {
        Some(LoadEvent::Redirected)
    } else if code == 2 {
        Some(LoadEvent::Committed)
    } else if code == 3 {
        Some(LoadEvent::Finished)
    } else {
        None
    }
}

impl LoadEvent {
    /// Decodes a `load-changed` signal code; unknown codes are ignored.
    pub fn from_code(code: i32) -> (r: Option<LoadEvent>)
        ensures
            r == load_event_for_code(code),
    {
        match code {
            0 => Some(LoadEvent::Started),
            1 => Some(LoadEvent::Redirected),
            2 => Some(LoadEvent::Committed),
            3 => Some(LoadEvent::Finished),
            _ => None,
        }
    }
}

} // verus!
