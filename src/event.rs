use vstd::prelude::*;

verus! {

/// Payload of the notification sent to the user interface for a clipboard
/// change that came from outside the application.
pub struct ClipboardContent {
    pub text: String,
    pub from_app: bool,
}

impl ClipboardContent {
    /// An announcement of external text: `from_app` is always `false`, since
    /// changes made by the application itself are never announced.
    pub fn external(text: String) -> (r: ClipboardContent)
        ensures
            r.text@ == text@,
            !r.from_app,
    {
        ClipboardContent { text, from_app: false }
    }
}

} // verus!
