use vstd::prelude::*;

verus! {

/// Whether the application's main window currently has input focus.
///
/// The host keeps one value of this type behind a lock, writes it from the
/// window-event handler and reads it from the polling loop; every update
/// replaces the whole value.
pub struct FocusState {
    focused: bool,
}

impl View for FocusState {
    type V = bool;

    closed spec fn view(&self) -> bool {
        self.focused
    }
}

impl FocusState {
    /// The window starts out unfocused.
    pub fn new() -> (r: FocusState)
        ensures
            r@ == false,
    {
        FocusState { focused: false }
    }

    /// Records a focus-change notification.
    pub fn set_focused(&mut self, focused: bool)
        ensures
            final(self)@ == focused,
    {
        self.focused = focused;
    }

    pub fn is_focused(&self) -> (r: bool)
        ensures
            r == self@,
    {
        self.focused
    }
}

/// The most recent text that the application itself asked the system
/// clipboard to hold. A single slot: no history is kept.
pub struct InternalCopyRecord {
    text: String,
}

impl View for InternalCopyRecord {
    type V = Seq<char>;

    closed spec fn view(&self) -> Seq<char> {
        self.text@
    }
}

impl InternalCopyRecord {
    /// Nothing has been copied by the application yet: the record is empty.
    pub fn new() -> (r: InternalCopyRecord)
        ensures
            r@ == Seq::<char>::empty(),
    {
        InternalCopyRecord { text: String::new() }
    }

    /// Records a programmatic copy, overwriting whatever was recorded before.
    pub fn mark_internal_copy(&mut self, text: String)
        ensures
            final(self)@ == text@,
    {
        self.text = text;
    }

    pub fn last_copy(&self) -> (r: &String)
        ensures
            r@ == self@,
    {
        &self.text
    }
}

} // verus!
