use vstd::prelude::*;

verus! {

/// Where a detected clipboard change came from.
#[derive(Clone, Copy, Debug, PartialEq, Eq, Structural)]
pub enum Origin {
    /// Written by the application itself: suppressed.
    Internal,
    /// Written by someone else: announced.
    External,
}

/// A change is attributed to the application when its window has focus, or
/// when the text is exactly the last text the application copied. A focus
/// flag that could not be read counts as unfocused, and a record that could
/// not be read matches nothing, so that doubt leans towards announcing.
pub open spec fn is_internal(text: Seq<char>, focused: Option<bool>, last_copy: Option<Seq<char>>) -> bool {
    focused == Some(true) || last_copy == Some(text)
}

pub open spec fn origin_of(text: Seq<char>, focused: Option<bool>, last_copy: Option<Seq<char>>) -> Origin {
    if is_internal(text, focused, last_copy) {
        Origin::Internal
    } else {
        Origin::External
    }
}

/// Classifies a freshly detected change. `focused` and `last_copy` are the
/// current focus flag and internal-copy record, or `None` where the shared
/// cell holding them could not be read this cycle.
pub fn classify(text: &String, focused: Option<bool>, last_copy: Option<&String>) -> (r: Origin)
    ensures
        r == origin_of(text@, focused, last_copy.deep_view()),
{
    let focus_now = match focused {
        Some(f) => f,
        None => false,
    };
    let matches_copy = match last_copy {
        Some(c) => *text == *c,
        None => false,
    };
    if focus_now || matches_copy {
        Origin::Internal
    } else {
        Origin::External
    }
}

} // verus!
