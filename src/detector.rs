use vstd::prelude::*;
use crate::event::ClipboardContent;
use crate::origin::{classify, is_internal, Origin};

verus! {

/// Milliseconds between two reads of the clipboard.
pub const POLL_INTERVAL_MS: u64 = 500;

/// Milliseconds an announcement waits, so that a paste already under way in
/// the user interface can finish before the interface reacts.
pub const EMIT_DELAY_MS: u64 = 200;

/// A read is a change when it is non-empty and differs from the snapshot.
pub open spec fn is_change(snapshot: Seq<char>, text: Seq<char>) -> bool {
    text.len() > 0 && text != snapshot
}

/// The text that a read surfaces as a change, if any. A failed read
/// (`None`) is never a change.
pub open spec fn detected(snapshot: Seq<char>, read: Option<Seq<char>>) -> Option<Seq<char>> {
    match read {
        Some(t) => if is_change(snapshot, t) {
            Some(t)
        } else {
            None
        },
        None => None,
    }
}

/// The snapshot after a read: the changed text, or the old snapshot.
pub open spec fn next_snapshot(snapshot: Seq<char>, read: Option<Seq<char>>) -> Seq<char> {
    match detected(snapshot, read) {
        Some(t) => t,
        None => snapshot,
    }
}

/// The text announced to the user interface after a read, if any: a change
/// that is not attributed to the application.
pub open spec fn announced(
    snapshot: Seq<char>,
    read: Option<Seq<char>>,
    focused: Option<bool>,
    last_copy: Option<Seq<char>>,
) -> Option<Seq<char>> {
    match detected(snapshot, read) {
        Some(t) => if is_internal(t, focused, last_copy) {
            None
        } else {
            Some(t)
        },
        None => None,
    }
}

/// The text suppressed as the application's own after a read, if any.
pub open spec fn suppressed(
    snapshot: Seq<char>,
    read: Option<Seq<char>>,
    focused: Option<bool>,
    last_copy: Option<Seq<char>>,
) -> Option<Seq<char>> {
    match detected(snapshot, read) {
        Some(t) => if is_internal(t, focused, last_copy) {
            Some(t)
        } else {
            None
        },
        None => None,
    }
}

/// The snapshot after a series of reads.
pub open spec fn snapshot_after(snapshot: Seq<char>, reads: Seq<Option<Seq<char>>>) -> Seq<char>
    decreases reads.len(),
{
    if reads.len() == 0 {
        snapshot
    } else {
        next_snapshot(snapshot_after(snapshot, reads.drop_last()), reads.last())
    }
}

/// The changes that a series of reads surfaces, in order.
pub open spec fn changes(snapshot: Seq<char>, reads: Seq<Option<Seq<char>>>) -> Seq<Seq<char>>
    decreases reads.len(),
{
    if reads.len() == 0 {
        Seq::empty()
    } else {
        let earlier = changes(snapshot, reads.drop_last());
        match detected(snapshot_after(snapshot, reads.drop_last()), reads.last()) {
            Some(t) => earlier.push(t),
            None => earlier,
        }
    }
}

/// What one poll cycle asks the host to do.
pub enum TickOutcome {
    /// The read failed, was empty, or equals the snapshot: nothing to do.
    Unchanged,
    /// A change made by the application itself: not announced.
    Suppressed(String),
    /// A change from elsewhere: announce this payload.
    Announce(ClipboardContent),
}

impl TickOutcome {
    pub open spec fn announcement(&self) -> Option<Seq<char>> {
        match self {
            TickOutcome::Announce(c) => Some(c.text@),
            _ => None,
        }
    }

    pub open spec fn suppression(&self) -> Option<Seq<char>> {
        match self {
            TickOutcome::Suppressed(t) => Some(t@),
            _ => None,
        }
    }
}

/// The polling loop's state: the last clipboard text it observed.
pub struct ChangeDetector {
    snapshot: String,
}

impl View for ChangeDetector {
    type V = Seq<char>;

    closed spec fn view(&self) -> Seq<char> {
        self.snapshot@
    }
}

impl ChangeDetector {
    /// Nothing observed yet: the snapshot is empty.
    pub fn new() -> (r: ChangeDetector)
        ensures
            r@ == Seq::<char>::empty(),
    {
        ChangeDetector { snapshot: String::new() }
    }

    pub fn snapshot(&self) -> (r: &String)
        ensures
            r@ == self@,
    {
        &self.snapshot
    }

    /// Takes one clipboard read (`None` when the read failed) and returns
    /// the text if it is a change, after making it the new snapshot.
    pub fn observe(&mut self, read: Option<String>) -> (r: Option<String>)
        ensures
            r.deep_view() == detected(old(self)@, read.deep_view()),
            final(self)@ == next_snapshot(old(self)@, read.deep_view()),
    {
        match read {
            Some(text) => {
                if text.as_str().is_empty() || text == self.snapshot {
                    None
                } else {
                    self.snapshot = text.clone();
                    Some(text)
                }
            },
            None => None,
        }
    }

    /// One poll cycle: detects a change, moves the snapshot to it, and
    /// classifies it with the focus flag and the internal-copy record
    /// (`None` for a shared cell that could not be read).
    pub fn tick(&mut self, read: Option<String>, focused: Option<bool>, last_copy: Option<&String>) -> (r: TickOutcome)
        ensures
            final(self)@ == next_snapshot(old(self)@, read.deep_view()),
            r.announcement() == announced(old(self)@, read.deep_view(), focused, last_copy.deep_view()),
            r.suppression() == suppressed(old(self)@, read.deep_view(), focused, last_copy.deep_view()),
            r matches TickOutcome::Announce(c) ==> !c.from_app,
    {
        match self.observe(read) {
            Some(text) => {
                match classify(&text, focused, last_copy) {
                    Origin::Internal => TickOutcome::Suppressed(text),
                    Origin::External => TickOutcome::Announce(ClipboardContent::external(text)),
                }
            },
            None => TickOutcome::Unchanged,
        }
    }
}

/// `n` successful reads that all return `text`.
pub open spec fn repeated(text: Seq<char>, n: nat) -> Seq<Option<Seq<char>>> {
    Seq::new(n, |i: int| Some(text))
}

/// Reading the same text again right after a read of it never surfaces a
/// change, whatever the snapshot was before.
pub proof fn lemma_same_read_twice(snapshot: Seq<char>, text: Seq<char>)
    ensures
        detected(next_snapshot(snapshot, Some(text)), Some(text)) == None::<Seq<char>>,
{
}

/// After at least one read of a text, the snapshot does not differ from it
/// as a change would.
proof fn lemma_repeated_snapshot(snapshot: Seq<char>, text: Seq<char>, n: nat)
    requires
        n >= 1,
    ensures
        !is_change(snapshot_after(snapshot, repeated(text, n)), text),
    decreases n,
{
    let reads = repeated(text, n);
    assert(reads.drop_last() =~= repeated(text, (n - 1) as nat));
    if n > 1 {
        lemma_repeated_snapshot(snapshot, text, (n - 1) as nat);
    }
}

/// Of a run of identical reads, only the first can surface a change.
proof fn lemma_first_read_only(snapshot: Seq<char>, text: Seq<char>, n: nat)
    requires
        n >= 1,
    ensures
        changes(snapshot, repeated(text, n)).len() == (if is_change(snapshot, text) {
            1int
        } else {
            0int
        }),
    decreases n,
{
    let reads = repeated(text, n);
    assert(reads.drop_last() =~= repeated(text, (n - 1) as nat));
    assert(reads.last() == Some(text));
    if n > 1 {
        lemma_first_read_only(snapshot, text, (n - 1) as nat);
        lemma_repeated_snapshot(snapshot, text, (n - 1) as nat);
    } else {
        assert(reads.drop_last() =~= Seq::<Option<Seq<char>>>::empty());
        assert(snapshot_after(snapshot, reads.drop_last()) == snapshot);
        assert(changes(snapshot, reads.drop_last()) =~= Seq::<Seq<char>>::empty());
    }
}

/// A run of reads that all return the same text surfaces at most one
/// change: none after the first read.
pub proof fn lemma_repeated_read_detected_once(snapshot: Seq<char>, text: Seq<char>, n: nat)
    ensures
        changes(snapshot, repeated(text, n)).len() <= 1,
        forall|k: nat|
            1 <= k < n ==> #[trigger] detected(
                snapshot_after(snapshot, repeated(text, k)),
                Some(text),
            ) == None::<Seq<char>>,
{
    if n > 0 {
        lemma_first_read_only(snapshot, text, n);
    }
    assert forall|k: nat| 1 <= k < n implies #[trigger] detected(
        snapshot_after(snapshot, repeated(text, k)),
        Some(text),
    ) == None::<Seq<char>> by {
        lemma_repeated_snapshot(snapshot, text, k);
    }
}

/// An empty read never surfaces a change, is never announced and leaves
/// the snapshot as it was, whatever the snapshot.
pub proof fn lemma_empty_read_ignored(snapshot: Seq<char>, focused: Option<bool>, last_copy: Option<Seq<char>>)
    ensures
        detected(snapshot, Some(Seq::<char>::empty())) == None::<Seq<char>>,
        next_snapshot(snapshot, Some(Seq::<char>::empty())) == snapshot,
        announced(snapshot, Some(Seq::<char>::empty()), focused, last_copy) == None::<Seq<char>>,
{
}

/// While the window has focus nothing is announced, whatever the record
/// of the last internal copy holds.
pub proof fn lemma_focus_suppresses(snapshot: Seq<char>, read: Option<Seq<char>>, last_copy: Option<Seq<char>>)
    ensures
        announced(snapshot, read, Some(true), last_copy) == None::<Seq<char>>,
{
}

/// A change to exactly the text the application last copied is not
/// announced, even while the window is unfocused.
pub proof fn lemma_own_copy_suppressed(snapshot: Seq<char>, text: Seq<char>, focused: Option<bool>)
    ensures
        announced(snapshot, Some(text), focused, Some(text)) == None::<Seq<char>>,
{
}

/// A change while the window is unfocused, to a text other than the last
/// internal copy, is announced once, with that text.
pub proof fn lemma_external_change_announced(snapshot: Seq<char>, text: Seq<char>, last_copy: Seq<char>)
    requires
        is_change(snapshot, text),
        text != last_copy,
    ensures
        announced(snapshot, Some(text), Some(false), Some(last_copy)) == Some(text),
{
}

} // verus!
