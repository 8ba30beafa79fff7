use clipwatch::detector::{ChangeDetector, TickOutcome, EMIT_DELAY_MS, POLL_INTERVAL_MS};
use clipwatch::event::ClipboardContent;
use clipwatch::origin::{classify, Origin};
use clipwatch::shared_state::{FocusState, InternalCopyRecord};

fn s(t: &str) -> String {
    t.to_string()
}

fn announced_text(out: &TickOutcome) -> Option<(String, bool)> {
    match out {
        TickOutcome::Announce(c) => Some((c.text.clone(), c.from_app)),
        _ => None,
    }
}

fn is_unchanged(out: &TickOutcome) -> bool {
    matches!(out, TickOutcome::Unchanged)
}

fn suppressed_text(out: &TickOutcome) -> Option<String> {
    match out {
        TickOutcome::Suppressed(t) => Some(t.clone()),
        _ => None,
    }
}

/// Runs one tick the way the host does: both shared cells readable.
fn tick(d: &mut ChangeDetector, read: Option<&str>, focus: &FocusState, record: &InternalCopyRecord) -> TickOutcome {
    d.tick(read.map(s), Some(focus.is_focused()), Some(record.last_copy()))
}

#[test]
fn scenario_external_text_is_announced() {
    let mut d = ChangeDetector::new();
    let focus = FocusState::new();
    let record = InternalCopyRecord::new();
    let out = tick(&mut d, Some("hello"), &focus, &record);
    assert_eq!(announced_text(&out), Some((s("hello"), false)));
    assert_eq!(d.snapshot(), "hello");
}

#[test]
fn scenario_marked_internal_copy_is_suppressed() {
    let mut d = ChangeDetector::new();
    let focus = FocusState::new();
    let mut record = InternalCopyRecord::new();
    record.mark_internal_copy(s("secret"));
    let out = tick(&mut d, Some("secret"), &focus, &record);
    assert_eq!(announced_text(&out), None);
    assert_eq!(suppressed_text(&out), Some(s("secret")));
    // The snapshot still moves to the suppressed text.
    assert_eq!(d.snapshot(), "secret");
}

#[test]
fn scenario_focused_window_suppresses() {
    let mut d = ChangeDetector::new();
    let mut focus = FocusState::new();
    focus.set_focused(true);
    let record = InternalCopyRecord::new();
    let out = tick(&mut d, Some("anything"), &focus, &record);
    assert_eq!(announced_text(&out), None);
    assert_eq!(suppressed_text(&out), Some(s("anything")));
}

#[test]
fn scenario_failed_read_changes_nothing() {
    let mut d = ChangeDetector::new();
    let focus = FocusState::new();
    let record = InternalCopyRecord::new();
    assert!(announced_text(&tick(&mut d, Some("before"), &focus, &record)).is_some());
    let out = tick(&mut d, None, &focus, &record);
    assert!(is_unchanged(&out));
    assert_eq!(d.snapshot(), "before");
    // The loop goes on: the next tick still works.
    let out = tick(&mut d, Some("after"), &focus, &record);
    assert_eq!(announced_text(&out), Some((s("after"), false)));
}

#[test]
fn scenario_sequence_a_a_b_announces_twice() {
    let mut d = ChangeDetector::new();
    let focus = FocusState::new();
    let record = InternalCopyRecord::new();
    let mut events: Vec<String> = Vec::new();
    for read in ["a", "a", "b"] {
        if let Some((t, _)) = announced_text(&tick(&mut d, Some(read), &focus, &record)) {
            events.push(t);
        }
    }
    assert_eq!(events, vec![s("a"), s("b")]);
}

#[test]
fn repeated_reads_detected_once() {
    let mut d = ChangeDetector::new();
    assert_eq!(d.observe(Some(s("x"))), Some(s("x")));
    for _ in 0..5 {
        assert_eq!(d.observe(Some(s("x"))), None);
    }
    assert_eq!(d.snapshot(), "x");
}

#[test]
fn empty_read_never_changes_snapshot() {
    let mut d = ChangeDetector::new();
    assert_eq!(d.observe(Some(s(""))), None);
    assert_eq!(d.snapshot(), "");
    assert_eq!(d.observe(Some(s("kept"))), Some(s("kept")));
    let focus = FocusState::new();
    let record = InternalCopyRecord::new();
    assert!(is_unchanged(&tick(&mut d, Some(""), &focus, &record)));
    assert_eq!(d.snapshot(), "kept");
}

#[test]
fn copy_after_clear_of_same_text_is_not_redetected() {
    let mut d = ChangeDetector::new();
    assert_eq!(d.observe(Some(s("same"))), Some(s("same")));
    assert_eq!(d.observe(Some(s(""))), None);
    assert_eq!(d.observe(Some(s("same"))), None);
}

#[test]
fn focus_suppresses_regardless_of_record() {
    let mut d = ChangeDetector::new();
    let mut focus = FocusState::new();
    focus.set_focused(true);
    let mut record = InternalCopyRecord::new();
    record.mark_internal_copy(s("other"));
    let out = tick(&mut d, Some("text"), &focus, &record);
    assert_eq!(announced_text(&out), None);
    assert_eq!(suppressed_text(&out), Some(s("text")));
}

#[test]
fn internal_copy_suppressed_while_unfocused() {
    let mut d = ChangeDetector::new();
    let mut focus = FocusState::new();
    focus.set_focused(false);
    let mut record = InternalCopyRecord::new();
    record.mark_internal_copy(s("mine"));
    assert_eq!(announced_text(&tick(&mut d, Some("mine"), &focus, &record)), None);
}

#[test]
fn external_change_passes_once() {
    let mut d = ChangeDetector::new();
    let focus = FocusState::new();
    let mut record = InternalCopyRecord::new();
    record.mark_internal_copy(s("mine"));
    let first = tick(&mut d, Some("theirs"), &focus, &record);
    assert_eq!(announced_text(&first), Some((s("theirs"), false)));
    let second = tick(&mut d, Some("theirs"), &focus, &record);
    assert!(is_unchanged(&second));
}

#[test]
fn record_keeps_only_latest_copy() {
    let mut record = InternalCopyRecord::new();
    assert_eq!(record.last_copy(), "");
    record.mark_internal_copy(s("first"));
    record.mark_internal_copy(s("second"));
    assert_eq!(record.last_copy(), "second");
    let mut d = ChangeDetector::new();
    let focus = FocusState::new();
    assert_eq!(announced_text(&tick(&mut d, Some("first"), &focus, &record)), Some((s("first"), false)));
}

#[test]
fn focus_state_follows_events() {
    let mut focus = FocusState::new();
    assert!(!focus.is_focused());
    focus.set_focused(true);
    assert!(focus.is_focused());
    focus.set_focused(false);
    assert!(!focus.is_focused());
}

#[test]
fn unreadable_cells_fail_towards_announcing() {
    assert_eq!(classify(&s("t"), None, None), Origin::External);
    assert_eq!(classify(&s("t"), None, Some(&s("t"))), Origin::Internal);
    assert_eq!(classify(&s("t"), Some(true), None), Origin::Internal);
    assert_eq!(classify(&s("t"), Some(false), Some(&s("u"))), Origin::External);
    let mut d = ChangeDetector::new();
    let out = d.tick(Some(s("t")), None, None);
    assert_eq!(announced_text(&out), Some((s("t"), false)));
}

#[test]
fn classification_is_exact_string_match() {
    assert_eq!(classify(&s("abc"), Some(false), Some(&s("abc "))), Origin::External);
    assert_eq!(classify(&s("abc"), Some(false), Some(&s("ABC"))), Origin::External);
    assert_eq!(classify(&s("abc"), Some(false), Some(&s("abc"))), Origin::Internal);
}

#[test]
fn external_payload_is_not_from_app() {
    let c = ClipboardContent::external(s("x"));
    assert_eq!(c.text, "x");
    assert!(!c.from_app);
}

#[test]
fn timing_constants() {
    assert_eq!(POLL_INTERVAL_MS, 500);
    assert_eq!(EMIT_DELAY_MS, 200);
}
