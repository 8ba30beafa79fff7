//! Clipboard change propagation with self-echo suppression.
//!
//! A background loop polls the system clipboard; every genuine change is
//! classified as coming from the application itself or from elsewhere, and
//! only changes from elsewhere are announced to the user interface. The
//! decisions are made here, as functions of plain values; reading the
//! clipboard, sleeping and emitting events are left to the host.
//!
//! The order in which stored notes are listed is decided here as well.
pub mod event;
pub mod origin;
pub mod shared_state;
pub mod detector;
pub mod note_order;
