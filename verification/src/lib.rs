//! Core of a desktop shell that keeps its main window alive behind a
//! hide-on-close policy and drives two logical windows from a system
//! tray menu.
//!
//! The [`lifecycle`] module owns the existence and visibility state of
//! the main and configuration windows; the [`tray`] module maps tray
//! menu command ids to lifecycle operations and describes the fixed
//! menu surface. The host windowing shell performs the platform calls
//! and feeds every event back into these modules, which decide what
//! happens next.

pub mod lifecycle;
pub mod tray;
