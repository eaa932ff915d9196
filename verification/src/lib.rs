//! Core of MomentPad, a tray-resident notes utility: the window-visibility
//! state machine and the event dispatcher that routes global-shortcut
//! triggers, tray-menu activations and process exit requests to window and
//! lifecycle actions.
//!
//! The library is pure decision logic: it receives the observed state of the
//! single "main" window together with one event, and returns the next state
//! and the action the host shell must perform (show, create, hide, exit,
//! suppress exit). All calls into the windowing framework live outside the
//! library, in the surrounding shell.

pub mod dispatch;
pub mod menu;
pub mod model;
pub mod startup;
