//! The data model: the state of the single "main" window, the process
//! lifecycle phase, the events the dispatcher handles and the actions it
//! hands back to the host shell.

use vstd::prelude::*;

verus! {

/// Presentation attributes the main window is created with.
#[derive(Debug, PartialEq, Eq)]
pub struct WindowParams {
    pub title: String,
    /// Logical width in pixels.
    pub width: u32,
    /// Logical height in pixels.
    pub height: u32,
    pub always_on_top: bool,
    pub accept_first_mouse: bool,
    pub decorations: bool,
    pub transparent: bool,
    pub shadow: bool,
}

/// The fixed attributes of the main window: title "MomentPad", 500 by 250
/// logical pixels, always on top, accepting the first mouse click,
/// borderless, transparent, with a shadow.
pub open spec fn is_main_window_params(p: WindowParams) -> bool {
    &&& p.title@ == "MomentPad"@
    &&& p.width == 500
    &&& p.height == 250
    &&& p.always_on_top
    &&& p.accept_first_mouse
    &&& !p.decorations
    &&& p.transparent
    &&& p.shadow
}

/// Builds the fixed creation parameters of the main window.
pub fn main_window_params() -> (p: WindowParams)
    ensures
        is_main_window_params(p),
{
    WindowParams {
        title: "MomentPad".to_owned(),
        width: 500,
        height: 250,
        always_on_top: true,
        accept_first_mouse: true,
        decorations: false,
        transparent: true,
        shadow: true,
    }
}

/// Whether the single main window currently exists, and if so whether it is
/// visible and whether it has input focus. At most one main window ever
/// exists, so one slot describes it completely.
#[derive(Clone, Copy, Debug, PartialEq, Eq, Structural)]
pub enum WindowState {
    Absent,
    Present { visible: bool, focused: bool },
}

impl WindowState {
    /// The main window exists (it may be hidden).
    pub open spec fn is_present(self) -> bool {
        self is Present
    }
}

/// The process lifecycle: `Running` until an explicit quit, `Terminating`
/// once termination has been accepted.
#[derive(Clone, Copy, Debug, PartialEq, Eq, Structural)]
pub enum Phase {
    Running,
    Terminating,
}

/// The whole state the dispatcher decides over.
#[derive(Clone, Copy, Debug, PartialEq, Eq, Structural)]
pub struct AppState {
    pub window: WindowState,
    pub phase: Phase,
}

/// The state a freshly started process is in: no main window yet, running.
pub open spec fn initial_state() -> AppState {
    AppState { window: WindowState::Absent, phase: Phase::Running }
}

impl AppState {
    /// Builds the startup state: no main window, running.
    pub fn initial() -> (s: AppState)
        ensures
            s == initial_state(),
    {
        AppState { window: WindowState::Absent, phase: Phase::Running }
    }
}

/// One event delivered by the host shell's dispatcher.
#[derive(Debug, PartialEq, Eq)]
pub enum Event {
    /// The bound global key combination was pressed.
    ShortcutTriggered,
    /// A tray-menu entry with the given id was activated.
    MenuActivated { id: String },
    /// The process was asked to exit; `code` is present only when the
    /// request came from the explicit quit action.
    ExitRequested { code: Option<i32> },
}

/// What the host shell must perform after a dispatch step.
#[derive(Debug, PartialEq, Eq)]
pub enum Action {
    /// Nothing to do.
    NoOp,
    /// Show the existing main window and give it input focus (best effort).
    ShowAndFocusMain,
    /// Create the main window with the given parameters, visible.
    CreateMain { params: WindowParams },
    /// Hide the existing main window (best effort).
    HideMain,
    /// Open the settings surface (delegated to the front-end layer).
    OpenSettings,
    /// Terminate the process with the given exit code.
    Exit { code: i32 },
    /// Suppress the pending exit request; there is no window to hide.
    SuppressExit,
    /// Suppress the pending exit request and hide the main window.
    SuppressExitAndHide,
}

} // verus!
