//! The startup policy: which subsystem failures abort the launch, which are
//! swallowed, and the state a successful launch begins in.

use vstd::prelude::*;

use crate::model::AppState;
use crate::model::initial_state;

verus! {

/// Why a launch was aborted. Only the two interaction surfaces are
/// foundational enough to be fatal.
#[derive(Clone, Copy, Debug, PartialEq, Eq, Structural)]
pub enum StartupError {
    /// The global key combination could not be registered (for instance,
    /// another process already claims it).
    ShortcutUnavailable,
    /// The tray icon or its menu could not be constructed.
    TraySetupFailed,
}

/// The outcome startup owes for each combination of subsystem results: a
/// shortcut collision is fatal first, then a tray failure; otherwise the
/// process starts running with no main window. Enabling autostart is best
/// effort and does not enter the outcome.
pub open spec fn startup_outcome(shortcut_registered: bool, tray_ready: bool) -> Result<
    AppState,
    StartupError,
> {
    if !shortcut_registered {
        Err(StartupError::ShortcutUnavailable)
    } else if !tray_ready {
        Err(StartupError::TraySetupFailed)
    } else {
        Ok(initial_state())
    }
}

/// Decides whether the launch may proceed, given whether the global
/// shortcut was registered, whether the tray icon and menu were built, and
/// whether autostart registration succeeded. The autostart outcome is
/// swallowed: the result does not depend on it.
pub fn initialize(shortcut_registered: bool, tray_ready: bool, autostart_enabled: bool) -> (r:
    Result<AppState, StartupError>)
    ensures
        r == startup_outcome(shortcut_registered, tray_ready),
{
    let _ = autostart_enabled;
    if !shortcut_registered {
        Err(StartupError::ShortcutUnavailable)
    } else if !tray_ready {
        Err(StartupError::TraySetupFailed)
    } else {
        Ok(AppState::initial())
    }
}

/// Fatal shortcut collision: if the global key combination cannot be
/// registered, startup fails with that error — before any window or tray
/// state comes into being — whatever the other subsystems would have done.
pub proof fn shortcut_collision_fatal(tray_ready: bool)
    ensures
        startup_outcome(false, tray_ready) == Result::<AppState, StartupError>::Err(
            StartupError::ShortcutUnavailable,
        ),
{
}

/// A successful launch starts with no main window, in the running phase.
pub proof fn launch_starts_without_window()
    ensures
        startup_outcome(true, true) == Result::<AppState, StartupError>::Ok(initial_state()),
        initial_state().window !is Present,
{
}

} // verus!
