//! The event dispatcher: one function from observed state and event to next
//! state and action, together with the transition relation it is proved
//! against and the laws of the state machine.

use vstd::prelude::*;

use crate::model::Action;
use crate::model::AppState;
use crate::model::Event;
use crate::model::Phase;
use crate::model::WindowState;
use crate::model::is_main_window_params;
use crate::model::main_window_params;

verus! {

/// What a trigger of the global shortcut does: always surface the main
/// window. If it exists it is shown and focused, whatever its visibility
/// was; if it is absent it is created, visible and focused, with the fixed
/// parameters. The shortcut never hides the window.
pub open spec fn shortcut_step(s: AppState, s2: AppState, a: Action) -> bool {
    &&& s2.phase == s.phase
    &&& s2.window == (WindowState::Present { visible: true, focused: true })
    &&& match s.window {
        WindowState::Absent => a matches Action::CreateMain { params } && is_main_window_params(
            params,
        ),
        WindowState::Present { .. } => a == Action::ShowAndFocusMain,
    }
}

/// What activating the tray-menu entry with the given id does:
/// `settings` opens the settings surface, `hide` hides the main window if it
/// exists, `quit` requests termination with exit code 0, and any other id is
/// a no-op.
pub open spec fn menu_step(id: Seq<char>, s: AppState, s2: AppState, a: Action) -> bool {
    if id == "settings"@ {
        &&& s2 == s
        &&& a == Action::OpenSettings
    } else if id == "hide"@ {
        &&& s2.phase == s.phase
        &&& match s.window {
            WindowState::Absent => s2.window == s.window && a == Action::NoOp,
            WindowState::Present { .. } => {
                &&& s2.window == (WindowState::Present { visible: false, focused: false })
                &&& a == Action::HideMain
            },
        }
    } else if id == "quit"@ {
        &&& s2 == (AppState { window: s.window, phase: Phase::Terminating })
        &&& a == (Action::Exit { code: 0 })
    } else {
        &&& s2 == s
        &&& a == Action::NoOp
    }
}

/// What an exit request does. A request carrying an explicit code came from
/// the quit action: termination is accepted and nothing more is done. A
/// request without a code is ambient (window-manager close, shutdown probe):
/// it is suppressed, the process stays running, and the main window, if it
/// exists, is hidden.
pub open spec fn exit_step(code: Option<i32>, s: AppState, s2: AppState, a: Action) -> bool {
    match code {
        Some(_) => {
            &&& s2 == (AppState { window: s.window, phase: Phase::Terminating })
            &&& a == Action::NoOp
        },
        None => {
            &&& s2.phase == Phase::Running
            &&& match s.window {
                WindowState::Absent => s2.window == s.window && a == Action::SuppressExit,
                WindowState::Present { .. } => {
                    &&& s2.window == (WindowState::Present { visible: false, focused: false })
                    &&& a == Action::SuppressExitAndHide
                },
            }
        },
    }
}

/// The full transition relation of the dispatcher.
pub open spec fn transition(s: AppState, e: Event, s2: AppState, a: Action) -> bool {
    match e {
        Event::ShortcutTriggered => shortcut_step(s, s2, a),
        Event::MenuActivated { id } => menu_step(id@, s, s2, a),
        Event::ExitRequested { code } => exit_step(code, s, s2, a),
    }
}

/// True exactly when `id` reads `lit`.
fn id_is(id: &String, lit: &str) -> (r: bool)
    ensures
        r == (id@ == lit@),
{
    let l: String = lit.to_owned();
    *id == l
}

/// Handles one event: returns the state after the step and the action the
/// host shell must perform.
pub fn dispatch(s: AppState, e: Event) -> (r: (AppState, Action))
    ensures
        transition(s, e, r.0, r.1),
{
    match e {
        Event::ShortcutTriggered => {
            let w = WindowState::Present { visible: true, focused: true };
            match s.window {
                WindowState::Absent => (
                    AppState { window: w, phase: s.phase },
                    Action::CreateMain { params: main_window_params() },
                ),
                WindowState::Present { .. } => (
                    AppState { window: w, phase: s.phase },
                    Action::ShowAndFocusMain,
                ),
            }
        },
        Event::MenuActivated { id } => {
            if id_is(&id, "settings") {
                (s, Action::OpenSettings)
            } else if id_is(&id, "hide") {
                match s.window {
                    WindowState::Absent => (s, Action::NoOp),
                    WindowState::Present { .. } => (
                        AppState {
                            window: WindowState::Present { visible: false, focused: false },
                            phase: s.phase,
                        },
                        Action::HideMain,
                    ),
                }
            } else if id_is(&id, "quit") {
                (AppState { window: s.window, phase: Phase::Terminating }, Action::Exit { code: 0 })
            } else {
                (s, Action::NoOp)
            }
        },
        Event::ExitRequested { code } => {
            match code {
                Some(_) => (
                    AppState { window: s.window, phase: Phase::Terminating },
                    Action::NoOp,
                ),
                None => {
                    match s.window {
                        WindowState::Absent => (
                            AppState { window: s.window, phase: Phase::Running },
                            Action::SuppressExit,
                        ),
                        WindowState::Present { .. } => (
                            AppState {
                                window: WindowState::Present { visible: false, focused: false },
                                phase: Phase::Running,
                            },
                            Action::SuppressExitAndHide,
                        ),
                    }
                },
            }
        },
    }
}

/// Idempotent show: a shortcut trigger while the main window already exists
/// and is visible leaves exactly the one main window, visible and focused,
/// and never creates a second instance.
pub proof fn idempotent_show(s: AppState, s2: AppState, a: Action)
    requires
        s.window matches WindowState::Present { visible: true, .. },
        transition(s, Event::ShortcutTriggered, s2, a),
    ensures
        s2.window == (WindowState::Present { visible: true, focused: true }),
        a == Action::ShowAndFocusMain,
        !(a is CreateMain),
        s2.phase == s.phase,
{
}

/// Create on demand: a shortcut trigger while no main window exists creates
/// exactly one main window, visible, with the fixed parameters.
pub proof fn create_on_demand(s: AppState, s2: AppState, a: Action)
    requires
        s.window is Absent,
        transition(s, Event::ShortcutTriggered, s2, a),
    ensures
        a matches Action::CreateMain { params } && is_main_window_params(params),
        s2.window == (WindowState::Present { visible: true, focused: true }),
        s2.phase == s.phase,
{
}

/// Hide, not destroy: after the hide action the main window still exists,
/// and a subsequent shortcut trigger re-shows that instance instead of
/// creating a new one.
pub proof fn hide_not_destroy(
    s: AppState,
    id: String,
    s2: AppState,
    a2: Action,
    s3: AppState,
    a3: Action,
)
    requires
        s.window is Present,
        id@ == "hide"@,
        transition(s, Event::MenuActivated { id }, s2, a2),
        transition(s2, Event::ShortcutTriggered, s3, a3),
    ensures
        s2.window is Present,
        s2.window == (WindowState::Present { visible: false, focused: false }),
        a3 == Action::ShowAndFocusMain,
        !(a3 is CreateMain),
        s3.window == (WindowState::Present { visible: true, focused: true }),
{
    reveal_strlit("hide");
    reveal_strlit("settings");
    assert("hide"@.len() == 4);
    assert("settings"@.len() == 8);
    assert("hide"@ != "settings"@);
}

/// Ambient-close suppression: an exit request without an explicit code,
/// while the main window exists, leaves the process running, hides the main
/// window, and never lets the exit proceed.
pub proof fn ambient_close_suppression(s: AppState, s2: AppState, a: Action)
    requires
        s.window is Present,
        transition(s, Event::ExitRequested { code: None }, s2, a),
    ensures
        s2.phase == Phase::Running,
        s2.window == (WindowState::Present { visible: false, focused: false }),
        a == Action::SuppressExitAndHide,
        !(a is Exit),
{
}

/// Explicit-quit termination: the quit menu entry requests termination with
/// exit code 0, and the exit request it causes, carrying that explicit code,
/// is not intercepted by the ambient-close suppression rule.
pub proof fn explicit_quit_termination(
    s: AppState,
    id: String,
    s2: AppState,
    a2: Action,
    s3: AppState,
    a3: Action,
)
    requires
        id@ == "quit"@,
        transition(s, Event::MenuActivated { id }, s2, a2),
        transition(s2, Event::ExitRequested { code: Some(0) }, s3, a3),
    ensures
        a2 == (Action::Exit { code: 0 }),
        s2.phase == Phase::Terminating,
        a3 !is SuppressExit,
        a3 !is SuppressExitAndHide,
        s3.phase == Phase::Terminating,
{
    reveal_strlit("quit");
    reveal_strlit("settings");
    reveal_strlit("hide");
    assert("quit"@.len() == 4);
    assert("settings"@.len() == 8);
    assert("quit"@ != "settings"@);
    assert("quit"@[0] == 'q');
    assert("hide"@[0] == 'h');
    assert("quit"@ != "hide"@);
}

/// Unknown menu id robustness: activating a menu id outside `settings`,
/// `hide` and `quit` changes nothing and performs nothing.
pub proof fn unknown_menu_id(s: AppState, id: String, s2: AppState, a: Action)
    requires
        id@ != "settings"@,
        id@ != "hide"@,
        id@ != "quit"@,
        transition(s, Event::MenuActivated { id }, s2, a),
    ensures
        s2 == s,
        a == Action::NoOp,
{
}

} // verus!
