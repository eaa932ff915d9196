use momentpad::model::AppState;
use momentpad::model::Phase;
use momentpad::model::WindowState;
use momentpad::startup::StartupError;
use momentpad::startup::initialize;

#[test]
fn shortcut_collision_is_fatal() {
    assert_eq!(
        initialize(false, true, true),
        Err(StartupError::ShortcutUnavailable)
    );
    assert_eq!(
        initialize(false, false, false),
        Err(StartupError::ShortcutUnavailable)
    );
}

#[test]
fn tray_failure_is_fatal() {
    assert_eq!(
        initialize(true, false, true),
        Err(StartupError::TraySetupFailed)
    );
}

#[test]
fn successful_launch_starts_without_window() {
    let s = initialize(true, true, true).unwrap();
    assert_eq!(s, AppState::initial());
    assert_eq!(s.window, WindowState::Absent);
    assert_eq!(s.phase, Phase::Running);
}

#[test]
fn autostart_failure_is_swallowed() {
    assert_eq!(initialize(true, true, false), initialize(true, true, true));
    assert_eq!(
        initialize(true, true, false).unwrap(),
        AppState::initial()
    );
}
