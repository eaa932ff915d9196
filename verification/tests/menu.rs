use momentpad::menu::MenuEntry;
use momentpad::menu::main_window_label;
use momentpad::menu::shortcut_combination;
use momentpad::menu::tray_menu;
use momentpad::model::main_window_params;

#[test]
fn tray_menu_has_fixed_layout() {
    let m = tray_menu();
    assert_eq!(m.len(), 4);
    assert_eq!(
        m[0],
        MenuEntry::Item {
            id: "settings".to_string(),
            label: "Settings".to_string(),
            enabled: true
        }
    );
    assert_eq!(m[1], MenuEntry::Separator);
    assert_eq!(
        m[2],
        MenuEntry::Item {
            id: "hide".to_string(),
            label: "Hide".to_string(),
            enabled: true
        }
    );
    assert_eq!(
        m[3],
        MenuEntry::Item {
            id: "quit".to_string(),
            label: "Quit".to_string(),
            enabled: true
        }
    );
}

#[test]
fn tray_menu_ids_are_unique() {
    let m = tray_menu();
    let mut ids: Vec<String> = Vec::new();
    for e in m {
        if let MenuEntry::Item { id, .. } = e {
            assert!(!ids.contains(&id));
            ids.push(id);
        }
    }
    assert_eq!(ids.len(), 3);
}

#[test]
fn shortcut_combination_is_fixed() {
    assert_eq!(shortcut_combination(), "ctrl+shift+m");
}

#[test]
fn main_window_label_is_main() {
    assert_eq!(main_window_label(), "main");
}

#[test]
fn main_window_params_are_fixed() {
    let p = main_window_params();
    assert_eq!(p.title, "MomentPad");
    assert_eq!(p.width, 500);
    assert_eq!(p.height, 250);
    assert!(p.always_on_top);
    assert!(p.accept_first_mouse);
    assert!(!p.decorations);
    assert!(p.transparent);
    assert!(p.shadow);
}
