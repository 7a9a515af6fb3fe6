use tauri_runtime_cef::config::{config, configure, CefConfig, ConfigCell, LinuxWindowing};
use tauri_runtime_cef::x11::{
    install_x_error_handlers, set_wm_state, wm_state_atoms, with_cef_display, DisplayCell,
    DisplayStep,
};

#[test]
fn error_handlers_are_installed_where_xlib_is() {
    let mut cell = ConfigCell::new();
    assert!(install_x_error_handlers(&mut cell, Some("exe".to_string()), true, true));
    assert!(install_x_error_handlers(&mut cell, None, true, true));
    assert_eq!(config(&mut cell, None).identifier, "exe");
    assert!(!install_x_error_handlers(&mut cell, None, true, false));
}

#[test]
fn error_handlers_are_left_alone_on_wayland() {
    let mut cell = ConfigCell::new();
    let wayland = CefConfig {
        linux_windowing: LinuxWindowing::Wayland,
        ..CefConfig::default(None)
    };
    configure(&mut cell, wayland);
    assert!(!install_x_error_handlers(&mut cell, None, true, true));
}

#[test]
fn other_builds_install_error_handlers_whatever_is_configured() {
    let mut cell = ConfigCell::new();
    assert!(install_x_error_handlers(&mut cell, Some("exe".to_string()), false, true));
    let wayland = CefConfig {
        linux_windowing: LinuxWindowing::Wayland,
        ..CefConfig::default(Some("app".to_string()))
    };
    configure(&mut cell, wayland);
    assert_eq!(config(&mut cell, None).identifier, "app");
    assert!(install_x_error_handlers(&mut cell, None, false, true));
    assert!(!install_x_error_handlers(&mut cell, None, false, false));
}

#[test]
fn a_thread_opens_its_connection_once() {
    let mut cell = DisplayCell::new();
    assert_eq!(cell.with_x11(false), DisplayStep::UseDefault);
    assert_eq!(cell.with_x11(true), DisplayStep::Open);
    assert_eq!(cell.opened(0), DisplayStep::UseDefault);
    assert_eq!(cell.with_x11(true), DisplayStep::Open);
    assert_eq!(cell.opened(0x1000), DisplayStep::Run(0x1000));
    assert_eq!(cell.with_x11(true), DisplayStep::Run(0x1000));
    assert_eq!(cell.with_x11(false), DisplayStep::UseDefault);
}

#[test]
fn the_connection_of_cef_may_be_missing() {
    assert_eq!(with_cef_display(true, 0x2000), DisplayStep::Run(0x2000));
    assert_eq!(with_cef_display(true, 0), DisplayStep::UseDefault);
    assert_eq!(with_cef_display(false, 0x2000), DisplayStep::UseDefault);
}

#[test]
fn window_states_are_asked_of_the_window_manager() {
    let maximized = |axis: &str| format!("_NET_WM_STATE_MAXIMIZED_{axis}");
    assert_eq!(
        wm_state_atoms(maximized("HORZ"), Some(maximized("VERT"))),
        ["_NET_WM_STATE", "_NET_WM_STATE_MAXIMIZED_HORZ", "_NET_WM_STATE_MAXIMIZED_VERT"]
    );
    assert_eq!(
        wm_state_atoms("_NET_WM_STATE_ABOVE".to_string(), None),
        ["_NET_WM_STATE", "_NET_WM_STATE_ABOVE"]
    );
    let sent = set_wm_state(77, true, 300, 301, Some(302));
    assert_eq!(sent.propagate, 0);
    assert_eq!(sent.mask, (1 << 20) | (1 << 19));
    assert_eq!(sent.message.kind, 33);
    assert_eq!(sent.message.serial, 0);
    assert_eq!(sent.message.send_event, 1);
    assert_eq!(sent.message.window, 77);
    assert_eq!(sent.message.message_type, 300);
    assert_eq!(sent.message.format, 32);
    assert_eq!(sent.message.data, [1, 301, 302, 1, 0]);

    let sent = set_wm_state(77, false, 300, u64::MAX, None);
    assert_eq!(sent.message.data, [0, -1, 0, 1, 0]);
}
