use tauri_runtime_cef::config::CefConfig;
use tauri_runtime_cef::geometry::{
    Binary64, CefSize, PhysicalPosition, PhysicalSize, Rect, Size,
};
use tauri_runtime_cef::native_wayland::drag::{self, DraggableRegion, DraggableRegions};
use tauri_runtime_cef::native_wayland::webview::{argb, physical_rect, view_rect, PhysicalRect};
use tauri_runtime_cef::native_wayland::{
    drag_region_initialization_script, handle_window_message, on_browser_created, AppWindow,
    Event, GeometryWatch, WindowConfig, WindowState,
};
use tauri_runtime_cef::views::{BrowserCreated, BrowserCreation, CloseAnswer, WindowSetup};
use tauri_runtime_cef::webview::AppWebview;
use tauri_runtime_cef::window::{
    AppWindowAttrs, Color, ShowState, WindowAction, WindowFlag, WindowLevel, WindowMessage,
    WindowOp, WindowQuery, WindowReply,
};
use winit::window::WindowButtons;

fn attrs() -> AppWindowAttrs {
    AppWindowAttrs {
        title: "title".to_string(),
        fullscreen: true,
        maximized: true,
        visible: true,
        decorations: true,
        resizable: true,
        window_level: WindowLevel::AlwaysOnTop,
        enabled_buttons: WindowButtons::all(),
        min_surface_size: None,
        max_surface_size: None,
        preferred_theme: None,
        background_color: None,
    }
}

fn native() -> AppWindow {
    let attrs = attrs();
    let state = WindowState::of(&attrs);
    AppWindow { attrs, native: Some(state) }
}

fn flag(value: bool) -> Result<WindowAction, WindowMessage> {
    Ok(WindowAction::Reply(WindowReply::Flag(value)))
}

fn of(value: f64) -> Binary64 {
    Binary64 { bits: value.to_bits() }
}

#[test]
fn drag_region_style_waits_for_and_reuses_the_csp_nonce() {
    let script = drag::drag_region_initialization_script();
    assert!(script.for_main_frame_only);
    assert!(script.script.contains("DOMContentLoaded"));
    assert!(script.script.contains("style.nonce = nonce"));
}

#[test]
fn drag_region_style_of_all_frames_does_not_wait() {
    let script = drag_region_initialization_script();
    assert!(!script.for_main_frame_only);
    assert!(script.script.contains("-webkit-app-region: drag;"));
    assert!(!script.script.contains("DOMContentLoaded"));
}

#[test]
fn the_native_delegate_answers_its_configuration() {
    let mut attrs = attrs();
    attrs.max_surface_size = Some(Size::Physical(PhysicalSize { width: 9, height: 9 }));
    let app = CefConfig::default(Some("app".to_string()));
    let config = WindowConfig::new(&attrs, 200, 120, of(1.5), &app);
    assert_eq!(config.title, "title");
    assert_eq!(config.bounds, Rect { x: 0, y: 0, width: 200, height: 120 });
    assert_eq!(config.show_state, ShowState::Fullscreen);
    assert!(!config.is_frameless());
    assert!(config.always_on_top);
    assert_eq!(config.app_id, "app");
    assert_eq!(config.initial_scale_factor, of(1.5));
    assert_eq!(config.preferred_size(), CefSize { width: 200, height: 120 });
    assert_eq!(
        config.on_window_created(),
        [
            WindowSetup::FillLayout,
            WindowSetup::AddBrowserView,
            WindowSetup::SetTitle("title".to_string()),
            WindowSetup::SetAlwaysOnTop(1),
            WindowSetup::Show,
        ]
    );
    assert_eq!(config.state.minimum_size(5, 5), CefSize { width: 0, height: 0 });
    assert_eq!(config.state.maximum_size(0, 5), CefSize { width: 1, height: 5 });
    assert_eq!(config.state.can_resize(), 1);
    assert_eq!(config.state.can_maximize(), 1);
    assert_eq!(config.state.can_minimize(), 1);
    assert_eq!(config.state.can_close(false), CloseAnswer { allowed: 0, request: true });

    attrs.visible = false;
    attrs.window_level = WindowLevel::Normal;
    let setup = WindowConfig::new(&attrs, 200, 120, of(1.5), &app).on_window_created();
    assert_eq!(setup.len(), 4);
    assert_eq!(setup[3], WindowSetup::SetAlwaysOnTop(0));
}

#[test]
fn the_background_is_set_once_more_for_each_complete_notification() {
    let mut creation = BrowserCreation::new();
    let ignored = on_browser_created(&mut creation, false, true, true);
    assert_eq!((ignored.reapply_background, ignored.outcome), (false, BrowserCreated::Ignored));
    let first = on_browser_created(&mut creation, true, true, true);
    assert_eq!((first.reapply_background, first.outcome), (true, BrowserCreated::Delivered));
    let second = on_browser_created(&mut creation, true, true, true);
    assert_eq!((second.reapply_background, second.outcome), (true, BrowserCreated::NotAwaited));
}

#[test]
fn geometry_is_told_of_when_it_changes() {
    let mut watch = GeometryWatch::new();
    let area = |width, height| Rect { x: 4, y: 5, width, height };
    let size = |width, height| PhysicalSize { width, height };
    assert_eq!(
        watch.on_window_bounds_changed(None, area(10, 20)),
        [Event::Resized(size(10, 20))]
    );
    assert!(watch.on_window_bounds_changed(Some(of(1.0)), area(10, 20)).is_empty());
    assert_eq!(
        watch.on_window_bounds_changed(Some(of(2.0)), area(10, 20)),
        [Event::ScaleFactorChanged { scale_factor: of(2.0), new_inner_size: size(10, 20) }]
    );
    assert_eq!(
        watch.on_window_bounds_changed(Some(of(1.5)), area(-3, 21)),
        [
            Event::ScaleFactorChanged { scale_factor: of(1.5), new_inner_size: size(0, 21) },
            Event::Resized(size(0, 21)),
        ]
    );
    assert!(watch.on_window_bounds_changed(Some(of(1.5)), area(-8, 21)).is_empty());
}

#[test]
fn requests_to_other_windows_are_given_back() {
    let mut window = AppWindow { attrs: attrs(), native: None };
    assert_eq!(
        handle_window_message(&mut window, WindowMessage::IsResizable),
        Err(WindowMessage::IsResizable)
    );
    assert_eq!(
        handle_window_message(&mut window, WindowMessage::SetTitle("new".to_string())),
        Err(WindowMessage::SetTitle("new".to_string()))
    );
    assert_eq!(window, AppWindow { attrs: attrs(), native: None });
}

#[test]
fn requests_of_the_application_are_given_back() {
    let mut window = native();
    for (message, same) in [
        (WindowMessage::AddEventListener(3), WindowMessage::AddEventListener(3)),
        (WindowMessage::Close, WindowMessage::Close),
        (WindowMessage::Destroy, WindowMessage::Destroy),
        (WindowMessage::CurrentMonitor, WindowMessage::CurrentMonitor),
        (WindowMessage::PrimaryMonitor, WindowMessage::PrimaryMonitor),
        (WindowMessage::MonitorFromPoint, WindowMessage::MonitorFromPoint),
        (WindowMessage::AvailableMonitors, WindowMessage::AvailableMonitors),
        (WindowMessage::Theme, WindowMessage::Theme),
        (WindowMessage::SetTheme, WindowMessage::SetTheme),
    ] {
        assert_eq!(handle_window_message(&mut window, message), Err(same));
    }
    assert_eq!(window, native());
}

#[test]
fn the_native_window_is_asked_for_what_it_knows() {
    let mut window = native();
    let mut ask = |message| handle_window_message(&mut window, message);
    for (message, query) in [
        (WindowMessage::ScaleFactor, WindowQuery::ScaleFactor),
        (WindowMessage::InnerPosition, WindowQuery::Position),
        (WindowMessage::OuterPosition, WindowQuery::Position),
        (WindowMessage::InnerSize, WindowQuery::InnerSize),
        (WindowMessage::OuterSize, WindowQuery::OuterSize),
        (WindowMessage::IsFullscreen, WindowQuery::Flag(WindowFlag::Fullscreen)),
        (WindowMessage::IsMinimized, WindowQuery::Flag(WindowFlag::Minimized)),
        (WindowMessage::IsMaximized, WindowQuery::Flag(WindowFlag::Maximized)),
        (WindowMessage::IsFocused, WindowQuery::Flag(WindowFlag::Active)),
        (WindowMessage::IsVisible, WindowQuery::Flag(WindowFlag::Visible)),
        (WindowMessage::IsEnabled, WindowQuery::Flag(WindowFlag::Enabled)),
        (WindowMessage::IsAlwaysOnTop, WindowQuery::Flag(WindowFlag::AlwaysOnTop)),
        (WindowMessage::Title, WindowQuery::Title),
    ] {
        assert_eq!(ask(message), Ok(WindowAction::Query(query)));
    }
    assert_eq!(ask(WindowMessage::IsDecorated), flag(true));
    assert_eq!(
        ask(WindowMessage::RawWindowHandle),
        Ok(WindowAction::Reply(WindowReply::Failed))
    );
}

#[test]
fn buttons_are_switched_one_by_one() {
    let mut window = native();
    let mut ask = |message| handle_window_message(&mut window, message);
    let nothing = || Ok(WindowAction::Nothing);
    assert_eq!(ask(WindowMessage::SetMinimizable(false)), nothing());
    assert_eq!(ask(WindowMessage::IsMaximizable), flag(true));
    assert_eq!(ask(WindowMessage::IsMinimizable), flag(false));
    assert_eq!(ask(WindowMessage::IsClosable), flag(true));
    assert_eq!(ask(WindowMessage::SetClosable(false)), nothing());
    assert_eq!(ask(WindowMessage::SetMaximizable(false)), nothing());
    assert_eq!(ask(WindowMessage::SetMinimizable(true)), nothing());
    assert_eq!(ask(WindowMessage::IsMaximizable), flag(false));
    assert_eq!(ask(WindowMessage::IsMinimizable), flag(true));
    assert_eq!(ask(WindowMessage::IsClosable), flag(false));
    assert_eq!(window.attrs.enabled_buttons, WindowButtons::MINIMIZE);
    let state = window.native.unwrap();
    assert!(!state.maximizable && state.minimizable && !state.closable);
}

#[test]
fn limits_reach_the_delegate() {
    let small = Some(Size::Physical(PhysicalSize { width: 1, height: 2 }));
    let large = Some(Size::Logical { width: of(99.5), height: of(98.0) });
    let mut window = native();
    let mut ask = |message| handle_window_message(&mut window, message);
    ask(WindowMessage::SetMinSize(small)).unwrap();
    ask(WindowMessage::SetMaxSize(large)).unwrap();
    ask(WindowMessage::SetResizable(false)).unwrap();
    let state = window.native.unwrap();
    assert_eq!((state.min_size, state.max_size, state.resizable), (small, large, false));
    assert_eq!(window.attrs.min_surface_size, small);
    assert_eq!(window.attrs.max_surface_size, large);
    assert!(!window.attrs.resizable);

    let both = WindowMessage::SetSizeConstraints { min: large, max: None };
    handle_window_message(&mut window, both).unwrap();
    let state = window.native.unwrap();
    assert_eq!((state.min_size, state.max_size), (large, None));
    assert_eq!(window.attrs.min_surface_size, large);
    assert_eq!(window.attrs.max_surface_size, None);
}

#[test]
fn the_native_window_does_what_it_is_told() {
    let color = Some(Color { red: 1, green: 2, blue: 3, alpha: 4 });
    let size = Size::Physical(PhysicalSize { width: 3, height: 4 });
    let mut window = native();
    for (message, op) in [
        (WindowMessage::Center, WindowOp::Center),
        (WindowMessage::SetEnabled(false), WindowOp::SetEnabled(0)),
        (
            WindowMessage::SetTitle("new".to_string()),
            WindowOp::SetTitle("new".to_string()),
        ),
        (WindowMessage::Maximize, WindowOp::Maximize),
        (WindowMessage::Unmaximize, WindowOp::Restore),
        (WindowMessage::Unminimize, WindowOp::Restore),
        (WindowMessage::Minimize, WindowOp::Minimize),
        (WindowMessage::Show, WindowOp::Show),
        (WindowMessage::Hide, WindowOp::Hide),
        (WindowMessage::SetAlwaysOnTop(false), WindowOp::SetAlwaysOnTop(0)),
        (WindowMessage::SetSize(size), WindowOp::SetSize(size)),
        (WindowMessage::SetFullscreen(true), WindowOp::SetFullscreen(1)),
        (WindowMessage::SetFocus, WindowOp::Focus),
        (WindowMessage::SetFocusable(true), WindowOp::SetFocusable(1)),
        (WindowMessage::SetBackgroundColor(color), WindowOp::SetBackgroundColor(color)),
    ] {
        assert_eq!(
            handle_window_message(&mut window, message),
            Ok(WindowAction::Perform(op))
        );
    }
    assert_eq!(window.attrs.title, "new");
    assert_eq!(window.attrs.window_level, WindowLevel::Normal);
    assert_eq!(window.attrs.background_color, color);
    handle_window_message(&mut window, WindowMessage::SetAlwaysOnTop(true)).unwrap();
    assert_eq!(window.attrs.window_level, WindowLevel::AlwaysOnTop);
    assert_eq!(
        handle_window_message(&mut window, WindowMessage::SetPosition),
        Ok(WindowAction::Nothing)
    );
}

fn region(x: i32) -> DraggableRegion {
    DraggableRegion {
        bounds: Rect { x, y: 0, width: 5, height: 5 },
        draggable: 1,
    }
}

#[test]
fn regions_reported_before_the_window_are_told_later() {
    let mut regions: DraggableRegions<u32> = DraggableRegions::new();
    assert_eq!(regions.set(Some(vec![region(1)])), None);
    assert_eq!(regions.attach(7), Some(vec![region(1)]));
    assert_eq!(regions.window, Some(7));
}

#[test]
fn a_window_is_told_of_every_report() {
    let mut regions: DraggableRegions<u32> = DraggableRegions::new();
    assert_eq!(regions.attach(7), None);
    let two = vec![region(1), region(2)];
    assert_eq!(regions.set(Some(two.clone())), Some(Some(two)));
    assert_eq!(regions.set(Some(Vec::new())), Some(None));
    assert_eq!(regions.set(Some(vec![region(3)])), Some(Some(vec![region(3)])));
    assert_eq!(regions.set(None), Some(None));
    assert_eq!(regions.to_tell(), None);
}

fn webview() -> AppWebview {
    AppWebview {
        webview_id: 5,
        label: "main".to_string(),
        browser_id: 9,
        schemes: Vec::new(),
    }
}

#[test]
fn colors_are_packed_from_alpha_to_blue() {
    let color = Color { red: 0x12, green: 0x34, blue: 0x56, alpha: 0xff };
    assert_eq!(argb(color), 0xff12_3456);
    let webview = webview();
    assert_eq!(
        webview.native_wayland_set_background_color(true, Some(color)),
        Some(0xff12_3456)
    );
    assert_eq!(webview.native_wayland_set_background_color(true, None), Some(0));
    assert_eq!(webview.native_wayland_set_background_color(false, Some(color)), None);
}

#[test]
fn views_are_placed_in_their_own_pixels() {
    let webview = webview();
    let view = Rect { x: -3, y: 4, width: -1, height: 10 };
    assert_eq!(
        webview.native_wayland_bounds(Some(view)),
        Some(Rect { x: -3, y: 4, width: 0, height: 10 })
    );
    assert_eq!(webview.native_wayland_bounds(None), None);
    assert_eq!(
        physical_rect(-5, i64::MAX, -1, i64::MAX),
        PhysicalRect {
            position: PhysicalPosition { x: -5, y: i32::MAX },
            size: PhysicalSize { width: 0, height: u32::MAX },
        }
    );

    assert_eq!(
        webview.native_wayland_set_bounds(true, -3, 4, 0, 10),
        Some(Rect { x: -3, y: 4, width: 1, height: 10 })
    );
    assert_eq!(webview.native_wayland_set_bounds(false, 0, 0, 1, 1), None);
    assert_eq!(
        view_rect(i64::MIN, 2, 0, i64::MAX),
        Rect { x: i32::MIN, y: 2, width: 0, height: i32::MAX }
    );
}

#[test]
fn bounds_are_read_back_at_scale_one() {
    let webview = webview();
    for (x, y, width, height) in [(0, 0, 640, 480), (-7, i32::MAX, 0, -3), (i32::MIN, 1, i32::MAX, 1)] {
        let set = webview.native_wayland_set_bounds(true, x, y, width, height).unwrap();
        let view = view_rect(set.x.into(), set.y.into(), set.width.into(), set.height.into());
        let shown = webview.native_wayland_bounds(Some(view)).unwrap();
        assert_eq!(
            physical_rect(shown.x.into(), shown.y.into(), shown.width.into(), shown.height.into()),
            PhysicalRect {
                position: PhysicalPosition { x, y },
                size: PhysicalSize {
                    width: width.max(1) as u32,
                    height: height.max(1) as u32,
                },
            }
        );
    }
}

#[test]
fn views_are_shown_and_focused_where_there_is_one() {
    let webview = webview();
    assert_eq!(webview.native_wayland_set_visible(true, true), Some(1));
    assert_eq!(webview.native_wayland_set_visible(true, false), Some(0));
    assert_eq!(webview.native_wayland_set_visible(false, true), None);
    assert!(webview.native_wayland_take_input_focus(true));
    assert!(!webview.native_wayland_take_input_focus(false));
}
