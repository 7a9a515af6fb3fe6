use std::sync::Arc;
use tauri_runtime_cef::config::CefConfig;
use tauri_runtime_cef::geometry::{
    Binary64, CefSize, PhysicalPosition, PhysicalSize, Rect, Size,
};
use tauri_runtime_cef::views::{CloseAnswer, NativeWindow, WindowSetup};
use tauri_runtime_cef::wayland::webview::{
    browser_created, browser_settings, build, flag_reply, handle_message, scheme_domains,
    url_reply, wait_for_result, waits_by_working, BrowserSetup, InitialLoad, Received,
    SchemeHandler, SettingState, Waiting, WebviewAction, WebviewAttributes, WebviewMessage, WebviewOp,
    WebviewQuery, WebviewReply, ZoomLevel,
};
use tauri_runtime_cef::wayland::window::{handle_window_message, WaylandWindow, WindowConfig};
use tauri_runtime_cef::schemes::SchemeRegistry;
use tauri_runtime_cef::webview::{AppWebview, InitializationScript};
use tauri_runtime_cef::window::{
    AppWindowAttrs, Color, ShowState, Theme, WindowAction, WindowFlag, WindowId, WindowLevel,
    WindowMessage, WindowOp, WindowQuery, WindowReply,
};
use winit::window::WindowButtons;

const ID: WindowId = WindowId(1);
const SIZE: PhysicalSize = PhysicalSize { width: 640, height: 480 };
const ORIGIN: PhysicalPosition = PhysicalPosition { x: 0, y: 0 };

fn attrs() -> AppWindowAttrs {
    AppWindowAttrs {
        title: "title".to_string(),
        fullscreen: false,
        maximized: true,
        visible: true,
        decorations: false,
        resizable: true,
        window_level: WindowLevel::Normal,
        enabled_buttons: WindowButtons::CLOSE | WindowButtons::MAXIMIZE,
        min_surface_size: None,
        max_surface_size: None,
        preferred_theme: None,
        background_color: None,
    }
}

fn window(native: bool) -> WaylandWindow {
    WaylandWindow {
        id: ID,
        label: "main".to_string(),
        attrs: attrs(),
        child: Some(AppWebview {
            webview_id: 5,
            label: "main".to_string(),
            browser_id: 9,
            schemes: Vec::new(),
        }),
        native: if native { Some(NativeWindow::new()) } else { None },
        initial_surface_size: SIZE,
        initial_scale_factor: Binary64::one(),
        reported_focus: false,
    }
}

fn flag(value: bool) -> WindowAction {
    WindowAction::Reply(WindowReply::Flag(value))
}

fn asks(flag: WindowFlag) -> WindowAction {
    WindowAction::Query(WindowQuery::Flag(flag))
}

#[test]
fn questions_are_answered_from_what_is_known() {
    let mut window = window(false);
    let mut ask = |message| handle_window_message(&mut window, message);
    assert_eq!(
        ask(WindowMessage::ScaleFactor),
        WindowAction::Reply(WindowReply::ScaleFactor(Binary64::one()))
    );
    for message in [WindowMessage::InnerPosition, WindowMessage::OuterPosition] {
        assert_eq!(ask(message), WindowAction::Reply(WindowReply::Position(ORIGIN)));
    }
    for message in [WindowMessage::InnerSize, WindowMessage::OuterSize] {
        assert_eq!(ask(message), WindowAction::Reply(WindowReply::Size(SIZE)));
    }
    assert_eq!(ask(WindowMessage::IsFullscreen), flag(false));
    assert_eq!(ask(WindowMessage::IsMinimized), flag(false));
    assert_eq!(ask(WindowMessage::IsMaximized), flag(true));
    assert_eq!(ask(WindowMessage::IsFocused), flag(false));
    assert_eq!(ask(WindowMessage::IsVisible), flag(true));
    assert_eq!(ask(WindowMessage::IsDecorated), flag(false));
    assert_eq!(ask(WindowMessage::IsResizable), flag(true));
    assert_eq!(ask(WindowMessage::IsMaximizable), flag(true));
    assert_eq!(ask(WindowMessage::IsMinimizable), flag(false));
    assert_eq!(ask(WindowMessage::IsClosable), flag(true));
    assert_eq!(ask(WindowMessage::IsEnabled), flag(true));
    assert_eq!(ask(WindowMessage::IsAlwaysOnTop), flag(false));
    assert_eq!(
        ask(WindowMessage::Title),
        WindowAction::Reply(WindowReply::Title("title".to_string()))
    );
    for message in [
        WindowMessage::CurrentMonitor,
        WindowMessage::PrimaryMonitor,
        WindowMessage::MonitorFromPoint,
    ] {
        assert_eq!(ask(message), WindowAction::Reply(WindowReply::NoMonitor));
    }
    assert_eq!(
        ask(WindowMessage::AvailableMonitors),
        WindowAction::Reply(WindowReply::NoMonitors)
    );
    assert_eq!(
        ask(WindowMessage::RawWindowHandle),
        WindowAction::Reply(WindowReply::Failed)
    );
    assert_eq!(
        ask(WindowMessage::Theme),
        WindowAction::Query(WindowQuery::SystemTheme)
    );
}

#[test]
fn a_preferred_theme_is_answered_at_once() {
    let mut window = window(true);
    window.attrs.preferred_theme = Some(Theme::Dark);
    assert_eq!(
        handle_window_message(&mut window, WindowMessage::Theme),
        WindowAction::Reply(WindowReply::Theme(Theme::Dark))
    );
}

#[test]
fn the_native_window_is_asked_where_there_is_one() {
    let mut window = window(true);
    let mut ask = |message| handle_window_message(&mut window, message);
    assert_eq!(ask(WindowMessage::IsFullscreen), asks(WindowFlag::Fullscreen));
    assert_eq!(ask(WindowMessage::IsMinimized), asks(WindowFlag::Minimized));
    assert_eq!(ask(WindowMessage::IsMaximized), asks(WindowFlag::Maximized));
    assert_eq!(ask(WindowMessage::IsFocused), asks(WindowFlag::Active));
    assert_eq!(ask(WindowMessage::IsVisible), asks(WindowFlag::Visible));
}

#[test]
fn settings_reach_the_attributes_and_the_native_window() {
    let mut window = window(true);
    let mut ask = |message| handle_window_message(&mut window, message);
    let perform = WindowAction::Perform;
    assert_eq!(
        ask(WindowMessage::SetTitle("new".to_string())),
        perform(WindowOp::SetTitle("new".to_string()))
    );
    assert_eq!(ask(WindowMessage::Unmaximize), perform(WindowOp::Restore));
    assert_eq!(ask(WindowMessage::Minimize), perform(WindowOp::Minimize));
    assert_eq!(ask(WindowMessage::Unminimize), perform(WindowOp::Restore));
    assert_eq!(ask(WindowMessage::Hide), perform(WindowOp::Hide));
    assert_eq!(ask(WindowMessage::SetFullscreen(true)), perform(WindowOp::SetFullscreen(1)));
    assert_eq!(ask(WindowMessage::SetFocus), perform(WindowOp::Focus));
    assert_eq!(ask(WindowMessage::AddEventListener(4)), perform(WindowOp::AddListener(4)));
    assert_eq!(window.attrs.title, "new");
    assert!(!window.attrs.maximized);
    assert!(!window.attrs.visible);
    assert!(window.attrs.fullscreen);
    assert_eq!(
        handle_window_message(&mut window, WindowMessage::Maximize),
        perform(WindowOp::Maximize)
    );
    assert_eq!(
        handle_window_message(&mut window, WindowMessage::Show),
        perform(WindowOp::Show)
    );
    assert!(window.attrs.maximized && window.attrs.visible);
}

#[test]
fn settings_are_answered_without_a_native_window() {
    let mut window = window(false);
    let mut ask = |message| handle_window_message(&mut window, message);
    assert_eq!(ask(WindowMessage::Hide), WindowAction::Nothing);
    assert_eq!(ask(WindowMessage::IsVisible), flag(false));
    assert_eq!(ask(WindowMessage::SetFullscreen(true)), WindowAction::Nothing);
    assert_eq!(ask(WindowMessage::IsFullscreen), flag(true));
    assert_eq!(ask(WindowMessage::SetTitle("new".to_string())), WindowAction::Nothing);
    assert_eq!(
        ask(WindowMessage::Title),
        WindowAction::Reply(WindowReply::Title("new".to_string()))
    );
    assert_eq!(ask(WindowMessage::AddEventListener(4)), WindowAction::Perform(WindowOp::AddListener(4)));
}

#[test]
fn unsupported_requests_change_nothing() {
    let mut window = window(true);
    for message in [
        WindowMessage::Center,
        WindowMessage::SetResizable(false),
        WindowMessage::SetMaximizable(false),
        WindowMessage::SetClosable(false),
        WindowMessage::SetAlwaysOnTop(true),
        WindowMessage::SetSize(Size::Physical(PhysicalSize { width: 1, height: 1 })),
        WindowMessage::SetPosition,
        WindowMessage::StartDragging,
        WindowMessage::SetBackgroundColor(Some(Color { red: 1, green: 2, blue: 3, alpha: 4 })),
        WindowMessage::SetTheme,
    ] {
        assert_eq!(handle_window_message(&mut window, message), WindowAction::Nothing);
    }
    assert_eq!(window.attrs, attrs());
    assert_eq!(window.initial_surface_size, SIZE);
}

#[test]
fn a_window_closes_its_native_side() {
    let mut with = window(true);
    assert!(with.close());
    assert!(with.native.unwrap().allow_close);
    let mut without = window(false);
    assert!(!without.close());
    assert!(without.native.is_none());
}

#[test]
fn the_delegate_answers_its_configuration() {
    let mut attrs = attrs();
    attrs.min_surface_size = Some(Size::Physical(PhysicalSize { width: 30, height: 20 }));
    let app = CefConfig::default(Some("app".to_string()));
    let scale = Binary64 { bits: 1.5f64.to_bits() };
    let config = WindowConfig::new(&attrs, 200, 0, scale, &app);
    assert_eq!(config.title, "title");
    assert_eq!(config.bounds, Rect { x: 0, y: 0, width: 200, height: 1 });
    assert_eq!(config.show_state, ShowState::Maximized);
    assert_eq!(config.app_id, "app");
    assert_eq!(config.initial_scale_factor, scale);
    assert_eq!(config.preferred_size(), CefSize { width: 200, height: 1 });
    assert_eq!(config.minimum_size(20, 13), CefSize { width: 20, height: 13 });
    assert_eq!(config.is_frameless(), 1);
    assert_eq!(config.can_resize(), 1);
    assert_eq!(config.can_maximize(), 1);
    assert_eq!(config.can_minimize(), 0);
    assert_eq!(config.can_close(false), CloseAnswer { allowed: 0, request: true });
    assert_eq!(config.can_close(true), CloseAnswer { allowed: 1, request: false });
    assert_eq!(
        config.on_window_created(),
        [
            WindowSetup::FillLayout,
            WindowSetup::AddBrowserView,
            WindowSetup::SetTitle("title".to_string()),
            WindowSetup::Show,
        ]
    );

    attrs.min_surface_size = None;
    attrs.visible = false;
    attrs.enabled_buttons = WindowButtons::MINIMIZE;
    let config = WindowConfig::new(&attrs, 200, 100, scale, &app);
    assert_eq!(config.minimum_size(20, 13), CefSize { width: 0, height: 0 });
    assert_eq!(config.on_window_created().len(), 3);
    assert_eq!((config.can_maximize(), config.can_minimize()), (0, 1));
    assert_eq!(config.can_close(false), CloseAnswer { allowed: 0, request: false });
}

#[test]
fn browsers_are_made_by_their_attributes() {
    let attrs = WebviewAttributes {
        javascript_disabled: true,
        clipboard: true,
        devtools: None,
        use_https_scheme: false,
    };
    let settings = browser_settings(&attrs);
    assert_eq!(settings.javascript, SettingState::Disabled);
    assert_eq!(settings.javascript_access_clipboard, SettingState::Enabled);

    let schemes = vec!["tauri".to_string(), "ipc".to_string()];
    let plan = build(&attrs, "u".to_string(), &schemes, true, true);
    assert!(!plan.drag_drop_handler_enabled);
    assert!(!plan.new_windows);
    assert!(plan.devtools);
    assert_eq!(plan.settings, settings);
    assert_eq!(plan.initial_load.url, "u");
    assert_eq!(plan.initial_load.custom_protocol_scheme, "http");
    assert_eq!(
        plan.initial_load.custom_scheme_domains,
        ["tauri.localhost", "ipc.localhost"]
    );
    assert!(!build(&attrs, String::new(), &schemes, false, true).devtools);

    let attrs = WebviewAttributes {
        javascript_disabled: false,
        clipboard: false,
        devtools: Some(false),
        use_https_scheme: true,
    };
    let plan = build(&attrs, String::new(), &Vec::new(), true, false);
    assert!(!plan.drag_drop_handler_enabled);
    assert!(plan.new_windows);
    assert!(!plan.devtools);
    assert_eq!(plan.initial_load.custom_protocol_scheme, "https");
    assert_eq!(plan.settings.javascript, SettingState::Enabled);
    assert_eq!(plan.settings.javascript_access_clipboard, SettingState::Disabled);
    assert!(scheme_domains(&Vec::new()).is_empty());
}

fn load() -> InitialLoad {
    InitialLoad {
        url: "tauri://localhost".to_string(),
        custom_protocol_scheme: "http".to_string(),
        custom_scheme_domains: Vec::new(),
    }
}

fn scripts(script: &str) -> Arc<Vec<InitializationScript>> {
    Arc::new(vec![InitializationScript {
        script: script.to_string(),
        for_main_frame_only: false,
    }])
}

fn served_by(label: &str, handler: u32, script: &str) -> SchemeHandler<u32> {
    SchemeHandler {
        label: label.to_string(),
        handler,
        scripts: scripts(script),
    }
}

#[test]
fn a_browser_is_served_before_it_loads() {
    let (tauri, ipc) = ("tauri".to_string(), "ipc".to_string());
    let mut registry: SchemeRegistry<SchemeHandler<u32>> = SchemeRegistry::new();
    registry.insert(8, tauri.clone(), served_by("other", 80, "2"));
    let handlers = vec![(tauri.clone(), 1), (ipc.clone(), 2)];
    let label = "main".to_string();
    let setup = browser_created(
        &mut registry,
        true,
        9,
        5,
        label.clone(),
        handlers,
        scripts("1"),
        load(),
    );
    assert_eq!(
        setup,
        [
            BrowserSetup::ObserveDevTools,
            BrowserSetup::Load { initial_load: load(), scripts: scripts("1") },
            BrowserSetup::Deliver(AppWebview {
                webview_id: 5,
                label,
                browser_id: 9,
                schemes: vec![tauri.clone(), ipc.clone()],
            }),
        ]
    );
    assert_eq!(registry.get(9, &tauri), Some(&served_by("main", 1, "1")));
    assert_eq!(registry.get(9, &ipc), Some(&served_by("main", 2, "1")));
    assert_eq!(registry.get(8, &tauri), Some(&served_by("other", 80, "2")));
}

#[test]
fn a_browser_without_a_host_is_of_no_use() {
    let mut registry: SchemeRegistry<SchemeHandler<u32>> = SchemeRegistry::new();
    let handlers = vec![("tauri".to_string(), 1)];
    let label = "main".to_string();
    let setup =
        browser_created(&mut registry, false, 9, 5, label, handlers, scripts("1"), load());
    assert!(setup.is_empty());
    assert_eq!(registry.get(9, &"tauri".to_string()), None);
}

#[test]
fn results_are_waited_for() {
    assert!(waits_by_working(1));
    assert!(!waits_by_working(0));
    assert_eq!(wait_for_result(Received::Value(3)), Waiting::Over(Some(3)));
    assert_eq!(wait_for_result::<u32>(Received::Disconnected), Waiting::Over(None));
    assert_eq!(wait_for_result::<u32>(Received::Empty), Waiting::Work);
}

#[test]
fn requests_to_a_webview() {
    let window = window(true);
    let ask = |message| handle_message(ID, &window, message);
    let perform = WebviewAction::Perform;
    let reply = WebviewAction::Reply;
    let query = WebviewAction::Query;
    let text = |value: &str| value.to_string();
    assert_eq!(
        ask(WebviewMessage::EvaluateScript(text("1"))),
        perform(WebviewOp::ExecuteJavaScript(text("1")))
    );
    assert_eq!(
        ask(WebviewMessage::Navigate(text("u"))),
        perform(WebviewOp::LoadUrl(text("u")))
    );
    assert_eq!(ask(WebviewMessage::GoBack), perform(WebviewOp::GoBack));
    assert_eq!(ask(WebviewMessage::GoForward), perform(WebviewOp::GoForward));
    assert_eq!(ask(WebviewMessage::CanGoBack), query(WebviewQuery::CanGoBack));
    assert_eq!(ask(WebviewMessage::CanGoForward), query(WebviewQuery::CanGoForward));
    assert_eq!(ask(WebviewMessage::Print), perform(WebviewOp::Print));
    assert_eq!(ask(WebviewMessage::Close), perform(WebviewOp::CloseBrowser));
    assert_eq!(ask(WebviewMessage::Show), perform(WebviewOp::SetVisible(1)));
    assert_eq!(ask(WebviewMessage::Hide), perform(WebviewOp::SetVisible(0)));
    assert_eq!(ask(WebviewMessage::SetFocus), perform(WebviewOp::Focus));
    assert_eq!(ask(WebviewMessage::Reparent(ID)), reply(WebviewReply::InPlace));
    assert_eq!(
        ask(WebviewMessage::Reparent(WindowId(2))),
        reply(WebviewReply::WindowNotFound)
    );
    assert_eq!(ask(WebviewMessage::Url), query(WebviewQuery::Url));
    assert_eq!(
        ask(WebviewMessage::Bounds),
        reply(WebviewReply::Bounds { position: ORIGIN, size: SIZE })
    );
    assert_eq!(ask(WebviewMessage::Position), reply(WebviewReply::Position(ORIGIN)));
    assert_eq!(ask(WebviewMessage::Size), reply(WebviewReply::Size(SIZE)));
    assert_eq!(ask(WebviewMessage::WithWebview), perform(WebviewOp::WithWebview));
    assert_eq!(ask(WebviewMessage::Cookies), reply(WebviewReply::NoCookies));
    assert_eq!(ask(WebviewMessage::CookiesForUrl), reply(WebviewReply::NoCookies));
    assert_eq!(ask(WebviewMessage::OpenDevTools), perform(WebviewOp::ShowDevTools));
    assert_eq!(ask(WebviewMessage::CloseDevTools), perform(WebviewOp::CloseDevTools));
    assert_eq!(ask(WebviewMessage::IsDevToolsOpen), query(WebviewQuery::DevToolsOpen));
    assert_eq!(ask(WebviewMessage::SendDevToolsMessage), reply(WebviewReply::Failed));
    assert_eq!(ask(WebviewMessage::OnDevToolsProtocol), reply(WebviewReply::Failed));
    for message in [
        WebviewMessage::AddEventListener,
        WebviewMessage::EvaluateScriptWithCallback,
        WebviewMessage::SetPosition,
        WebviewMessage::SetSize,
        WebviewMessage::SetBounds,
        WebviewMessage::SetAutoResize,
        WebviewMessage::ClearAllBrowsingData,
        WebviewMessage::SetBackgroundColor,
        WebviewMessage::SetCookie,
        WebviewMessage::DeleteCookie,
    ] {
        assert_eq!(ask(message), WebviewAction::Nothing);
    }
}

#[test]
fn zoom_needs_a_positive_factor() {
    let window = window(true);
    let zoom = |factor: f64| {
        let bits = factor.to_bits();
        handle_message(ID, &window, WebviewMessage::SetZoom(Binary64 { bits }))
    };
    let level = |level| WebviewAction::Perform(WebviewOp::SetZoomLevel(level));
    let of = |factor: f64| ZoomLevel::Of(Binary64 { bits: factor.to_bits() });
    assert_eq!(zoom(1.44), level(of(1.44)));
    for factor in [0.0, -0.0, -1.0, f64::NAN] {
        assert_eq!(zoom(factor), level(ZoomLevel::Zero));
    }
}

#[test]
fn a_window_without_a_webview_serves_no_requests_to_one() {
    let mut window = window(true);
    window.child = None;
    assert_eq!(handle_message(ID, &window, WebviewMessage::Size), WebviewAction::Nothing);
}

#[test]
fn browser_answers_become_replies() {
    assert_eq!(flag_reply(1), WebviewReply::Flag(true));
    assert_eq!(flag_reply(0), WebviewReply::Flag(false));
    assert_eq!(flag_reply(2), WebviewReply::Flag(false));
    assert_eq!(url_reply(Some("u".to_string())), WebviewReply::Url("u".to_string()));
    assert_eq!(url_reply(None), WebviewReply::Url(String::new()));
}
