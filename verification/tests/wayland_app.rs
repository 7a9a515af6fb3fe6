use std::sync::Arc;
use tauri_runtime_cef::geometry::{Binary64, PhysicalSize};
use tauri_runtime_cef::schemes::SchemeRegistry;
use tauri_runtime_cef::wayland::webview::{
    browser_created, BrowserSetup, InitialLoad, SchemeHandler, WebviewAction, WebviewMessage,
    WebviewOp,
};
use tauri_runtime_cef::wayland::window::Event;
use tauri_runtime_cef::wayland::{
    about_to_wait, handle_event_loop_message, initial_surface_size, new_events,
    remove_scheme_entries, Action, App, CreateError, CreateWindow, DeviceEventFilter,
    DeviceEvents, EventLoopAction, EventLoopMessage, Message, RunEvent, StartCause, WindowEvent,
    CEF_WORK_INTERVAL_MILLIS,
};
use tauri_runtime_cef::webview::{AppWebview, InitializationScript};
use tauri_runtime_cef::window::{
    AppWindowAttrs, WindowAction, WindowId, WindowLevel, WindowMessage, WindowReply,
};
use winit::window::WindowButtons;

const ID: WindowId = WindowId(1);
const OTHER: WindowId = WindowId(2);

type Registry = SchemeRegistry<SchemeHandler<u32>>;

fn size(width: u32, height: u32) -> PhysicalSize {
    PhysicalSize { width, height }
}

fn request() -> CreateWindow {
    CreateWindow {
        window_id: ID,
        webview_id: Some(5),
        has_webview: true,
        has_after_creation: false,
        label: "main".to_string(),
        attrs: AppWindowAttrs {
            title: "title".to_string(),
            fullscreen: false,
            maximized: false,
            visible: true,
            decorations: true,
            resizable: true,
            window_level: WindowLevel::Normal,
            enabled_buttons: WindowButtons::all(),
            min_surface_size: None,
            max_surface_size: None,
            preferred_theme: None,
            background_color: None,
        },
        scale_factor: Binary64::one(),
        surface_size: None,
        min_surface_size: None,
        max_surface_size: None,
    }
}

fn tauri() -> String {
    "tauri".to_string()
}

fn scripts() -> Arc<Vec<InitializationScript>> {
    Arc::new(vec![InitializationScript {
        script: "1".to_string(),
        for_main_frame_only: true,
    }])
}

fn served_by(handler: u32) -> SchemeHandler<u32> {
    SchemeHandler {
        label: "main".to_string(),
        handler,
        scripts: scripts(),
    }
}

/// An application with a window and a browser of the identity 9.
fn with_window() -> (App, Registry) {
    let mut app = App::new();
    let mut registry = Registry::new();
    let actions = app.handle_message(&mut registry, Message::CreateWindow(request()));
    let Some(Action::Build(pending)) = actions.into_iter().next() else {
        panic!("the window is refused");
    };
    let load = InitialLoad {
        url: "tauri://localhost".to_string(),
        custom_protocol_scheme: "http".to_string(),
        custom_scheme_domains: vec!["tauri.localhost".to_string()],
    };
    let mut setup = browser_created(
        &mut registry,
        true,
        9,
        pending.webview_id,
        "main".to_string(),
        vec![(tauri(), 90)],
        scripts(),
        load,
    );
    let Some(BrowserSetup::Deliver(child)) = setup.pop() else {
        panic!("the webview is not delivered");
    };
    assert_eq!(setup.len(), 2);
    assert_eq!(app.window_built(pending, Some(child)), Ok(()));
    (app, registry)
}

fn emit(event: WindowEvent) -> Action {
    Action::Emit { window: ID, label: "main".to_string(), event }
}

#[test]
fn a_window_comes_with_its_browser() {
    let (app, registry) = with_window();
    assert!(app.browser_live);
    let window = app.window.unwrap();
    assert_eq!(window.id, ID);
    assert_eq!(window.label, "main");
    assert_eq!(window.initial_surface_size, size(800, 600));
    assert!(!window.reported_focus);
    assert!(!window.native.unwrap().allow_close);
    let child = window.child.unwrap();
    assert_eq!((child.webview_id, child.browser_id), (5, 9));
    assert_eq!(child.schemes, ["tauri"]);
    assert_eq!(registry.get(9, &tauri()), Some(&served_by(90)));
}

#[test]
fn windows_that_cannot_be_had_are_refused() {
    let app = App::new();
    let refused = |request| app.create_window(request).unwrap_err();
    let after = CreateWindow { has_after_creation: true, ..request() };
    assert_eq!(refused(after), CreateError::Window);
    let no_id = CreateWindow { webview_id: None, ..request() };
    assert_eq!(refused(no_id), CreateError::Window);
    let no_webview = CreateWindow { has_webview: false, ..request() };
    assert_eq!(refused(no_webview), CreateError::Window);

    let (mut app, mut registry) = with_window();
    let second = CreateWindow { window_id: OTHER, ..request() };
    assert_eq!(
        app.handle_message(&mut registry, Message::CreateWindow(second)),
        [Action::Refuse(CreateError::Window)]
    );
    assert!(app.window.unwrap().id == ID);
}

#[test]
fn a_webview_does_not_come_later() {
    let (mut app, mut registry) = with_window();
    assert_eq!(
        app.handle_message(&mut registry, Message::CreateWebview),
        [Action::Refuse(CreateError::LaterWebview)]
    );
}

#[test]
fn a_window_without_a_browser_is_not_kept() {
    let mut app = App::new();
    let pending = app.create_window(request()).unwrap();
    assert_eq!(app.window_built(pending, None), Err(CreateError::NoBrowser));
    assert_eq!(app, App::new());
}

#[test]
fn refusals_say_why() {
    assert_eq!(CreateError::Window.message(), None);
    assert_eq!(
        CreateError::LaterWebview.message().unwrap(),
        "native Wayland only supports the webview created with its window"
    );
    assert_eq!(
        CreateError::NoBrowser.message().unwrap(),
        "failed to create CEF Views browser"
    );
}

#[test]
fn initial_sizes_keep_their_limits() {
    let with = initial_surface_size;
    assert_eq!(with(None, None, None), size(800, 600));
    assert_eq!(with(Some(size(10, 20)), None, None), size(10, 20));
    assert_eq!(with(Some(size(10, 20)), Some(size(15, 15)), None), size(15, 20));
    assert_eq!(with(Some(size(10, 20)), None, Some(size(15, 15))), size(10, 15));
    assert_eq!(with(None, Some(size(900, 1)), Some(size(700, 1000))), size(700, 600));
}

#[test]
fn closing_asks_then_tells_then_closes() {
    let (mut app, mut registry) = with_window();
    assert_eq!(
        app.handle_message(&mut registry, Message::Window(ID, WindowMessage::Close)),
        [Action::AskClose { window: ID, label: "main".to_string() }]
    );
    assert_eq!(
        app.close_answered(&mut registry, ID, None),
        [emit(WindowEvent::Destroyed), Action::FinishClose { close_native: true }]
    );
    assert_eq!(
        app.finish_close(&mut registry, true),
        [Action::CloseBrowser(9), Action::CloseNative, Action::ExitIfDone]
    );
    assert!(app.window.is_none());
    assert_eq!(registry.get(9, &tauri()), None);
    assert!(app.exit_if_done().is_empty());

    assert_eq!(
        app.handle_message(&mut registry, Message::BrowserClosed),
        [Action::ExitIfDone]
    );
    assert_eq!(app.exit_if_done(), [Action::AskExit(None)]);
    assert_eq!(
        app.exit_answered(&mut registry, None, false),
        [Action::RunCallback(RunEvent::Exit), Action::ExitEventLoop]
    );
    assert!(app.exiting);
    assert_eq!(app.exit_code, 0);
}

#[test]
fn a_prevented_close_does_nothing() {
    let (mut app, mut registry) = with_window();
    assert_eq!(
        app.handle_window_event(&mut registry, ID, Event::CloseRequested).len(),
        1
    );
    assert!(app.close_answered(&mut registry, ID, Some(true)).is_empty());
    assert!(app.window.is_some());
    assert_eq!(app.close_answered(&mut registry, ID, Some(false)).len(), 2);
}

#[test]
fn a_destroyed_window_is_not_closed_again() {
    let (mut app, mut registry) = with_window();
    assert_eq!(
        app.handle_window_event(&mut registry, ID, Event::Destroyed),
        [emit(WindowEvent::Destroyed), Action::FinishClose { close_native: false }]
    );
    assert_eq!(
        app.finish_close(&mut registry, false),
        [Action::CloseBrowser(9), Action::ExitIfDone]
    );
    assert!(app.finish_close(&mut registry, false).is_empty());
}

#[test]
fn destroying_does_not_ask() {
    let (mut app, mut registry) = with_window();
    assert_eq!(
        app.handle_message(&mut registry, Message::Window(ID, WindowMessage::Destroy)),
        [emit(WindowEvent::Destroyed), Action::FinishClose { close_native: true }]
    );
}

#[test]
fn a_closed_browser_leaves_its_window() {
    let (mut app, mut registry) = with_window();
    app.handle_message(&mut registry, Message::BrowserClosed);
    assert!(!app.browser_live);
    assert!(app.window.as_ref().unwrap().child.is_none());
    assert_eq!(registry.get(9, &tauri()), None);
    assert!(app.exit_if_done().is_empty());
    assert!(app
        .handle_message(&mut registry, Message::Webview(ID, WebviewMessage::Reload))
        .is_empty());
}

#[test]
fn an_exit_closes_the_window_silently() {
    let (mut app, mut registry) = with_window();
    assert_eq!(
        app.handle_message(&mut registry, Message::RequestExit(3)),
        [Action::AskExit(Some(3))]
    );
    assert_eq!(
        app.exit_answered(&mut registry, Some(3), false),
        [
            Action::StoreExitCode(3),
            Action::CloseBrowser(9),
            Action::CloseNative,
            Action::ExitIfDone,
        ]
    );
    assert_eq!((app.exiting, app.exit_code), (true, 3));
    assert!(app.exit_if_done().is_empty());
    assert!(app.handle_message(&mut registry, Message::RequestExit(4)).is_empty());
    app.handle_message(&mut registry, Message::BrowserClosed);
    assert_eq!(
        app.exit_if_done(),
        [Action::RunCallback(RunEvent::Exit), Action::ExitEventLoop]
    );
    assert_eq!(app.exit_code, 3);
}

#[test]
fn an_exit_without_a_window_is_seen_to_at_once() {
    let mut app = App::new();
    let mut registry = Registry::new();
    assert_eq!(
        app.exit_answered(&mut registry, Some(2), false),
        [Action::StoreExitCode(2), Action::ExitIfDone]
    );
    assert_eq!(app.exit_code, 2);
}

#[test]
fn an_exit_with_zero_leaves_its_code_too() {
    let mut app = App::new();
    let mut registry = Registry::new();
    let actions = app.exit_answered(&mut registry, Some(0), false);
    assert_eq!(actions, [Action::StoreExitCode(0), Action::ExitIfDone]);
}

#[test]
fn a_prevented_exit_does_nothing() {
    let (mut app, mut registry) = with_window();
    assert!(app.exit_answered(&mut registry, Some(3), true).is_empty());
    assert!(app.exit_answered(&mut registry, None, true).is_empty());
    assert_eq!((app.exiting, app.exit_code), (false, 0));
    assert!(app.window.is_some());
}

#[test]
fn an_exiting_application_closes_without_asking() {
    let (mut app, mut registry) = with_window();
    app.exiting = true;
    assert_eq!(
        app.handle_message(&mut registry, Message::Window(ID, WindowMessage::Close)),
        [Action::CloseBrowser(9), Action::CloseNative, Action::ExitIfDone]
    );
    assert!(app.window.is_none());
}

#[test]
fn a_change_of_focus_is_told_of_once() {
    let (mut app, mut registry) = with_window();
    let told = |focused| Action::EmitWindowEvent {
        window: ID,
        event: WindowEvent::Focused(focused),
    };
    assert!(app.handle_window_event(&mut registry, ID, Event::Focused(false)).is_empty());
    assert_eq!(
        app.handle_window_event(&mut registry, ID, Event::Focused(true)),
        [Action::FocusBrowser(1), Action::FocusView, told(true)]
    );
    assert!(app.handle_window_event(&mut registry, ID, Event::Focused(true)).is_empty());
    assert_eq!(
        app.handle_window_event(&mut registry, ID, Event::Focused(false)),
        [Action::FocusBrowser(0), told(false)]
    );
    assert_eq!(
        app.emit_window_event(ID, WindowEvent::Focused(false)),
        Some(emit(WindowEvent::Focused(false)))
    );
    app.handle_message(&mut registry, Message::BrowserClosed);
    assert_eq!(
        app.handle_window_event(&mut registry, ID, Event::Focused(true)),
        [told(true)]
    );
}

#[test]
fn told_focus_alternates() {
    let (mut app, mut registry) = with_window();
    let mut told = Vec::new();
    for focused in [false, true, true, false, false, true, true] {
        app.handle_message(&mut registry, Message::Window(ID, WindowMessage::Hide));
        for action in app.handle_window_event(&mut registry, ID, Event::Focused(focused)) {
            if let Action::EmitWindowEvent { event: WindowEvent::Focused(focused), .. } = action {
                told.push(focused);
            }
        }
    }
    assert_eq!(told, [true, false, true]);
    assert!(app.window.as_ref().unwrap().reported_focus);
    app.finish_close(&mut registry, true);
    assert!(app.handle_window_event(&mut registry, ID, Event::Focused(false)).is_empty());
}

#[test]
fn other_windows_do_not_matter() {
    let (mut app, mut registry) = with_window();
    for message in [WindowMessage::Close, WindowMessage::Destroy, WindowMessage::Title] {
        assert!(app.handle_message(&mut registry, Message::Window(OTHER, message)).is_empty());
    }
    for event in [Event::CloseRequested, Event::Destroyed, Event::Focused(true)] {
        assert!(app.handle_window_event(&mut registry, OTHER, event).is_empty());
    }
    assert!(app
        .handle_message(&mut registry, Message::Webview(OTHER, WebviewMessage::Reload))
        .is_empty());
    assert_eq!(app.emit_window_event(OTHER, WindowEvent::Destroyed), None);
    assert!(app.close_window(&mut registry, OTHER, true).is_empty());
    assert!(app.window.is_some());
    assert_eq!(registry.get(9, &tauri()), Some(&served_by(90)));
}

#[test]
fn requests_reach_the_window_and_its_webview() {
    let (mut app, mut registry) = with_window();
    assert_eq!(
        app.handle_message(&mut registry, Message::Window(ID, WindowMessage::Title)),
        [Action::Window(WindowAction::Reply(WindowReply::Title("title".to_string())))]
    );
    assert_eq!(
        app.handle_message(&mut registry, Message::Webview(ID, WebviewMessage::Reload)),
        [Action::Webview(WebviewAction::Perform(WebviewOp::Reload))]
    );
    app.exiting = true;
    assert!(app
        .handle_message(&mut registry, Message::Webview(ID, WebviewMessage::Reload))
        .is_empty());
}

#[test]
fn other_messages() {
    let mut app = App::new();
    let mut registry = Registry::new();
    assert!(app.handle_message(&mut registry, Message::DragDropScriptEvent).is_empty());
    assert!(app.handle_message(&mut registry, Message::Opened).is_empty());
    assert_eq!(app.handle_message(&mut registry, Message::Task), [Action::RunTask]);
    assert_eq!(
        app.handle_message(&mut registry, Message::UserEvent),
        [Action::RunCallback(RunEvent::UserEvent)]
    );
    assert_eq!(
        app.handle_message(&mut registry, Message::EventLoop(EventLoopMessage::CursorPosition)),
        [Action::EventLoop(EventLoopAction::ReplyNoCursor)]
    );
    assert_eq!(app, App::new());
}

#[test]
fn requests_to_the_event_loop() {
    let listen = EventLoopAction::ListenDeviceEvents;
    for (message, action) in [
        (EventLoopMessage::SetTheme, EventLoopAction::Nothing),
        (
            EventLoopMessage::SetDeviceEventFilter(DeviceEventFilter::Always),
            listen(DeviceEvents::Never),
        ),
        (
            EventLoopMessage::SetDeviceEventFilter(DeviceEventFilter::Unfocused),
            listen(DeviceEvents::WhenFocused),
        ),
        (
            EventLoopMessage::SetDeviceEventFilter(DeviceEventFilter::Never),
            listen(DeviceEvents::Always),
        ),
        (EventLoopMessage::PrimaryMonitor, EventLoopAction::ReplyNoMonitor),
        (EventLoopMessage::MonitorFromPoint, EventLoopAction::ReplyNoMonitor),
        (EventLoopMessage::AvailableMonitors, EventLoopAction::ReplyNoMonitors),
        (EventLoopMessage::CursorPosition, EventLoopAction::ReplyNoCursor),
        (EventLoopMessage::DisplayHandle, EventLoopAction::ReplyDisplayHandle),
    ] {
        assert_eq!(handle_event_loop_message(message), action);
    }
}

#[test]
fn the_event_loop_wakes_and_sleeps() {
    assert_eq!(
        new_events(StartCause::Init),
        [Action::RunCallback(RunEvent::Ready), Action::StartPump]
    );
    assert_eq!(new_events(StartCause::Poll), [Action::RunCallback(RunEvent::Resumed)]);
    assert!(new_events(StartCause::Other).is_empty());
    assert_eq!(
        about_to_wait(),
        [Action::ServiceCef, Action::RunCallback(RunEvent::MainEventsCleared)]
    );
    assert_eq!(CEF_WORK_INTERVAL_MILLIS, 4);
}

#[test]
fn only_the_schemes_of_a_webview_are_dropped() {
    let mut registry = Registry::new();
    let ipc = "ipc".to_string();
    registry.register(9, vec![(tauri(), served_by(1)), (ipc.clone(), served_by(2))]);
    registry.insert(8, tauri(), served_by(3));
    let child = AppWebview {
        webview_id: 5,
        label: "main".to_string(),
        browser_id: 9,
        schemes: vec![tauri()],
    };
    remove_scheme_entries(&mut registry, &child);
    assert_eq!(registry.get(9, &tauri()), None);
    assert_eq!(registry.get(9, &ipc), Some(&served_by(2)));
    assert_eq!(registry.get(8, &tauri()), Some(&served_by(3)));
}
