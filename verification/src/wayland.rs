//! The native Wayland backend: an application with one window, which CEF Views owns.
//!
//! [`App`] holds what the application knows about itself. Each method takes one
//! thing that happened and returns what is to be done about it, in order. Some of
//! that runs code of the application, which can get back here with something else
//! before it returns; what follows it therefore comes as an action of its own, which
//! is decided when its turn has come, on the state of that moment.

use vstd::prelude::*;

pub mod lifecycle;
pub mod webview;
pub mod window;

use crate::config::texts;
use crate::geometry::{Binary64, PhysicalSize};
use crate::schemes::{scheme_keys, SchemeRegistry};
use crate::views::NativeWindow;
use crate::wayland::webview::{WebviewAction, WebviewMessage};
use crate::wayland::window::{Event, WaylandWindow};
use crate::webview::AppWebview;
use crate::window::{cef_bool, AppWindowAttrs, WindowAction, WindowId, WindowMessage};

verus! {

/// How long the event loop sleeps at most before it lets CEF work again.
pub const CEF_WORK_INTERVAL_MILLIS: u64 = 4;

/// Why a window or a webview was not created.
#[derive(Clone, Copy, Debug, PartialEq, Eq, Structural)]
pub enum CreateError {
    /// The window cannot be had (`CreateWindow`).
    Window,
    /// A webview comes with its window, never later (`CreateWebview`).
    LaterWebview,
    /// CEF made no browser (`CreateWebview`).
    NoBrowser,
}

impl CreateError {
    /// What the error says, if it says anything.
    pub fn message(self) -> (r: Option<String>)
        ensures
            match r {
                Some(text) => text@ == (match self {
                    CreateError::NoBrowser => "failed to create CEF Views browser"@,
                    _ => "native Wayland only supports the webview created with its window"@,
                }) && self != CreateError::Window,
                None => self == CreateError::Window,
            },
    {
        match self {
            CreateError::Window => None,
            CreateError::LaterWebview => Some(
                "native Wayland only supports the webview created with its window".to_owned(),
            ),
            CreateError::NoBrowser => Some("failed to create CEF Views browser".to_owned()),
        }
    }
}

/// What the listeners of a window and the application are told about it.
#[derive(Clone, Copy, Debug, PartialEq, Eq, Structural)]
pub enum WindowEvent {
    Destroyed,
    Focused(bool),
}

/// What the application is told by its callback.
#[derive(Clone, Copy, Debug, PartialEq, Eq, Structural)]
pub enum RunEvent {
    Ready,
    Resumed,
    MainEventsCleared,
    Exit,
    /// The application's own event, which came with the message.
    UserEvent,
}

/// Which device events the application wants to be spared.
#[derive(Clone, Copy, Debug, PartialEq, Eq, Structural)]
pub enum DeviceEventFilter {
    Always,
    Unfocused,
    Never,
}

/// When the event loop listens to device events.
#[derive(Clone, Copy, Debug, PartialEq, Eq, Structural)]
pub enum DeviceEvents {
    Always,
    WhenFocused,
    Never,
}

/// A request to the event loop.
#[derive(Clone, Copy, Debug, PartialEq, Eq, Structural)]
pub enum EventLoopMessage {
    SetTheme,
    SetDeviceEventFilter(DeviceEventFilter),
    PrimaryMonitor,
    MonitorFromPoint,
    AvailableMonitors,
    CursorPosition,
    DisplayHandle,
}

/// What a request to the event loop leads to.
#[derive(Clone, Copy, Debug, PartialEq, Eq, Structural)]
pub enum EventLoopAction {
    Nothing,
    ListenDeviceEvents(DeviceEvents),
    ReplyNoMonitor,
    ReplyNoMonitors,
    /// `FailedToGetCursorPosition`.
    ReplyNoCursor,
    ReplyDisplayHandle,
}

/// Why the event loop woke up.
#[derive(Clone, Copy, Debug, PartialEq, Eq, Structural)]
pub enum StartCause {
    Init,
    Poll,
    Other,
}

/// The window that is asked for. Its sizes are in physical pixels at the scale
/// factor given.
#[derive(Debug, PartialEq)]
pub struct CreateWindow {
    pub window_id: WindowId,
    pub webview_id: Option<u32>,
    /// Whether a webview comes with the window.
    pub has_webview: bool,
    /// Whether something is to be run on the window's handle after its creation.
    pub has_after_creation: bool,
    pub label: String,
    pub attrs: AppWindowAttrs,
    pub scale_factor: Binary64,
    pub surface_size: Option<PhysicalSize>,
    pub min_surface_size: Option<PhysicalSize>,
    pub max_surface_size: Option<PhysicalSize>,
}

/// A window that lacks only its browser.
#[derive(Debug, PartialEq)]
pub struct PendingWindow {
    pub window: WaylandWindow,
    pub webview_id: u32,
}

/// A message to the application.
#[derive(Debug, PartialEq)]
pub enum Message {
    EventLoop(EventLoopMessage),
    BrowserClosed,
    CreateWindow(CreateWindow),
    CreateWebview,
    Window(WindowId, WindowMessage),
    Webview(WindowId, WebviewMessage),
    DragDropScriptEvent,
    Task,
    RequestExit(i32),
    Opened,
    UserEvent,
}

/// Something for the event loop to do.
#[derive(Debug, PartialEq)]
pub enum Action {
    /// Call the application back.
    RunCallback(RunEvent),
    /// Tell of something at the window: call the application back, then the
    /// window's listeners.
    Emit { window: WindowId, label: String, event: WindowEvent },
    /// Decide with [`App::emit_window_event`].
    EmitWindowEvent { window: WindowId, event: WindowEvent },
    /// Ask whether the window may close: first its listeners, then the
    /// application. Go on with [`App::close_answered`].
    AskClose { window: WindowId, label: String },
    /// Ask the application whether it may exit, with the code it was asked to exit
    /// with, if any. Go on with [`App::exit_answered`].
    AskExit(Option<i32>),
    /// Leave the code for whoever runs the event loop.
    StoreExitCode(i32),
    /// Decide with [`App::finish_close`].
    FinishClose { close_native: bool },
    /// Decide with [`App::exit_if_done`].
    ExitIfDone,
    /// Close the browser, whatever its page says.
    CloseBrowser(i32),
    /// Close the native window, which does not ask any more.
    CloseNative,
    /// Give the browser the focus or take it away.
    FocusBrowser(i32),
    /// Give the browser's view the focus, if there is one.
    FocusView,
    /// Leave the event loop.
    ExitEventLoop,
    /// Build the browser of the window. Go on with [`App::window_built`].
    Build(PendingWindow),
    /// Refuse to create a window or a webview.
    Refuse(CreateError),
    /// Run the task that came with the message.
    RunTask,
    /// Start CEF's message pump.
    StartPump,
    /// Let GLib and CEF work, and wake up again after
    /// [`CEF_WORK_INTERVAL_MILLIS`].
    ServiceCef,
    EventLoop(EventLoopAction),
    Window(WindowAction),
    Webview(WebviewAction),
}

/// The application.
#[derive(Debug, PartialEq)]
pub struct App {
    pub window: Option<WaylandWindow>,
    /// Whether the browser was created and has not been closed yet.
    pub browser_live: bool,
    pub exiting: bool,
    pub exit_code: i32,
}

impl App {
    /// Whether the application's window is the one of the given identity.
    pub open spec fn has_window(self, id: WindowId) -> bool {
        self.window is Some && self.window->0.id == id
    }

    /// The state after the browser was closed.
    pub open spec fn after_browser_closed(self) -> App {
        App {
            window: match self.window {
                Some(window) => Some(WaylandWindow { child: None, ..window }),
                None => None,
            },
            browser_live: false,
            ..self
        }
    }

    /// The webview in the window, if there are both.
    pub open spec fn webview(self) -> Option<AppWebview> {
        match self.window {
            Some(window) => window.child,
            None => None,
        }
    }

    /// What finishes the closing of the window, if there still is one: its browser
    /// is closed, then the native window if that is wanted and there is one.
    pub open spec fn finish_close_actions(self, close_native: bool) -> Seq<Action> {
        match self.window {
            None => seq![],
            Some(window) => {
                let browser = match window.child {
                    Some(child) => seq![Action::CloseBrowser(child.browser_id)],
                    None => seq![],
                };
                let native = if close_native && window.native is Some {
                    seq![Action::CloseNative]
                } else {
                    seq![]
                };
                browser + native + seq![Action::ExitIfDone]
            },
        }
    }

    /// The state after the window is closed.
    pub open spec fn without_window(self) -> App {
        App { window: None, ..self }
    }

    /// What the closing of a window leads to: nothing where it is not the
    /// application's. The window's end is told of, unless the application is
    /// exiting.
    pub open spec fn close_actions(self, id: WindowId, close_native: bool) -> Seq<Action> {
        if !self.has_window(id) {
            seq![]
        } else if self.exiting {
            self.finish_close_actions(close_native)
        } else {
            seq![
                Action::Emit {
                    window: id,
                    label: self.window->0.label,
                    event: WindowEvent::Destroyed,
                },
                Action::FinishClose { close_native },
            ]
        }
    }

    /// The state after the closing of a window has begun.
    pub open spec fn after_close(self, id: WindowId) -> App {
        if self.has_window(id) && self.exiting {
            self.without_window()
        } else {
            self
        }
    }

    /// What a wish to close the window leads to: an exiting application closes it,
    /// any other asks first.
    pub open spec fn request_close_actions(self, id: WindowId) -> Seq<Action> {
        if self.exiting {
            self.close_actions(id, true)
        } else if self.has_window(id) {
            seq![Action::AskClose { window: id, label: self.window->0.label }]
        } else {
            seq![]
        }
    }

    /// What is done when the application may be done: nothing while the browser
    /// lives. An exiting application exits; one without a window asks whether it
    /// may.
    pub open spec fn exit_check_actions(self) -> Seq<Action> {
        if self.browser_live {
            seq![]
        } else if self.exiting {
            seq![Action::RunCallback(RunEvent::Exit), Action::ExitEventLoop]
        } else if self.window is None {
            seq![Action::AskExit(None)]
        } else {
            seq![]
        }
    }

    /// The state after the application was asked whether it may exit.
    pub open spec fn after_exit_answer(self, code: Option<i32>, prevented: bool) -> App {
        if prevented {
            self
        } else {
            match code {
                None => App { exiting: true, ..self },
                Some(code) => App { exiting: true, exit_code: code, window: None, ..self },
            }
        }
    }

    /// What follows once the application was asked whether it may exit. If it was
    /// asked because nothing is left, it exits. If it was asked to exit with a
    /// code, the code is left behind and the window is closed; without one, it is
    /// seen whether it is done.
    pub open spec fn exit_answer_actions(self, code: Option<i32>, prevented: bool) -> Seq<Action> {
        if prevented {
            seq![]
        } else {
            match code {
                None => seq![Action::RunCallback(RunEvent::Exit), Action::ExitEventLoop],
                Some(code) => seq![Action::StoreExitCode(code)] + (if self.window is Some {
                    self.finish_close_actions(true)
                } else {
                    seq![Action::ExitIfDone]
                }),
            }
        }
    }

    /// What an event of the native window leads to. A change of focus is told of
    /// once.
    pub open spec fn event_actions(self, id: WindowId, event: Event) -> Seq<Action> {
        match event {
            Event::CloseRequested => self.request_close_actions(id),
            Event::Destroyed => self.close_actions(id, false),
            Event::Focused(focused) => if !self.has_window(id) || self.window->0.reported_focus
                == focused {
                seq![]
            } else {
                let browser = if self.window->0.child is None {
                    seq![]
                } else if focused {
                    seq![Action::FocusBrowser(1), Action::FocusView]
                } else {
                    seq![Action::FocusBrowser(0)]
                };
                browser + seq![
                    Action::EmitWindowEvent { window: id, event: WindowEvent::Focused(focused) },
                ]
            },
        }
    }

    /// The state after an event of the native window.
    pub open spec fn after_event(self, id: WindowId, event: Event) -> App {
        match event {
            Event::CloseRequested | Event::Destroyed => self.after_close(id),
            Event::Focused(focused) => if self.has_window(id) {
                App {
                    window: Some(WaylandWindow { reported_focus: focused, ..self.window->0 }),
                    ..self
                }
            } else {
                self
            },
        }
    }

    /// What a message leads to.
    pub open spec fn message_actions(self, message: Message) -> Seq<Action> {
        match message {
            Message::EventLoop(message) => seq![Action::EventLoop(event_loop_action(message))],
            Message::BrowserClosed => seq![Action::ExitIfDone],
            Message::CreateWindow(request) => match self.created(request) {
                Ok(pending) => seq![Action::Build(pending)],
                Err(error) => seq![Action::Refuse(error)],
            },
            Message::CreateWebview => seq![Action::Refuse(CreateError::LaterWebview)],
            Message::Window(window_id, message) => match message {
                WindowMessage::Close => self.request_close_actions(window_id),
                WindowMessage::Destroy => self.close_actions(window_id, true),
                _ => if self.has_window(window_id) {
                    seq![Action::Window(window::action_for(self.window->0, message))]
                } else {
                    seq![]
                },
            },
            Message::Webview(window_id, message) => if !self.exiting && self.has_window(window_id)
                && self.window->0.child is Some {
                seq![Action::Webview(webview::action_for(window_id, self.window->0, message))]
            } else {
                seq![]
            },
            Message::DragDropScriptEvent | Message::Opened => seq![],
            Message::Task => seq![Action::RunTask],
            Message::RequestExit(code) => if self.exiting {
                seq![]
            } else {
                seq![Action::AskExit(Some(code))]
            },
            Message::UserEvent => seq![Action::RunCallback(RunEvent::UserEvent)],
        }
    }

    /// The state after a message.
    pub open spec fn after_message(self, message: Message) -> App {
        match message {
            Message::BrowserClosed => self.after_browser_closed(),
            Message::Window(window_id, message) => match message {
                WindowMessage::Close | WindowMessage::Destroy => self.after_close(window_id),
                _ => if self.has_window(window_id) {
                    App { window: Some(window::window_after(self.window->0, message)), ..self }
                } else {
                    self
                },
            },
            _ => self,
        }
    }

    /// The window that a request is granted: there is none yet, a webview comes
    /// with it, and nothing is to be run on its handle.
    pub open spec fn created(self, request: CreateWindow) -> Result<PendingWindow, CreateError> {
        if self.window is Some || request.has_after_creation || request.webview_id is None
            || !request.has_webview {
            Err(CreateError::Window)
        } else {
            Ok(
                PendingWindow {
                    window: WaylandWindow {
                        id: request.window_id,
                        label: request.label,
                        attrs: request.attrs,
                        child: None,
                        native: None,
                        initial_surface_size: initial_size(
                            request.surface_size,
                            request.min_surface_size,
                            request.max_surface_size,
                        ),
                        initial_scale_factor: request.scale_factor,
                        reported_focus: false,
                    },
                    webview_id: request.webview_id->0,
                },
            )
        }
    }

    /// The state after the browser of a window was built, if it was.
    pub open spec fn after_built(self, pending: PendingWindow, child: Option<AppWebview>) -> App {
        match child {
            Some(child) => App {
                window: Some(
                    WaylandWindow {
                        child: Some(child),
                        native: Some(NativeWindow { allow_close: false }),
                        ..pending.window
                    },
                ),
                browser_live: true,
                ..self
            },
            None => self,
        }
    }
}

/// The scheme registry after the handlers of a webview were dropped from it.
pub open spec fn registry_without<H>(
    registry: Map<(i32, Seq<char>), H>,
    webview: Option<AppWebview>,
) -> Map<(i32, Seq<char>), H> {
    match webview {
        Some(webview) => registry.remove_keys(
            scheme_keys(webview.browser_id, texts(webview.schemes@)),
        ),
        None => registry,
    }
}

/// The larger of two numbers.
pub open spec fn larger(a: u32, b: u32) -> u32 {
    if a < b {
        b
    } else {
        a
    }
}

/// The smaller of two numbers.
pub open spec fn smaller(a: u32, b: u32) -> u32 {
    if b < a {
        b
    } else {
        a
    }
}

/// The size that a window is created in: the one asked for, or 800 by 600, raised
/// to the minimum and then lowered to the maximum.
pub open spec fn initial_size(
    surface: Option<PhysicalSize>,
    min: Option<PhysicalSize>,
    max: Option<PhysicalSize>,
) -> PhysicalSize {
    let wanted = match surface {
        Some(size) => size,
        None => PhysicalSize { width: 800, height: 600 },
    };
    let raised = match min {
        Some(min) => PhysicalSize {
            width: larger(wanted.width, min.width),
            height: larger(wanted.height, min.height),
        },
        None => wanted,
    };
    match max {
        Some(max) => PhysicalSize {
            width: smaller(raised.width, max.width),
            height: smaller(raised.height, max.height),
        },
        None => raised,
    }
}

/// The size that a window is created in.
pub fn initial_surface_size(
    surface: Option<PhysicalSize>,
    min: Option<PhysicalSize>,
    max: Option<PhysicalSize>,
) -> (r: PhysicalSize)
    ensures
        r == initial_size(surface, min, max),
{
    let mut size = match surface {
        Some(size) => size,
        None => PhysicalSize { width: 800, height: 600 },
    };
    if let Some(min) = min {
        if size.width < min.width {
            size.width = min.width;
        }
        if size.height < min.height {
            size.height = min.height;
        }
    }
    if let Some(max) = max {
        if size.width > max.width {
            size.width = max.width;
        }
        if size.height > max.height {
            size.height = max.height;
        }
    }
    size
}

/// A window is never created larger than its maximum, and not smaller than its
/// minimum unless the maximum forbids that; a size within both limits is kept.
pub proof fn initial_size_keeps_limits(
    surface: Option<PhysicalSize>,
    min: Option<PhysicalSize>,
    max: Option<PhysicalSize>,
)
    ensures
        ({
            let size = initial_size(surface, min, max);
            &&& max matches Some(max) ==> size.width <= max.width && size.height <= max.height
            &&& min matches Some(min) ==> {
                &&& max is None || min.width <= max->0.width ==> size.width >= min.width
                &&& max is None || min.height <= max->0.height ==> size.height >= min.height
            }
            &&& surface matches Some(wanted) ==> {
                &&& min is Some ==> wanted.width >= min->0.width && wanted.height >= min->0.height
                &&& max is Some ==> wanted.width <= max->0.width && wanted.height <= max->0.height
            } ==> size == wanted
        }),
{
}

/// What a request to the event loop leads to. The filter names what is kept away,
/// the event loop what it lets through.
pub open spec fn event_loop_action(message: EventLoopMessage) -> EventLoopAction {
    match message {
        EventLoopMessage::SetTheme => EventLoopAction::Nothing,
        EventLoopMessage::SetDeviceEventFilter(filter) => EventLoopAction::ListenDeviceEvents(
            match filter {
                DeviceEventFilter::Always => DeviceEvents::Never,
                DeviceEventFilter::Unfocused => DeviceEvents::WhenFocused,
                DeviceEventFilter::Never => DeviceEvents::Always,
            },
        ),
        EventLoopMessage::PrimaryMonitor
        | EventLoopMessage::MonitorFromPoint => EventLoopAction::ReplyNoMonitor,
        EventLoopMessage::AvailableMonitors => EventLoopAction::ReplyNoMonitors,
        EventLoopMessage::CursorPosition => EventLoopAction::ReplyNoCursor,
        EventLoopMessage::DisplayHandle => EventLoopAction::ReplyDisplayHandle,
    }
}

/// Takes a request to the event loop.
pub fn handle_event_loop_message(message: EventLoopMessage) -> (r: EventLoopAction)
    ensures
        r == event_loop_action(message),
{
    match message {
        EventLoopMessage::SetTheme => EventLoopAction::Nothing,
        EventLoopMessage::SetDeviceEventFilter(filter) => match filter {
            DeviceEventFilter::Always => EventLoopAction::ListenDeviceEvents(DeviceEvents::Never),
            DeviceEventFilter::Unfocused => EventLoopAction::ListenDeviceEvents(
                DeviceEvents::WhenFocused,
            ),
            DeviceEventFilter::Never => EventLoopAction::ListenDeviceEvents(DeviceEvents::Always),
        },
        EventLoopMessage::PrimaryMonitor
        | EventLoopMessage::MonitorFromPoint => EventLoopAction::ReplyNoMonitor,
        EventLoopMessage::AvailableMonitors => EventLoopAction::ReplyNoMonitors,
        EventLoopMessage::CursorPosition => EventLoopAction::ReplyNoCursor,
        EventLoopMessage::DisplayHandle => EventLoopAction::ReplyDisplayHandle,
    }
}

/// What is done when the event loop wakes up.
pub fn new_events(cause: StartCause) -> (r: Vec<Action>)
    ensures
        r@ == (match cause {
            StartCause::Init => seq![Action::RunCallback(RunEvent::Ready), Action::StartPump],
            StartCause::Poll => seq![Action::RunCallback(RunEvent::Resumed)],
            StartCause::Other => seq![],
        }),
{
    match cause {
        StartCause::Init => vec![Action::RunCallback(RunEvent::Ready), Action::StartPump],
        StartCause::Poll => vec![Action::RunCallback(RunEvent::Resumed)],
        StartCause::Other => Vec::new(),
    }
}

/// What is done before the event loop sleeps.
pub fn about_to_wait() -> (r: Vec<Action>)
    ensures
        r@ == seq![Action::ServiceCef, Action::RunCallback(RunEvent::MainEventsCleared)],
{
    vec![Action::ServiceCef, Action::RunCallback(RunEvent::MainEventsCleared)]
}

/// Drops the custom protocol handlers of a webview.
pub fn remove_scheme_entries<H>(registry: &mut SchemeRegistry<H>, child: &AppWebview)
    ensures
        final(registry)@ == registry_without(old(registry)@, Some(*child)),
{
    registry.remove_all(child.browser_id, &child.schemes);
}

impl App {
    /// An application without a window.
    pub fn new() -> (r: App)
        ensures
            r == (App { window: None, browser_live: false, exiting: false, exit_code: 0 }),
    {
        App { window: None, browser_live: false, exiting: false, exit_code: 0 }
    }

    fn is_window(&self, id: WindowId) -> (r: bool)
        ensures
            r == self.has_window(id),
    {
        match &self.window {
            Some(window) => window.id == id,
            None => false,
        }
    }

    /// Takes a message.
    pub fn handle_message<H>(&mut self, registry: &mut SchemeRegistry<H>, message: Message) -> (r: Vec<Action>)
        ensures
            r@ == old(self).message_actions(message),
            *final(self) == old(self).after_message(message),
            final(registry)@ == (if message is BrowserClosed || final(self).window is None {
                registry_without(old(registry)@, old(self).webview())
            } else {
                old(registry)@
            }),
    {
        match message {
            Message::EventLoop(message) => vec![
                Action::EventLoop(handle_event_loop_message(message)),
            ],
            Message::BrowserClosed => {
                if let Some(window) = &mut self.window {
                    if let Some(child) = window.child.take() {
                        remove_scheme_entries(registry, &child);
                    }
                }
                self.browser_live = false;
                vec![Action::ExitIfDone]
            },
            Message::CreateWindow(request) => match self.create_window(request) {
                Ok(pending) => vec![Action::Build(pending)],
                Err(error) => vec![Action::Refuse(error)],
            },
            Message::CreateWebview => vec![Action::Refuse(CreateError::LaterWebview)],
            Message::Window(window_id, message) => self.handle_window_message(
                registry,
                window_id,
                message,
            ),
            Message::Webview(window_id, message) => match &self.window {
                Some(window) => if !self.exiting && window.id == window_id && window.child.is_some() {
                    vec![Action::Webview(webview::handle_message(window_id, window, message))]
                } else {
                    Vec::new()
                },
                None => Vec::new(),
            },
            Message::DragDropScriptEvent => Vec::new(),
            Message::Task => vec![Action::RunTask],
            Message::RequestExit(code) => self.request_exit(code),
            Message::Opened => Vec::new(),
            Message::UserEvent => vec![Action::RunCallback(RunEvent::UserEvent)],
        }
    }

    /// Sees to a request for a window. Its browser is still to be built.
    pub fn create_window(&self, request: CreateWindow) -> (r: Result<PendingWindow, CreateError>)
        ensures
            r == self.created(request),
            r is Ok <==> self.window is None && !request.has_after_creation
                && request.webview_id is Some && request.has_webview,
            r matches Err(error) ==> error == CreateError::Window,
            r matches Ok(pending) ==> {
                &&& pending.window.id == request.window_id
                &&& pending.window.label == request.label
                &&& pending.window.attrs == request.attrs
                &&& pending.window.initial_scale_factor == request.scale_factor
                &&& Some(pending.webview_id) == request.webview_id
                &&& pending.window.child is None
                &&& pending.window.native is None
                &&& !pending.window.reported_focus
            },
    {
        if self.window.is_some() || request.has_after_creation {
            return Err(CreateError::Window);
        }
        match request.webview_id {
            Some(webview_id) => {
                if !request.has_webview {
                    return Err(CreateError::Window);
                }
                let size = initial_surface_size(
                    request.surface_size,
                    request.min_surface_size,
                    request.max_surface_size,
                );
                Ok(
                    PendingWindow {
                        window: WaylandWindow {
                            id: request.window_id,
                            label: request.label,
                            attrs: request.attrs,
                            child: None,
                            native: None,
                            initial_surface_size: size,
                            initial_scale_factor: request.scale_factor,
                            reported_focus: false,
                        },
                        webview_id,
                    },
                )
            },
            None => Err(CreateError::Window),
        }
    }

    /// Takes note of the browser that was built for a window, if one was: only
    /// then the application has the window.
    pub fn window_built(&mut self, pending: PendingWindow, child: Option<AppWebview>) -> (r: Result<(), CreateError>)
        ensures
            r == (if child is Some {
                Ok::<(), CreateError>(())
            } else {
                Err(CreateError::NoBrowser)
            }),
            *final(self) == old(self).after_built(pending, child),
            r is Ok <==> child is Some,
            child is None ==> *final(self) == *old(self),
            child matches Some(webview) ==> {
                &&& final(self).window matches Some(window)
                &&& window.child == Some(webview)
                &&& window.id == pending.window.id
                &&& window.label == pending.window.label
                &&& window.attrs == pending.window.attrs
                &&& window.initial_surface_size == pending.window.initial_surface_size
                &&& window.initial_scale_factor == pending.window.initial_scale_factor
            },
    {
        match child {
            Some(child) => {
                let mut window = pending.window;
                window.native = Some(NativeWindow::new());
                window.child = Some(child);
                self.browser_live = true;
                self.window = Some(window);
                Ok(())
            },
            None => Err(CreateError::NoBrowser),
        }
    }

    /// Takes a request to a window.
    pub fn handle_window_message<H>(
        &mut self,
        registry: &mut SchemeRegistry<H>,
        window_id: WindowId,
        message: WindowMessage,
    ) -> (r: Vec<Action>)
        ensures
            r@ == old(self).message_actions(Message::Window(window_id, message)),
            *final(self) == old(self).after_message(Message::Window(window_id, message)),
            final(registry)@ == (if final(self).window is None {
                registry_without(old(registry)@, old(self).webview())
            } else {
                old(registry)@
            }),
    {
        match message {
            WindowMessage::Close => self.request_window_close(registry, window_id),
            WindowMessage::Destroy => self.close_window(registry, window_id, true),
            message => {
                if !self.is_window(window_id) {
                    return Vec::new();
                }
                match &mut self.window {
                    Some(window) => vec![
                        Action::Window(window::handle_window_message(window, message)),
                    ],
                    None => Vec::new(),
                }
            },
        }
    }

    /// Takes an event of the native window.
    pub fn handle_window_event<H>(
        &mut self,
        registry: &mut SchemeRegistry<H>,
        window_id: WindowId,
        event: Event,
    ) -> (r: Vec<Action>)
        ensures
            r@ == old(self).event_actions(window_id, event),
            *final(self) == old(self).after_event(window_id, event),
            final(registry)@ == (if final(self).window is None {
                registry_without(old(registry)@, old(self).webview())
            } else {
                old(registry)@
            }),
    {
        match event {
            Event::CloseRequested => self.request_window_close(registry, window_id),
            Event::Destroyed => self.close_window(registry, window_id, false),
            Event::Focused(focused) => {
                let mut actions: Vec<Action> = Vec::new();
                if !self.is_window(window_id) {
                    return actions;
                }
                if let Some(window) = &mut self.window {
                    if window.reported_focus == focused {
                        return actions;
                    }
                    window.reported_focus = focused;
                    if window.child.is_some() {
                        actions.push(Action::FocusBrowser(cef_bool(focused)));
                        if focused {
                            actions.push(Action::FocusView);
                        }
                    }
                }
                actions.push(
                    Action::EmitWindowEvent {
                        window: window_id,
                        event: WindowEvent::Focused(focused),
                    },
                );
                actions
            },
        }
    }

    /// Begins to close a window.
    pub fn close_window<H>(
        &mut self,
        registry: &mut SchemeRegistry<H>,
        window_id: WindowId,
        close_native: bool,
    ) -> (r: Vec<Action>)
        ensures
            r@ == old(self).close_actions(window_id, close_native),
            *final(self) == old(self).after_close(window_id),
            final(registry)@ == (if final(self).window is None {
                registry_without(old(registry)@, old(self).webview())
            } else {
                old(registry)@
            }),
    {
        if !self.is_window(window_id) {
            return Vec::new();
        }
        if self.exiting {
            return self.finish_close(registry, close_native);
        }
        match self.emit_window_event(window_id, WindowEvent::Destroyed) {
            Some(emit) => vec![emit, Action::FinishClose { close_native }],
            None => vec![Action::FinishClose { close_native }],
        }
    }

    /// Finishes closing the window, if there still is one.
    pub fn finish_close<H>(&mut self, registry: &mut SchemeRegistry<H>, close_native: bool) -> (r: Vec<Action>)
        ensures
            r@ == old(self).finish_close_actions(close_native),
            *final(self) == old(self).without_window(),
            final(registry)@ == registry_without(old(registry)@, old(self).webview()),
    {
        let mut actions: Vec<Action> = Vec::new();
        match self.window.take() {
            Some(mut window) => {
                if let Some(child) = &window.child {
                    remove_scheme_entries(registry, child);
                    actions.push(Action::CloseBrowser(child.browser_id));
                }
                if close_native && window.close() {
                    actions.push(Action::CloseNative);
                }
                actions.push(Action::ExitIfDone);
                actions
            },
            None => actions,
        }
    }

    /// Takes a wish to close a window.
    pub fn request_window_close<H>(&mut self, registry: &mut SchemeRegistry<H>, window_id: WindowId) -> (r: Vec<
        Action,
    >)
        ensures
            r@ == old(self).request_close_actions(window_id),
            *final(self) == old(self).after_close(window_id),
            final(registry)@ == (if final(self).window is None {
                registry_without(old(registry)@, old(self).webview())
            } else {
                old(registry)@
            }),
    {
        if self.exiting {
            return self.close_window(registry, window_id, true);
        }
        match &self.window {
            Some(window) => if window.id == window_id {
                vec![Action::AskClose { window: window_id, label: window.label.clone() }]
            } else {
                Vec::new()
            },
            None => Vec::new(),
        }
    }

    /// Goes on after it was asked whether a window may close, with the first
    /// answer that came, if any: it is closed unless that was to prevent it.
    pub fn close_answered<H>(
        &mut self,
        registry: &mut SchemeRegistry<H>,
        window_id: WindowId,
        prevent: Option<bool>,
    ) -> (r: Vec<Action>)
        ensures
            r@ == (if prevent == Some(true) {
                seq![]
            } else {
                old(self).close_actions(window_id, true)
            }),
            prevent == Some(true) ==> r@.len() == 0 && *final(self) == *old(self),
            prevent != Some(true) && old(self).has_window(window_id) && !old(self).exiting ==> r@.len()
                == 2 && r@[1] == (Action::FinishClose { close_native: true }),
            *final(self) == (if prevent == Some(true) {
                *old(self)
            } else {
                old(self).after_close(window_id)
            }),
            final(registry)@ == (if prevent != Some(true) && final(self).window is None {
                registry_without(old(registry)@, old(self).webview())
            } else {
                old(registry)@
            }),
    {
        match prevent {
            Some(true) => Vec::new(),
            _ => self.close_window(registry, window_id, true),
        }
    }

    /// Tells of something at a window, if it is the application's.
    pub fn emit_window_event(&self, window_id: WindowId, event: WindowEvent) -> (r: Option<Action>)
        ensures
            r == (if self.has_window(window_id) {
                Some(Action::Emit { window: window_id, label: self.window->0.label, event })
            } else {
                None
            }),
    {
        match &self.window {
            Some(window) => if window.id == window_id {
                Some(Action::Emit { window: window_id, label: window.label.clone(), event })
            } else {
                None
            },
            None => None,
        }
    }

    /// Takes a wish to exit with a code: once is enough.
    pub fn request_exit(&self, code: i32) -> (r: Vec<Action>)
        ensures
            r@ == self.message_actions(Message::RequestExit(code)),
    {
        if self.exiting {
            Vec::new()
        } else {
            vec![Action::AskExit(Some(code))]
        }
    }

    /// Goes on after the application was asked whether it may exit.
    pub fn exit_answered<H>(
        &mut self,
        registry: &mut SchemeRegistry<H>,
        code: Option<i32>,
        prevented: bool,
    ) -> (r: Vec<Action>)
        ensures
            r@ == old(self).exit_answer_actions(code, prevented),
            *final(self) == old(self).after_exit_answer(code, prevented),
            final(registry)@ == (if final(self).window is None {
                registry_without(old(registry)@, old(self).webview())
            } else {
                old(registry)@
            }),
    {
        if prevented {
            return Vec::new();
        }
        self.exiting = true;
        match code {
            None => vec![Action::RunCallback(RunEvent::Exit), Action::ExitEventLoop],
            Some(code) => {
                self.exit_code = code;
                let id = match &self.window {
                    Some(window) => Some(window.id),
                    None => None,
                };
                let mut actions: Vec<Action> = vec![Action::StoreExitCode(code)];
                match id {
                    Some(id) => {
                        let mut closing = self.close_window(registry, id, true);
                        actions.append(&mut closing);
                    },
                    None => actions.push(Action::ExitIfDone),
                }
                actions
            },
        }
    }

    /// Sees whether the application is done.
    pub fn exit_if_done(&self) -> (r: Vec<Action>)
        ensures
            r@ == self.exit_check_actions(),
    {
        if self.browser_live {
            return Vec::new();
        }
        if self.exiting {
            vec![Action::RunCallback(RunEvent::Exit), Action::ExitEventLoop]
        } else if self.window.is_none() {
            vec![Action::AskExit(None)]
        } else {
            Vec::new()
        }
    }
}

/// A window is granted exactly when it is the first, comes with a webview, and
/// nothing is to be run on its handle. It carries over everything that was asked for,
/// as it was asked for, and is in the size that its limits allow; it has no browser,
/// no native window and no focus yet.
pub proof fn granted_windows_are_as_requested(app: App, request: CreateWindow)
    ensures
        app.created(request) is Ok <==> app.window is None && !request.has_after_creation
            && request.webview_id is Some && request.has_webview,
        app.created(request) matches Err(error) ==> error == CreateError::Window,
        app.created(request) matches Ok(pending) ==> {
            let window = pending.window;
            &&& Some(pending.webview_id) == request.webview_id
            &&& window.id == request.window_id
            &&& window.label == request.label
            &&& window.attrs.title == request.attrs.title
            &&& window.attrs.fullscreen == request.attrs.fullscreen
            &&& window.attrs.maximized == request.attrs.maximized
            &&& window.attrs.visible == request.attrs.visible
            &&& window.attrs.decorations == request.attrs.decorations
            &&& window.attrs.resizable == request.attrs.resizable
            &&& window.attrs.window_level == request.attrs.window_level
            &&& window.attrs.enabled_buttons == request.attrs.enabled_buttons
            &&& window.attrs.min_surface_size == request.attrs.min_surface_size
            &&& window.attrs.max_surface_size == request.attrs.max_surface_size
            &&& window.attrs.preferred_theme == request.attrs.preferred_theme
            &&& window.attrs.background_color == request.attrs.background_color
            &&& window.initial_scale_factor == request.scale_factor
            &&& window.initial_surface_size == initial_size(
                request.surface_size,
                request.min_surface_size,
                request.max_surface_size,
            )
            &&& window.child is None
            &&& window.native is None
            &&& !window.reported_focus
        },
{
}

/// Either extent of a new window is the one asked for wherever the limits allow it,
/// the minimum where it falls short of that, and the maximum where it, or the
/// minimum, exceeds that. Without a wish a window is 800 by 600.
pub proof fn each_extent_keeps_its_limits(
    surface: Option<PhysicalSize>,
    min: Option<PhysicalSize>,
    max: Option<PhysicalSize>,
)
    ensures
        ({
            let size = initial_size(surface, min, max);
            let (width, height): (u32, u32) = match surface {
                Some(size) => (size.width, size.height),
                None => (800, 600),
            };
            let too_wide = max matches Some(max) && (width > max.width || (min matches Some(min)
                && min.width > max.width));
            let too_high = max matches Some(max) && (height > max.height || (min matches Some(min)
                && min.height > max.height));
            let too_narrow = min matches Some(min) && width < min.width;
            let too_low = min matches Some(min) && height < min.height;
            &&& too_wide ==> size.width == max->0.width
            &&& too_high ==> size.height == max->0.height
            &&& !too_wide && too_narrow ==> size.width == min->0.width
            &&& !too_high && too_low ==> size.height == min->0.height
            &&& !too_wide && !too_narrow ==> size.width == width
            &&& !too_high && !too_low ==> size.height == height
        }),
{
}

/// The event loop listens the more the less is filtered, and to one thing for each
/// filter. It knows of no monitor and no cursor, and gives its display handle to
/// whoever asks for that and to nobody else.
pub proof fn filters_and_listening_are_opposites(message: EventLoopMessage)
    ensures
        ({
            let action = event_loop_action(message);
            &&& action == EventLoopAction::ListenDeviceEvents(DeviceEvents::Never) <==> message
                == EventLoopMessage::SetDeviceEventFilter(DeviceEventFilter::Always)
            &&& action == EventLoopAction::ListenDeviceEvents(DeviceEvents::WhenFocused) <==> message
                == EventLoopMessage::SetDeviceEventFilter(DeviceEventFilter::Unfocused)
            &&& action == EventLoopAction::ListenDeviceEvents(DeviceEvents::Always) <==> message
                == EventLoopMessage::SetDeviceEventFilter(DeviceEventFilter::Never)
            &&& action == EventLoopAction::ReplyNoMonitor <==> message
                == EventLoopMessage::PrimaryMonitor || message == EventLoopMessage::MonitorFromPoint
            &&& action == EventLoopAction::ReplyNoMonitors <==> message
                == EventLoopMessage::AvailableMonitors
            &&& action == EventLoopAction::ReplyNoCursor <==> message
                == EventLoopMessage::CursorPosition
            &&& action == EventLoopAction::ReplyDisplayHandle <==> message
                == EventLoopMessage::DisplayHandle
            &&& action == EventLoopAction::Nothing <==> message == EventLoopMessage::SetTheme
        }),
{
}

} // verus!
