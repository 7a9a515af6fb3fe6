//! The one window of a native Wayland application: what it is asked, and what its
//! CEF delegate answers.
//!
//! Its geometry is fixed when it is created, and Wayland has no global window
//! coordinates: it is always found at the origin, in the size it was made.

use vstd::prelude::*;

use crate::config::CefConfig;
use crate::geometry::{cef_dimension, cef_size, clamped, no_size, Binary64, CefSize, PhysicalPosition, PhysicalSize, Rect, Size};
use crate::views::{can_close, close_answer, CloseAnswer, NativeWindow, WindowSetup};
use crate::webview::AppWebview;
use crate::window::{
    button_flags, cef_bool, has_button, int_of, show_state, show_state_of, AppWindowAttrs, AttrsView, ShowState,
    WindowAction, WindowButton, WindowFlag, WindowId, WindowMessage, WindowOp, WindowQuery,
    WindowReply,
};

verus! {

/// What happens to the native window by itself.
#[derive(Clone, Copy, Debug, PartialEq, Eq, Structural)]
pub enum Event {
    CloseRequested,
    Destroyed,
    Focused(bool),
}

/// The window, its webview and what is known about the two.
#[derive(Debug, PartialEq)]
pub struct WaylandWindow {
    pub id: WindowId,
    pub label: String,
    pub attrs: AppWindowAttrs,
    pub child: Option<AppWebview>,
    pub native: Option<NativeWindow>,
    pub initial_surface_size: PhysicalSize,
    pub initial_scale_factor: Binary64,
    pub reported_focus: bool,
}

impl WaylandWindow {
    /// Lets the native window close without asking, if there is one. CEF is then
    /// told to close it.
    pub fn close(&mut self) -> (r: bool)
        ensures
            r == (old(self).native is Some),
            *final(self) == (WaylandWindow {
                native: match old(self).native {
                    Some(_) => Some(NativeWindow { allow_close: true }),
                    None => None,
                },
                ..*old(self)
            }),
    {
        match &mut self.native {
            Some(native) => {
                native.force_close();
                true
            },
            None => false,
        }
    }
}

/// What the delegate of the native window was made with.
#[derive(Debug, PartialEq)]
pub struct WindowConfig {
    pub title: String,
    pub bounds: Rect,
    pub show_state: ShowState,
    pub visible: bool,
    pub frameless: bool,
    pub initial_scale_factor: Binary64,
    pub app_id: String,
    pub resizable: bool,
    pub maximizable: bool,
    pub minimizable: bool,
    pub closable: bool,
    pub min_size: Option<Size>,
}

impl WindowConfig {
    /// The configuration of a window with the given attributes. Its size comes
    /// divided by the scale factor and rounded.
    pub fn new(
        attrs: &AppWindowAttrs,
        width: i64,
        height: i64,
        scale_factor: Binary64,
        config: &CefConfig,
    ) -> (r: WindowConfig)
        ensures
            r.title == attrs.title,
            r.bounds.x == 0,
            r.bounds.y == 0,
            r.bounds.width == clamped(width as int, 1, i32::MAX as int),
            r.bounds.height == clamped(height as int, 1, i32::MAX as int),
            1 <= width <= i32::MAX ==> r.bounds.width == width,
            1 <= height <= i32::MAX ==> r.bounds.height == height,
            r.bounds.width >= 1 && r.bounds.height >= 1,
            r.show_state == show_state_of(attrs@),
            r.visible == attrs.visible,
            r.frameless == !attrs.decorations,
            r.initial_scale_factor == scale_factor,
            r.app_id == config.identifier,
            r.resizable == attrs.resizable,
            r.maximizable == attrs@.has(WindowButton::Maximize),
            r.minimizable == attrs@.has(WindowButton::Minimize),
            r.closable == attrs@.has(WindowButton::Close),
            r.min_size == attrs.min_surface_size,
            r.show_state == ShowState::Fullscreen <==> attrs.fullscreen,
            r.show_state == ShowState::Maximized <==> attrs.maximized && !attrs.fullscreen,
            r.maximizable == button_flags(attrs.enabled_buttons).contains(4),
            r.minimizable == button_flags(attrs.enabled_buttons).contains(2),
            r.closable == button_flags(attrs.enabled_buttons).contains(1),
    {
        WindowConfig {
            title: attrs.title.clone(),
            bounds: Rect {
                x: 0,
                y: 0,
                width: cef_dimension(width),
                height: cef_dimension(height),
            },
            show_state: show_state(attrs),
            visible: attrs.visible,
            frameless: !attrs.decorations,
            initial_scale_factor: scale_factor,
            app_id: config.identifier.clone(),
            resizable: attrs.resizable,
            maximizable: has_button(&attrs.enabled_buttons, WindowButton::Maximize),
            minimizable: has_button(&attrs.enabled_buttons, WindowButton::Minimize),
            closable: has_button(&attrs.enabled_buttons, WindowButton::Close),
            min_size: attrs.min_surface_size,
        }
    }

    /// The size that the window would like to have.
    pub fn preferred_size(&self) -> (r: CefSize)
        ensures
            r == (CefSize { width: self.bounds.width, height: self.bounds.height }),
    {
        CefSize { width: self.bounds.width, height: self.bounds.height }
    }

    /// The least size of the window, from its minimum divided by the scale factor
    /// and rounded. Without a minimum the two are not looked at.
    pub fn minimum_size(&self, width: i64, height: i64) -> (r: CefSize)
        ensures
            self.min_size is Some ==> {
                &&& r.width == clamped(width as int, 1, i32::MAX as int)
                &&& r.height == clamped(height as int, 1, i32::MAX as int)
            },
            self.min_size is None ==> r == (CefSize { width: 0, height: 0 }),
            self.min_size is Some ==> {
                &&& 1 <= width <= i32::MAX ==> r.width == width
                &&& 1 <= height <= i32::MAX ==> r.height == height
                &&& r.width >= 1 && r.height >= 1
            },
    {
        if self.min_size.is_some() {
            cef_size(width, height)
        } else {
            no_size()
        }
    }

    /// What is done to the native window once CEF has created it.
    pub fn on_window_created(&self) -> (r: Vec<WindowSetup>)
        ensures
            r@ == (if self.visible {
                seq![
                    WindowSetup::FillLayout,
                    WindowSetup::AddBrowserView,
                    WindowSetup::SetTitle(self.title),
                    WindowSetup::Show,
                ]
            } else {
                seq![
                    WindowSetup::FillLayout,
                    WindowSetup::AddBrowserView,
                    WindowSetup::SetTitle(self.title),
                ]
            }),
            r@[2] == WindowSetup::SetTitle(self.title),
            r@.len() == 4 <==> self.visible,
            r@.len() == 4 ==> r@[3] == WindowSetup::Show,
    {
        let mut setup: Vec<WindowSetup> = Vec::new();
        setup.push(WindowSetup::FillLayout);
        setup.push(WindowSetup::AddBrowserView);
        setup.push(WindowSetup::SetTitle(self.title.clone()));
        if self.visible {
            setup.push(WindowSetup::Show);
        }
        setup
    }

    /// Whether the window has no frame.
    pub fn is_frameless(&self) -> (r: i32)
        ensures
            r == int_of(self.frameless),
            r == 1 <==> self.frameless,
            r == 0 <==> !self.frameless,
    {
        cef_bool(self.frameless)
    }

    /// Whether the user may resize the window.
    pub fn can_resize(&self) -> (r: i32)
        ensures
            r == int_of(self.resizable),
            r == 1 <==> self.resizable,
            r == 0 <==> !self.resizable,
    {
        cef_bool(self.resizable)
    }

    /// Whether the user may maximize the window.
    pub fn can_maximize(&self) -> (r: i32)
        ensures
            r == int_of(self.maximizable),
            r == 1 <==> self.maximizable,
            r == 0 <==> !self.maximizable,
    {
        cef_bool(self.maximizable)
    }

    /// Whether the user may minimize the window.
    pub fn can_minimize(&self) -> (r: i32)
        ensures
            r == int_of(self.minimizable),
            r == 1 <==> self.minimizable,
            r == 0 <==> !self.minimizable,
    {
        cef_bool(self.minimizable)
    }

    /// Whether the window may close, and whether the application is to be asked.
    pub fn can_close(&self, allow_close: bool) -> (r: CloseAnswer)
        ensures
            r == close_answer(allow_close, self.closable),
            r.allowed == 1 <==> allow_close,
            r.allowed == 0 <==> !allow_close,
            r.request <==> self.closable && !allow_close,
    {
        can_close(allow_close, self.closable)
    }
}

/// The answer that needs the native window where there is one.
pub open spec fn asked_or(native: Option<NativeWindow>, flag: WindowFlag, otherwise: bool) -> WindowAction {
    match native {
        Some(_) => WindowAction::Query(WindowQuery::Flag(flag)),
        None => WindowAction::Reply(WindowReply::Flag(otherwise)),
    }
}

/// What is done with the native window where there is one.
pub open spec fn performed(native: Option<NativeWindow>, op: WindowOp) -> WindowAction {
    match native {
        Some(_) => WindowAction::Perform(op),
        None => WindowAction::Nothing,
    }
}

/// What a request to the window leads to. A request that is not listed is not
/// supported and leads to nothing.
pub open spec fn action_for(window: WaylandWindow, message: WindowMessage) -> WindowAction {
    let attrs = window.attrs@;
    match message {
        WindowMessage::AddEventListener(id) => WindowAction::Perform(WindowOp::AddListener(id)),
        WindowMessage::ScaleFactor => WindowAction::Reply(
            WindowReply::ScaleFactor(window.initial_scale_factor),
        ),
        WindowMessage::InnerPosition | WindowMessage::OuterPosition => WindowAction::Reply(
            WindowReply::Position(PhysicalPosition { x: 0, y: 0 }),
        ),
        WindowMessage::InnerSize | WindowMessage::OuterSize => WindowAction::Reply(
            WindowReply::Size(window.initial_surface_size),
        ),
        WindowMessage::IsFullscreen => asked_or(window.native, WindowFlag::Fullscreen, attrs.fullscreen),
        WindowMessage::IsMinimized => asked_or(window.native, WindowFlag::Minimized, false),
        WindowMessage::IsMaximized => asked_or(window.native, WindowFlag::Maximized, attrs.maximized),
        WindowMessage::IsFocused => asked_or(window.native, WindowFlag::Active, false),
        WindowMessage::IsVisible => asked_or(window.native, WindowFlag::Visible, attrs.visible),
        WindowMessage::IsDecorated => WindowAction::Reply(WindowReply::Flag(attrs.decorations)),
        WindowMessage::IsResizable => WindowAction::Reply(WindowReply::Flag(attrs.resizable)),
        WindowMessage::IsMaximizable => WindowAction::Reply(
            WindowReply::Flag(attrs.has(WindowButton::Maximize)),
        ),
        WindowMessage::IsMinimizable => WindowAction::Reply(
            WindowReply::Flag(attrs.has(WindowButton::Minimize)),
        ),
        WindowMessage::IsClosable => WindowAction::Reply(
            WindowReply::Flag(attrs.has(WindowButton::Close)),
        ),
        WindowMessage::IsEnabled => WindowAction::Reply(WindowReply::Flag(true)),
        WindowMessage::IsAlwaysOnTop => WindowAction::Reply(WindowReply::Flag(false)),
        WindowMessage::Title => WindowAction::Reply(WindowReply::Title(window.attrs.title)),
        WindowMessage::CurrentMonitor
        | WindowMessage::PrimaryMonitor
        | WindowMessage::MonitorFromPoint => WindowAction::Reply(WindowReply::NoMonitor),
        WindowMessage::AvailableMonitors => WindowAction::Reply(WindowReply::NoMonitors),
        WindowMessage::RawWindowHandle => WindowAction::Reply(WindowReply::Failed),
        WindowMessage::Theme => match attrs.preferred_theme {
            Some(theme) => WindowAction::Reply(WindowReply::Theme(theme)),
            None => WindowAction::Query(WindowQuery::SystemTheme),
        },
        WindowMessage::SetTitle(title) => performed(window.native, WindowOp::SetTitle(title)),
        WindowMessage::Maximize => performed(window.native, WindowOp::Maximize),
        WindowMessage::Unmaximize | WindowMessage::Unminimize => performed(
            window.native,
            WindowOp::Restore,
        ),
        WindowMessage::Minimize => performed(window.native, WindowOp::Minimize),
        WindowMessage::Show => performed(window.native, WindowOp::Show),
        WindowMessage::Hide => performed(window.native, WindowOp::Hide),
        WindowMessage::SetFullscreen(fullscreen) => performed(
            window.native,
            WindowOp::SetFullscreen(int_of(fullscreen)),
        ),
        WindowMessage::SetFocus => performed(window.native, WindowOp::Focus),
        _ => WindowAction::Nothing,
    }
}

/// The attributes of the window after a request.
pub open spec fn attrs_after(attrs: AppWindowAttrs, message: WindowMessage) -> AppWindowAttrs {
    match message {
        WindowMessage::SetTitle(title) => AppWindowAttrs { title, ..attrs },
        WindowMessage::Maximize => AppWindowAttrs { maximized: true, ..attrs },
        WindowMessage::Unmaximize => AppWindowAttrs { maximized: false, ..attrs },
        WindowMessage::Show => AppWindowAttrs { visible: true, ..attrs },
        WindowMessage::Hide => AppWindowAttrs { visible: false, ..attrs },
        WindowMessage::SetFullscreen(fullscreen) => AppWindowAttrs { fullscreen, ..attrs },
        _ => attrs,
    }
}

/// The window after a request: nothing but its attributes changes.
pub open spec fn window_after(window: WaylandWindow, message: WindowMessage) -> WaylandWindow {
    WaylandWindow { attrs: attrs_after(window.attrs, message), ..window }
}

fn ask_or(native: &Option<NativeWindow>, flag: WindowFlag, otherwise: bool) -> (r: WindowAction)
    ensures
        r == asked_or(*native, flag, otherwise),
{
    if native.is_some() {
        WindowAction::Query(WindowQuery::Flag(flag))
    } else {
        WindowAction::Reply(WindowReply::Flag(otherwise))
    }
}

fn perform(native: &Option<NativeWindow>, op: WindowOp) -> (r: WindowAction)
    ensures
        r == performed(*native, op),
{
    if native.is_some() {
        WindowAction::Perform(op)
    } else {
        WindowAction::Nothing
    }
}

/// Takes a request to the window. Closing and destroying are not among them: they
/// concern the application.
pub fn handle_window_message(appwindow: &mut WaylandWindow, message: WindowMessage) -> (r: WindowAction)
    requires
        !(message is Close),
        !(message is Destroy),
    ensures
        r == action_for(*old(appwindow), message),
        *final(appwindow) == window_after(*old(appwindow), message),
{
    match message {
        WindowMessage::AddEventListener(id) => WindowAction::Perform(WindowOp::AddListener(id)),
        WindowMessage::ScaleFactor => WindowAction::Reply(
            WindowReply::ScaleFactor(appwindow.initial_scale_factor),
        ),
        WindowMessage::InnerPosition | WindowMessage::OuterPosition => WindowAction::Reply(
            WindowReply::Position(PhysicalPosition { x: 0, y: 0 }),
        ),
        WindowMessage::InnerSize | WindowMessage::OuterSize => WindowAction::Reply(
            WindowReply::Size(appwindow.initial_surface_size),
        ),
        WindowMessage::IsFullscreen => ask_or(
            &appwindow.native,
            WindowFlag::Fullscreen,
            appwindow.attrs.fullscreen,
        ),
        WindowMessage::IsMinimized => ask_or(&appwindow.native, WindowFlag::Minimized, false),
        WindowMessage::IsMaximized => ask_or(
            &appwindow.native,
            WindowFlag::Maximized,
            appwindow.attrs.maximized,
        ),
        WindowMessage::IsFocused => ask_or(&appwindow.native, WindowFlag::Active, false),
        WindowMessage::IsVisible => ask_or(
            &appwindow.native,
            WindowFlag::Visible,
            appwindow.attrs.visible,
        ),
        WindowMessage::IsDecorated => WindowAction::Reply(
            WindowReply::Flag(appwindow.attrs.decorations),
        ),
        WindowMessage::IsResizable => WindowAction::Reply(
            WindowReply::Flag(appwindow.attrs.resizable),
        ),
        WindowMessage::IsMaximizable => WindowAction::Reply(
            WindowReply::Flag(has_button(&appwindow.attrs.enabled_buttons, WindowButton::Maximize)),
        ),
        WindowMessage::IsMinimizable => WindowAction::Reply(
            WindowReply::Flag(has_button(&appwindow.attrs.enabled_buttons, WindowButton::Minimize)),
        ),
        WindowMessage::IsClosable => WindowAction::Reply(
            WindowReply::Flag(has_button(&appwindow.attrs.enabled_buttons, WindowButton::Close)),
        ),
        WindowMessage::IsEnabled => WindowAction::Reply(WindowReply::Flag(true)),
        WindowMessage::IsAlwaysOnTop => WindowAction::Reply(WindowReply::Flag(false)),
        WindowMessage::Title => WindowAction::Reply(
            WindowReply::Title(appwindow.attrs.title.clone()),
        ),
        WindowMessage::CurrentMonitor
        | WindowMessage::PrimaryMonitor
        | WindowMessage::MonitorFromPoint => WindowAction::Reply(WindowReply::NoMonitor),
        WindowMessage::AvailableMonitors => WindowAction::Reply(WindowReply::NoMonitors),
        WindowMessage::RawWindowHandle => WindowAction::Reply(WindowReply::Failed),
        WindowMessage::Theme => match appwindow.attrs.preferred_theme {
            Some(theme) => WindowAction::Reply(WindowReply::Theme(theme)),
            None => WindowAction::Query(WindowQuery::SystemTheme),
        },
        WindowMessage::SetTitle(title) => {
            appwindow.attrs.title = title.clone();
            perform(&appwindow.native, WindowOp::SetTitle(title))
        },
        WindowMessage::Maximize => {
            appwindow.attrs.maximized = true;
            perform(&appwindow.native, WindowOp::Maximize)
        },
        WindowMessage::Unmaximize => {
            appwindow.attrs.maximized = false;
            perform(&appwindow.native, WindowOp::Restore)
        },
        WindowMessage::Minimize => perform(&appwindow.native, WindowOp::Minimize),
        WindowMessage::Unminimize => perform(&appwindow.native, WindowOp::Restore),
        WindowMessage::Show => {
            appwindow.attrs.visible = true;
            perform(&appwindow.native, WindowOp::Show)
        },
        WindowMessage::Hide => {
            appwindow.attrs.visible = false;
            perform(&appwindow.native, WindowOp::Hide)
        },
        WindowMessage::SetFullscreen(fullscreen) => {
            appwindow.attrs.fullscreen = fullscreen;
            perform(&appwindow.native, WindowOp::SetFullscreen(cef_bool(fullscreen)))
        },
        WindowMessage::SetFocus => perform(&appwindow.native, WindowOp::Focus),
        _ => WindowAction::Nothing,
    }
}

/// A request that is answered changes nothing: neither one that is answered at
/// once nor one for which the native window is asked.
pub proof fn questions_change_nothing(window: WaylandWindow, message: WindowMessage)
    requires
        action_for(window, message) is Reply || action_for(window, message) is Query,
    ensures
        window_after(window, message) == window,
{
}

/// What was set is what is answered: the title at once, and how the window is
/// shown as long as there is no native window to ask.
pub proof fn settings_are_read_back(window: WaylandWindow, message: WindowMessage)
    ensures
        message matches WindowMessage::SetTitle(title) ==> action_for(
            window_after(window, message),
            WindowMessage::Title,
        ) == WindowAction::Reply(WindowReply::Title(title)),
        window.native is None ==> {
            let after = window_after(window, message);
            &&& message is Maximize ==> action_for(after, WindowMessage::IsMaximized)
                == WindowAction::Reply(WindowReply::Flag(true))
            &&& message is Unmaximize ==> action_for(after, WindowMessage::IsMaximized)
                == WindowAction::Reply(WindowReply::Flag(false))
            &&& message is Show ==> action_for(after, WindowMessage::IsVisible)
                == WindowAction::Reply(WindowReply::Flag(true))
            &&& message is Hide ==> action_for(after, WindowMessage::IsVisible)
                == WindowAction::Reply(WindowReply::Flag(false))
            &&& message matches WindowMessage::SetFullscreen(fullscreen) ==> action_for(
                after,
                WindowMessage::IsFullscreen,
            ) == WindowAction::Reply(WindowReply::Flag(fullscreen))
        },
{
}

/// The window after a series of requests.
pub open spec fn window_after_all(window: WaylandWindow, messages: Seq<WindowMessage>) -> WaylandWindow
    decreases messages.len(),
{
    if messages.len() == 0 {
        window
    } else {
        window_after(window_after_all(window, messages.drop_last()), messages.last())
    }
}

/// No request moves or resizes the window: it is found at the origin, in the size
/// and at the scale it was created with, whatever was asked of it before.
pub proof fn geometry_is_fixed(window: WaylandWindow, messages: Seq<WindowMessage>)
    ensures
        ({
            let after = window_after_all(window, messages);
            let size = WindowAction::Reply(WindowReply::Size(window.initial_surface_size));
            let origin = WindowAction::Reply(
                WindowReply::Position(PhysicalPosition { x: 0, y: 0 }),
            );
            &&& action_for(after, WindowMessage::InnerSize) == size
            &&& action_for(after, WindowMessage::OuterSize) == size
            &&& action_for(after, WindowMessage::InnerPosition) == origin
            &&& action_for(after, WindowMessage::OuterPosition) == origin
            &&& action_for(after, WindowMessage::ScaleFactor) == WindowAction::Reply(
                WindowReply::ScaleFactor(window.initial_scale_factor),
            )
        }),
    decreases messages.len(),
{
    if messages.len() > 0 {
        geometry_is_fixed(window, messages.drop_last());
    }
}

/// What the native window is told to do determines what was asked for, with its
/// value, and is done for no other request. Where there is no native window nothing
/// is done; listeners are the application's and need none.
pub proof fn operations_determine_the_request(
    window: WaylandWindow,
    message: WindowMessage,
    value: bool,
    title: String,
    listener: u32,
)
    ensures
        ({
            let action = action_for(window, message);
            let there = window.native is Some;
            &&& action == WindowAction::Perform(WindowOp::AddListener(listener)) <==> message
                == WindowMessage::AddEventListener(listener)
            &&& action == WindowAction::Perform(WindowOp::SetTitle(title)) <==> there && message
                == WindowMessage::SetTitle(title)
            &&& action == WindowAction::Perform(
                WindowOp::SetFullscreen(
                    if value {
                        1
                    } else {
                        0
                    },
                ),
            ) <==> there && message == WindowMessage::SetFullscreen(value)
            &&& action == WindowAction::Perform(WindowOp::Maximize) <==> there && message is Maximize
            &&& action == WindowAction::Perform(WindowOp::Minimize) <==> there && message is Minimize
            &&& action == WindowAction::Perform(WindowOp::Restore) <==> there && (
            message is Unmaximize || message is Unminimize)
            &&& action == WindowAction::Perform(WindowOp::Show) <==> there && message is Show
            &&& action == WindowAction::Perform(WindowOp::Hide) <==> there && message is Hide
            &&& action == WindowAction::Perform(WindowOp::Focus) <==> there && message is SetFocus
            &&& action is Perform <==> message is AddEventListener || (there && (
            message is SetTitle || message is SetFullscreen || message is Maximize
                || message is Minimize || message is Unmaximize || message is Unminimize
                || message is Show || message is Hide || message is SetFocus))
        }),
{
}

/// The native window, where there is one, is asked for what only it knows, and what
/// it is asked determines the question. Without one the attributes answer for what
/// they say, and a window is neither minimized nor focused. The system is asked for
/// a theme only where none is preferred.
pub proof fn states_are_asked_of_the_native_window(window: WaylandWindow, message: WindowMessage)
    ensures
        ({
            let action = action_for(window, message);
            let there = window.native is Some;
            &&& action == WindowAction::Query(WindowQuery::Flag(WindowFlag::Fullscreen)) <==> there
                && message is IsFullscreen
            &&& action == WindowAction::Query(WindowQuery::Flag(WindowFlag::Minimized)) <==> there
                && message is IsMinimized
            &&& action == WindowAction::Query(WindowQuery::Flag(WindowFlag::Maximized)) <==> there
                && message is IsMaximized
            &&& action == WindowAction::Query(WindowQuery::Flag(WindowFlag::Active)) <==> there
                && message is IsFocused
            &&& action == WindowAction::Query(WindowQuery::Flag(WindowFlag::Visible)) <==> there
                && message is IsVisible
            &&& action == WindowAction::Query(WindowQuery::SystemTheme) <==> message is Theme
                && window.attrs.preferred_theme is None
            &&& action is Query <==> (message is Theme && window.attrs.preferred_theme is None) || (
            there && (message is IsFullscreen || message is IsMinimized || message is IsMaximized
                || message is IsFocused || message is IsVisible))
            &&& !there && message is IsFullscreen ==> action == WindowAction::Reply(
                WindowReply::Flag(window.attrs.fullscreen),
            )
            &&& !there && message is IsMaximized ==> action == WindowAction::Reply(
                WindowReply::Flag(window.attrs.maximized),
            )
            &&& !there && message is IsVisible ==> action == WindowAction::Reply(
                WindowReply::Flag(window.attrs.visible),
            )
            &&& !there && (message is IsMinimized || message is IsFocused) ==> action
                == WindowAction::Reply(WindowReply::Flag(false))
            &&& message is Theme ==> (window.attrs.preferred_theme matches Some(theme) ==> action
                == WindowAction::Reply(WindowReply::Theme(theme)))
        }),
{
}

/// What the window was made with is answered from that; it is always enabled, never
/// on top, and knows of no monitor; its handle is not given away. What is not asked
/// for here, nor done, is not supported and leads to nothing.
pub proof fn known_things_are_answered(window: WaylandWindow, message: WindowMessage)
    ensures
        action_for(window, WindowMessage::IsDecorated) == WindowAction::Reply(
            WindowReply::Flag(window.attrs.decorations),
        ),
        action_for(window, WindowMessage::IsResizable) == WindowAction::Reply(
            WindowReply::Flag(window.attrs.resizable),
        ),
        action_for(window, WindowMessage::IsMaximizable) == WindowAction::Reply(
            WindowReply::Flag(button_flags(window.attrs.enabled_buttons).contains(4)),
        ),
        action_for(window, WindowMessage::IsMinimizable) == WindowAction::Reply(
            WindowReply::Flag(button_flags(window.attrs.enabled_buttons).contains(2)),
        ),
        action_for(window, WindowMessage::IsClosable) == WindowAction::Reply(
            WindowReply::Flag(button_flags(window.attrs.enabled_buttons).contains(1)),
        ),
        action_for(window, WindowMessage::IsEnabled) == WindowAction::Reply(WindowReply::Flag(true)),
        action_for(window, WindowMessage::IsAlwaysOnTop) == WindowAction::Reply(
            WindowReply::Flag(false),
        ),
        action_for(window, WindowMessage::Title) == WindowAction::Reply(
            WindowReply::Title(window.attrs.title),
        ),
        message is CurrentMonitor || message is PrimaryMonitor || message is MonitorFromPoint
            ==> action_for(window, message) == WindowAction::Reply(WindowReply::NoMonitor),
        action_for(window, WindowMessage::AvailableMonitors) == WindowAction::Reply(
            WindowReply::NoMonitors,
        ),
        action_for(window, WindowMessage::RawWindowHandle) == WindowAction::Reply(WindowReply::Failed),
        action_for(window, message) is Reply ==> message is ScaleFactor || message is InnerPosition
            || message is OuterPosition || message is InnerSize || message is OuterSize
            || message is IsFullscreen || message is IsMinimized || message is IsMaximized
            || message is IsFocused || message is IsVisible || message is IsDecorated
            || message is IsResizable || message is IsMaximizable || message is IsMinimizable
            || message is IsClosable || message is IsEnabled || message is IsAlwaysOnTop
            || message is Title || message is CurrentMonitor || message is PrimaryMonitor
            || message is MonitorFromPoint || message is AvailableMonitors
            || message is RawWindowHandle || message is Theme,
{
}

/// Each attribute is changed by the requests that set it, to what they say, and by no
/// other; nothing else about the window changes.
pub proof fn attributes_change_by_their_own_requests(window: WaylandWindow, message: WindowMessage)
    ensures
        ({
            let before = window.attrs;
            let after = window_after(window, message).attrs;
            &&& after.title == (match message {
                WindowMessage::SetTitle(title) => title,
                _ => before.title,
            })
            &&& after.fullscreen == (match message {
                WindowMessage::SetFullscreen(value) => value,
                _ => before.fullscreen,
            })
            &&& after.maximized <==> message is Maximize || (before.maximized
                && !(message is Unmaximize))
            &&& after.visible <==> message is Show || (before.visible && !(message is Hide))
            &&& after.decorations == before.decorations
            &&& after.resizable == before.resizable
            &&& after.window_level == before.window_level
            &&& after.enabled_buttons == before.enabled_buttons
            &&& after.min_surface_size == before.min_surface_size
            &&& after.max_surface_size == before.max_surface_size
            &&& after.preferred_theme == before.preferred_theme
            &&& after.background_color == before.background_color
        }),
        ({
            let after = window_after(window, message);
            &&& after.id == window.id
            &&& after.label == window.label
            &&& after.child == window.child
            &&& after.native == window.native
            &&& after.initial_surface_size == window.initial_surface_size
            &&& after.initial_scale_factor == window.initial_scale_factor
            &&& after.reported_focus == window.reported_focus
        }),
{
}

} // verus!
