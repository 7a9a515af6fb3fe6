//! A native Wayland window that CEF Views owns, beside windows of other kinds.
//!
//! CEF cannot embed a browser into a Wayland window that is not its own. So it owns
//! the top-level window, and a browser view fills it.

use vstd::prelude::*;

pub mod drag;
pub mod webview;

use crate::config::CefConfig;
use crate::geometry::{
    cef_dimension, cef_size, clamped, no_size, physical_bounds, scale_factor, Binary64, CefSize,
    PhysicalSize, Rect, Size, ONE_BITS,
};
use crate::views::{
    browser_created, can_close, close_answer, still_awaited, BrowserCreated, BrowserCreation,
    CloseAnswer, WindowSetup,
};
use crate::webview::InitializationScript;
use crate::window::{
    button_flags, cef_bool, flags_with, has_button, int_of, set_button, show_state, show_state_of,
    AppWindowAttrs, AttrsView, Color, ShowState, WindowAction, WindowButton, WindowFlag, WindowLevel,
    WindowMessage, WindowOp, WindowQuery, WindowReply,
};

verus! {

/// Marks the draggable parts of a page by a style of their own, at once.
pub const DRAG_REGION_SCRIPT: &'static str = r#"
(() => {
  const style = document.createElement("style");
  style.textContent = `
    [data-tauri-drag-region]:not([data-tauri-drag-region="false"]) {
      -webkit-app-region: drag;
    }
    [data-tauri-drag-region]:not([data-tauri-drag-region="deep"]) * {
      -webkit-app-region: no-drag;
    }
    [data-tauri-drag-region="false"],
    [data-tauri-drag-region="deep"] :is(a, button, input, select, textarea, label, summary,
      [contenteditable]:not([contenteditable="false"]), [tabindex]:not([tabindex="-1"]),
      [role="button"], [role="link"], [role="menuitem"], [role="tab"], [role="checkbox"],
      [role="radio"], [role="switch"], [role="option"]):not([data-tauri-drag-region]) {
      -webkit-app-region: no-drag;
    }
  `;
  (document.head || document.documentElement).append(style);
})();
"#;

/// The script that makes the draggable parts of a page and of its frames draggable.
pub fn drag_region_initialization_script() -> (r: InitializationScript)
    ensures
        r.script@ == DRAG_REGION_SCRIPT@,
        !r.for_main_frame_only,
{
    InitializationScript { script: DRAG_REGION_SCRIPT.to_owned(), for_main_frame_only: false }
}

/// What happens to the native window by itself.
#[derive(Clone, Copy, Debug, PartialEq, Eq, Structural)]
pub enum Event {
    CloseRequested,
    Destroyed,
    Focused(bool),
    Resized(PhysicalSize),
    ScaleFactorChanged { scale_factor: Binary64, new_inner_size: PhysicalSize },
}

/// What the user may do with a window, as its delegate answers it.
#[derive(Clone, Copy, Debug, PartialEq, Eq, Structural)]
pub struct WindowState {
    pub resizable: bool,
    pub maximizable: bool,
    pub minimizable: bool,
    pub closable: bool,
    pub min_size: Option<Size>,
    pub max_size: Option<Size>,
}

impl WindowState {
    /// Whether the delegate answers what the attributes of the window say.
    pub open spec fn agrees_with(self, attrs: AttrsView) -> bool {
        &&& self.resizable == attrs.resizable
        &&& self.maximizable == attrs.has(WindowButton::Maximize)
        &&& self.minimizable == attrs.has(WindowButton::Minimize)
        &&& self.closable == attrs.has(WindowButton::Close)
        &&& self.min_size == attrs.min_surface_size
        &&& self.max_size == attrs.max_surface_size
    }

    /// What the user may do with a window of the given attributes.
    pub fn of(attrs: &AppWindowAttrs) -> (r: WindowState)
        ensures
            r.agrees_with(attrs@),
            r.resizable == attrs.resizable,
            r.maximizable == button_flags(attrs.enabled_buttons).contains(4),
            r.minimizable == button_flags(attrs.enabled_buttons).contains(2),
            r.closable == button_flags(attrs.enabled_buttons).contains(1),
            r.min_size == attrs.min_surface_size,
            r.max_size == attrs.max_surface_size,
    {
        WindowState {
            resizable: attrs.resizable,
            maximizable: has_button(&attrs.enabled_buttons, WindowButton::Maximize),
            minimizable: has_button(&attrs.enabled_buttons, WindowButton::Minimize),
            closable: has_button(&attrs.enabled_buttons, WindowButton::Close),
            min_size: attrs.min_surface_size,
            max_size: attrs.max_surface_size,
        }
    }

    /// The least size of the window, from its minimum divided by the scale factor
    /// and rounded. Without a minimum the two are not looked at.
    pub fn minimum_size(&self, width: i64, height: i64) -> (r: CefSize)
        ensures
            self.min_size is Some ==> {
                &&& r.width == clamped(width as int, 1, i32::MAX as int)
                &&& r.height == clamped(height as int, 1, i32::MAX as int)
            },
            self.min_size is None ==> r == (CefSize { width: 0, height: 0 }),
            self.min_size is Some ==> {
                &&& 1 <= width <= i32::MAX ==> r.width == width
                &&& 1 <= height <= i32::MAX ==> r.height == height
                &&& r.width >= 1 && r.height >= 1
            },
    {
        if self.min_size.is_some() {
            cef_size(width, height)
        } else {
            no_size()
        }
    }

    /// The greatest size of the window, from its maximum divided by the scale
    /// factor and rounded. Without a maximum the two are not looked at.
    pub fn maximum_size(&self, width: i64, height: i64) -> (r: CefSize)
        ensures
            self.max_size is Some ==> {
                &&& r.width == clamped(width as int, 1, i32::MAX as int)
                &&& r.height == clamped(height as int, 1, i32::MAX as int)
            },
            self.max_size is None ==> r == (CefSize { width: 0, height: 0 }),
            self.max_size is Some ==> {
                &&& 1 <= width <= i32::MAX ==> r.width == width
                &&& 1 <= height <= i32::MAX ==> r.height == height
                &&& r.width >= 1 && r.height >= 1
            },
    {
        if self.max_size.is_some() {
            cef_size(width, height)
        } else {
            no_size()
        }
    }

    /// Whether the user may resize the window.
    pub fn can_resize(&self) -> (r: i32)
        ensures
            r == int_of(self.resizable),
            r == 1 <==> self.resizable,
            r == 0 <==> !self.resizable,
    {
        cef_bool(self.resizable)
    }

    /// Whether the user may maximize the window.
    pub fn can_maximize(&self) -> (r: i32)
        ensures
            r == int_of(self.maximizable),
            r == 1 <==> self.maximizable,
            r == 0 <==> !self.maximizable,
    {
        cef_bool(self.maximizable)
    }

    /// Whether the user may minimize the window.
    pub fn can_minimize(&self) -> (r: i32)
        ensures
            r == int_of(self.minimizable),
            r == 1 <==> self.minimizable,
            r == 0 <==> !self.minimizable,
    {
        cef_bool(self.minimizable)
    }

    /// Whether the window may close, and whether the application is to be asked.
    pub fn can_close(&self, allow_close: bool) -> (r: CloseAnswer)
        ensures
            r == close_answer(allow_close, self.closable),
            r.allowed == 1 <==> allow_close,
            r.allowed == 0 <==> !allow_close,
            r.request <==> self.closable && !allow_close,
    {
        can_close(allow_close, self.closable)
    }
}

/// What the delegate of a native window is made with.
#[derive(Debug, PartialEq, Eq)]
pub struct WindowConfig {
    pub title: String,
    pub bounds: Rect,
    pub show_state: ShowState,
    pub visible: bool,
    pub frameless: bool,
    pub always_on_top: bool,
    pub initial_scale_factor: Binary64,
    pub app_id: String,
    pub state: WindowState,
}

impl WindowConfig {
    /// The configuration of a window with the given attributes. Its size comes
    /// divided by the scale factor and rounded.
    pub fn new(
        attrs: &AppWindowAttrs,
        width: i64,
        height: i64,
        scale_factor: Binary64,
        config: &CefConfig,
    ) -> (r: WindowConfig)
        ensures
            r.title == attrs.title,
            r.bounds.x == 0,
            r.bounds.y == 0,
            r.bounds.width == clamped(width as int, 1, i32::MAX as int),
            r.bounds.height == clamped(height as int, 1, i32::MAX as int),
            1 <= width <= i32::MAX ==> r.bounds.width == width,
            1 <= height <= i32::MAX ==> r.bounds.height == height,
            r.bounds.width >= 1 && r.bounds.height >= 1,
            r.show_state == show_state_of(attrs@),
            r.visible == attrs.visible,
            r.frameless == !attrs.decorations,
            r.always_on_top == (attrs.window_level == WindowLevel::AlwaysOnTop),
            r.initial_scale_factor == scale_factor,
            r.app_id == config.identifier,
            r.state.agrees_with(attrs@),
            r.show_state == ShowState::Fullscreen <==> attrs.fullscreen,
            r.show_state == ShowState::Maximized <==> attrs.maximized && !attrs.fullscreen,
            r.state.resizable == attrs.resizable,
            r.state.maximizable == button_flags(attrs.enabled_buttons).contains(4),
            r.state.minimizable == button_flags(attrs.enabled_buttons).contains(2),
            r.state.closable == button_flags(attrs.enabled_buttons).contains(1),
            r.state.min_size == attrs.min_surface_size,
            r.state.max_size == attrs.max_surface_size,
    {
        WindowConfig {
            title: attrs.title.clone(),
            bounds: Rect {
                x: 0,
                y: 0,
                width: cef_dimension(width),
                height: cef_dimension(height),
            },
            show_state: show_state(attrs),
            visible: attrs.visible,
            frameless: !attrs.decorations,
            always_on_top: attrs.window_level == WindowLevel::AlwaysOnTop,
            initial_scale_factor: scale_factor,
            app_id: config.identifier.clone(),
            state: WindowState::of(attrs),
        }
    }

    /// Whether the window has no frame.
    pub fn is_frameless(&self) -> (r: bool)
        ensures
            r == self.frameless,
    {
        self.frameless
    }

    /// The size that the window would like to have.
    pub fn preferred_size(&self) -> (r: CefSize)
        ensures
            r == (CefSize { width: self.bounds.width, height: self.bounds.height }),
    {
        CefSize { width: self.bounds.width, height: self.bounds.height }
    }

    /// What is done to the native window once CEF has created it.
    pub fn on_window_created(&self) -> (r: Vec<WindowSetup>)
        ensures
            r@ == seq![
                WindowSetup::FillLayout,
                WindowSetup::AddBrowserView,
                WindowSetup::SetTitle(self.title),
                WindowSetup::SetAlwaysOnTop(int_of(self.always_on_top)),
            ] + (if self.visible {
                seq![WindowSetup::Show]
            } else {
                seq![]
            }),
            r@[2] == WindowSetup::SetTitle(self.title),
            r@[3] == WindowSetup::SetAlwaysOnTop(1) <==> self.always_on_top,
            r@[3] == WindowSetup::SetAlwaysOnTop(0) <==> !self.always_on_top,
            r@.len() == 5 <==> self.visible,
            r@.len() == 5 ==> r@[4] == WindowSetup::Show,
    {
        let mut setup: Vec<WindowSetup> = Vec::new();
        setup.push(WindowSetup::FillLayout);
        setup.push(WindowSetup::AddBrowserView);
        setup.push(WindowSetup::SetTitle(self.title.clone()));
        setup.push(WindowSetup::SetAlwaysOnTop(cef_bool(self.always_on_top)));
        if self.visible {
            setup.push(WindowSetup::Show);
        }
        setup
    }
}

/// What the creation of a browser leads to.
#[derive(Clone, Copy, Debug, PartialEq, Eq, Structural)]
pub struct NativeBrowserCreated {
    /// Set the view's background color once more to what it is: the web view
    /// behind it was made after the defaults had been applied.
    pub reapply_background: bool,
    /// On delivery the draggable regions are attached to the window first.
    pub outcome: BrowserCreated,
}

/// Takes note that CEF created the browser.
pub fn on_browser_created(
    creation: &mut BrowserCreation,
    has_view: bool,
    has_browser: bool,
    has_window: bool,
) -> (r: NativeBrowserCreated)
    ensures
        r.reapply_background == (has_view && has_browser),
        r.outcome == browser_created(old(creation).awaited, has_view, has_browser, has_window),
        final(creation).awaited == still_awaited(old(creation).awaited, has_view, has_browser),
{
    let outcome = creation.on_browser_created(has_view, has_browser, has_window);
    NativeBrowserCreated { reapply_background: has_view && has_browser, outcome }
}

/// The scale and the inner size of a window.
#[derive(Clone, Copy, Debug, PartialEq, Eq, Structural)]
pub struct Geometry {
    pub scale_factor: Binary64,
    pub inner_size: PhysicalSize,
}

/// The geometry that a window had when it was last looked at.
#[derive(Clone, Copy, Debug, PartialEq, Eq, Structural)]
pub struct GeometryWatch {
    pub last: Option<Geometry>,
}

/// What is told of when the geometry of a window may have changed: a scale that
/// differs from the last one, then a size that differs. The first size is told of,
/// the first scale is not.
pub open spec fn geometry_events(last: Option<Geometry>, now: Geometry) -> Seq<Event> {
    let scale = if last is Some && !last->0.scale_factor.equals(now.scale_factor) {
        seq![
            Event::ScaleFactorChanged {
                scale_factor: now.scale_factor,
                new_inner_size: now.inner_size,
            },
        ]
    } else {
        seq![]
    };
    let size = if last is None || last->0.inner_size != now.inner_size {
        seq![Event::Resized(now.inner_size)]
    } else {
        seq![]
    };
    scale + size
}

/// The geometry of a window whose display has the given scale factor, if it has a
/// display, and whose client area has the given bounds in physical pixels.
pub open spec fn geometry_of(display: Option<Binary64>, client_area: Rect) -> Geometry {
    Geometry {
        scale_factor: match display {
            Some(factor) => factor,
            None => Binary64 { bits: ONE_BITS },
        },
        inner_size: PhysicalSize {
            width: (if client_area.width > 0 { client_area.width as int } else { 0 }) as u32,
            height: (if client_area.height > 0 { client_area.height as int } else { 0 }) as u32,
        },
    }
}

impl GeometryWatch {
    /// A window that was not looked at yet.
    pub fn new() -> (r: GeometryWatch)
        ensures
            r.last is None,
    {
        GeometryWatch { last: None }
    }

    /// Takes note that the bounds of the window may have changed.
    pub fn on_window_bounds_changed(&mut self, display: Option<Binary64>, client_area: Rect) -> (r: Vec<Event>)
        ensures
            r@ == geometry_events(old(self).last, geometry_of(display, client_area)),
            final(self).last == Some(geometry_of(display, client_area)),
            final(self).last matches Some(now) && {
                &&& display matches Some(factor) ==> now.scale_factor == factor
                &&& display is None ==> now.scale_factor.bits == 0x3ff0_0000_0000_0000
                &&& now.inner_size.width == (if client_area.width > 0 {
                    client_area.width as int
                } else {
                    0
                })
                &&& now.inner_size.height == (if client_area.height > 0 {
                    client_area.height as int
                } else {
                    0
                })
                &&& r@.contains(Event::Resized(now.inner_size)) <==> (old(self).last matches Some(
                    last,
                ) ==> last.inner_size != now.inner_size)
                &&& r@.contains(
                    Event::ScaleFactorChanged {
                        scale_factor: now.scale_factor,
                        new_inner_size: now.inner_size,
                    },
                ) <==> (old(self).last matches Some(last) && !last.scale_factor.equals(
                    now.scale_factor,
                ))
                &&& forall|i: int|
                    0 <= i < r@.len() ==> (#[trigger] r@[i]) == Event::Resized(now.inner_size) || r@[i] == (
                    Event::ScaleFactorChanged {
                        scale_factor: now.scale_factor,
                        new_inner_size: now.inner_size,
                    })
            },
    {
        let now = Geometry {
            scale_factor: scale_factor(display),
            inner_size: physical_bounds(client_area).1,
        };
        let mut events: Vec<Event> = Vec::new();
        if let Some(last) = self.last {
            if last.scale_factor.differs(now.scale_factor) {
                events.push(
                    Event::ScaleFactorChanged {
                        scale_factor: now.scale_factor,
                        new_inner_size: now.inner_size,
                    },
                );
            }
            if last.inner_size != now.inner_size {
                events.push(Event::Resized(now.inner_size));
            }
        } else {
            events.push(Event::Resized(now.inner_size));
        }
        self.last = Some(now);
        proof {
            changes_are_told_of(old(self).last, now);
            assert(now == geometry_of(display, client_area));
            assert(events@ == geometry_events(old(self).last, now));
        }
        events
    }
}

/// A window whose geometry stays the same has nothing to tell of, and one that is
/// looked at for the first time tells of its size.
pub proof fn geometry_is_told_of_on_change(geometry: Geometry)
    ensures
        !geometry.scale_factor.is_nan() ==> geometry_events(Some(geometry), geometry)
            == Seq::<Event>::empty(),
        geometry_events(None, geometry) == seq![Event::Resized(geometry.inner_size)],
{
    assert(geometry_events(None, geometry) =~= seq![Event::Resized(geometry.inner_size)]);
}

/// A window of the application, with what its native delegate answers if its first
/// webview is in a native Wayland window.
#[derive(Debug, PartialEq)]
pub struct AppWindow {
    pub attrs: AppWindowAttrs,
    pub native: Option<WindowState>,
}

/// Whether a request is left to others: none of those that the native window sees
/// to.
pub open spec fn left_to_others(message: WindowMessage) -> bool {
    match message {
        WindowMessage::AddEventListener(_)
        | WindowMessage::Close
        | WindowMessage::Destroy
        | WindowMessage::CurrentMonitor
        | WindowMessage::PrimaryMonitor
        | WindowMessage::MonitorFromPoint
        | WindowMessage::AvailableMonitors
        | WindowMessage::Theme
        | WindowMessage::SetTheme => true,
        _ => false,
    }
}

/// What a request to a native window leads to. A request that is not listed, and
/// not left to others, is not supported or only noted.
pub open spec fn action_for(attrs: AttrsView, message: WindowMessage) -> WindowAction {
    match message {
        WindowMessage::ScaleFactor => WindowAction::Query(WindowQuery::ScaleFactor),
        WindowMessage::InnerPosition | WindowMessage::OuterPosition => WindowAction::Query(
            WindowQuery::Position,
        ),
        WindowMessage::InnerSize => WindowAction::Query(WindowQuery::InnerSize),
        WindowMessage::OuterSize => WindowAction::Query(WindowQuery::OuterSize),
        WindowMessage::IsFullscreen => WindowAction::Query(
            WindowQuery::Flag(WindowFlag::Fullscreen),
        ),
        WindowMessage::IsMinimized => WindowAction::Query(WindowQuery::Flag(WindowFlag::Minimized)),
        WindowMessage::IsMaximized => WindowAction::Query(WindowQuery::Flag(WindowFlag::Maximized)),
        WindowMessage::IsFocused => WindowAction::Query(WindowQuery::Flag(WindowFlag::Active)),
        WindowMessage::IsVisible => WindowAction::Query(WindowQuery::Flag(WindowFlag::Visible)),
        WindowMessage::IsEnabled => WindowAction::Query(WindowQuery::Flag(WindowFlag::Enabled)),
        WindowMessage::IsAlwaysOnTop => WindowAction::Query(
            WindowQuery::Flag(WindowFlag::AlwaysOnTop),
        ),
        WindowMessage::Title => WindowAction::Query(WindowQuery::Title),
        WindowMessage::IsDecorated => WindowAction::Reply(WindowReply::Flag(attrs.decorations)),
        WindowMessage::IsResizable => WindowAction::Reply(WindowReply::Flag(attrs.resizable)),
        WindowMessage::IsMaximizable => WindowAction::Reply(
            WindowReply::Flag(attrs.has(WindowButton::Maximize)),
        ),
        WindowMessage::IsMinimizable => WindowAction::Reply(
            WindowReply::Flag(attrs.has(WindowButton::Minimize)),
        ),
        WindowMessage::IsClosable => WindowAction::Reply(
            WindowReply::Flag(attrs.has(WindowButton::Close)),
        ),
        WindowMessage::RawWindowHandle => WindowAction::Reply(WindowReply::Failed),
        WindowMessage::Center => WindowAction::Perform(WindowOp::Center),
        WindowMessage::SetEnabled(enabled) => WindowAction::Perform(
            WindowOp::SetEnabled(int_of(enabled)),
        ),
        WindowMessage::SetTitle(title) => WindowAction::Perform(WindowOp::SetTitle(title)),
        WindowMessage::Maximize => WindowAction::Perform(WindowOp::Maximize),
        WindowMessage::Unmaximize | WindowMessage::Unminimize => WindowAction::Perform(
            WindowOp::Restore,
        ),
        WindowMessage::Minimize => WindowAction::Perform(WindowOp::Minimize),
        WindowMessage::Show => WindowAction::Perform(WindowOp::Show),
        WindowMessage::Hide => WindowAction::Perform(WindowOp::Hide),
        WindowMessage::SetAlwaysOnTop(on_top) => WindowAction::Perform(
            WindowOp::SetAlwaysOnTop(int_of(on_top)),
        ),
        WindowMessage::SetSize(size) => WindowAction::Perform(WindowOp::SetSize(size)),
        WindowMessage::SetFullscreen(fullscreen) => WindowAction::Perform(
            WindowOp::SetFullscreen(int_of(fullscreen)),
        ),
        WindowMessage::SetFocus => WindowAction::Perform(WindowOp::Focus),
        WindowMessage::SetFocusable(focusable) => WindowAction::Perform(
            WindowOp::SetFocusable(int_of(focusable)),
        ),
        WindowMessage::SetBackgroundColor(color) => WindowAction::Perform(
            WindowOp::SetBackgroundColor(color),
        ),
        _ => WindowAction::Nothing,
    }
}

/// The attributes of a native window after a request.
pub open spec fn attrs_after(attrs: AttrsView, message: WindowMessage) -> AttrsView {
    match message {
        WindowMessage::SetResizable(resizable) => AttrsView { resizable, ..attrs },
        WindowMessage::SetMaximizable(enabled) => AttrsView {
            buttons: flags_with(attrs.buttons, WindowButton::Maximize, enabled),
            ..attrs
        },
        WindowMessage::SetMinimizable(enabled) => AttrsView {
            buttons: flags_with(attrs.buttons, WindowButton::Minimize, enabled),
            ..attrs
        },
        WindowMessage::SetClosable(enabled) => AttrsView {
            buttons: flags_with(attrs.buttons, WindowButton::Close, enabled),
            ..attrs
        },
        WindowMessage::SetTitle(title) => AttrsView { title: title@, ..attrs },
        WindowMessage::SetAlwaysOnTop(on_top) => AttrsView {
            window_level: if on_top {
                WindowLevel::AlwaysOnTop
            } else {
                WindowLevel::Normal
            },
            ..attrs
        },
        WindowMessage::SetMinSize(size) => AttrsView { min_surface_size: size, ..attrs },
        WindowMessage::SetMaxSize(size) => AttrsView { max_surface_size: size, ..attrs },
        WindowMessage::SetSizeConstraints { min, max } => AttrsView {
            min_surface_size: min,
            max_surface_size: max,
            ..attrs
        },
        WindowMessage::SetBackgroundColor(color) => AttrsView { background_color: color, ..attrs },
        _ => attrs,
    }
}

/// What the delegate of a native window answers after a request.
pub open spec fn state_after(state: WindowState, message: WindowMessage) -> WindowState {
    match message {
        WindowMessage::SetResizable(resizable) => WindowState { resizable, ..state },
        WindowMessage::SetMaximizable(maximizable) => WindowState { maximizable, ..state },
        WindowMessage::SetMinimizable(minimizable) => WindowState { minimizable, ..state },
        WindowMessage::SetClosable(closable) => WindowState { closable, ..state },
        WindowMessage::SetMinSize(min_size) => WindowState { min_size, ..state },
        WindowMessage::SetMaxSize(max_size) => WindowState { max_size, ..state },
        WindowMessage::SetSizeConstraints { min, max } => WindowState {
            min_size: min,
            max_size: max,
            ..state
        },
        _ => state,
    }
}

/// Takes a request to a window. One that the native window does not see to is given
/// back, as is every request to a window that is not native.
pub fn handle_window_message(appwindow: &mut AppWindow, message: WindowMessage) -> (r: Result<
    WindowAction,
    WindowMessage,
>)
    ensures
        old(appwindow).native is None || left_to_others(message) ==> {
            &&& r == Err::<WindowAction, WindowMessage>(message)
            &&& *final(appwindow) == *old(appwindow)
        },
        old(appwindow).native is Some && !left_to_others(message) ==> {
            &&& r == Ok::<WindowAction, WindowMessage>(action_for(old(appwindow).attrs@, message))
            &&& final(appwindow).attrs@ == attrs_after(old(appwindow).attrs@, message)
            &&& final(appwindow).native == Some(state_after(old(appwindow).native->0, message))
            &&& message matches WindowMessage::SetFullscreen(value) ==> r == Ok::<
                WindowAction,
                WindowMessage,
            >(WindowAction::Perform(WindowOp::SetFullscreen(if value { 1 } else { 0 })))
            &&& message matches WindowMessage::SetEnabled(value) ==> r == Ok::<
                WindowAction,
                WindowMessage,
            >(WindowAction::Perform(WindowOp::SetEnabled(if value { 1 } else { 0 })))
            &&& message matches WindowMessage::SetAlwaysOnTop(value) ==> r == Ok::<
                WindowAction,
                WindowMessage,
            >(WindowAction::Perform(WindowOp::SetAlwaysOnTop(if value { 1 } else { 0 })))
            &&& message matches WindowMessage::SetFocusable(value) ==> r == Ok::<
                WindowAction,
                WindowMessage,
            >(WindowAction::Perform(WindowOp::SetFocusable(if value { 1 } else { 0 })))
        },
{
    let mut state = match appwindow.native {
        Some(state) => state,
        None => return Err(message),
    };
    let action = match message {
        WindowMessage::ScaleFactor => WindowAction::Query(WindowQuery::ScaleFactor),
        WindowMessage::InnerPosition | WindowMessage::OuterPosition => WindowAction::Query(
            WindowQuery::Position,
        ),
        WindowMessage::InnerSize => WindowAction::Query(WindowQuery::InnerSize),
        WindowMessage::OuterSize => WindowAction::Query(WindowQuery::OuterSize),
        WindowMessage::IsFullscreen => WindowAction::Query(
            WindowQuery::Flag(WindowFlag::Fullscreen),
        ),
        WindowMessage::IsMinimized => WindowAction::Query(WindowQuery::Flag(WindowFlag::Minimized)),
        WindowMessage::IsMaximized => WindowAction::Query(WindowQuery::Flag(WindowFlag::Maximized)),
        WindowMessage::IsFocused => WindowAction::Query(WindowQuery::Flag(WindowFlag::Active)),
        WindowMessage::IsDecorated => WindowAction::Reply(
            WindowReply::Flag(appwindow.attrs.decorations),
        ),
        WindowMessage::IsResizable => WindowAction::Reply(
            WindowReply::Flag(appwindow.attrs.resizable),
        ),
        WindowMessage::IsMaximizable => WindowAction::Reply(
            WindowReply::Flag(has_button(&appwindow.attrs.enabled_buttons, WindowButton::Maximize)),
        ),
        WindowMessage::IsMinimizable => WindowAction::Reply(
            WindowReply::Flag(has_button(&appwindow.attrs.enabled_buttons, WindowButton::Minimize)),
        ),
        WindowMessage::IsClosable => WindowAction::Reply(
            WindowReply::Flag(has_button(&appwindow.attrs.enabled_buttons, WindowButton::Close)),
        ),
        WindowMessage::IsVisible => WindowAction::Query(WindowQuery::Flag(WindowFlag::Visible)),
        WindowMessage::IsEnabled => WindowAction::Query(WindowQuery::Flag(WindowFlag::Enabled)),
        WindowMessage::IsAlwaysOnTop => WindowAction::Query(
            WindowQuery::Flag(WindowFlag::AlwaysOnTop),
        ),
        WindowMessage::Title => WindowAction::Query(WindowQuery::Title),
        WindowMessage::RawWindowHandle => WindowAction::Reply(WindowReply::Failed),
        WindowMessage::Center => WindowAction::Perform(WindowOp::Center),
        WindowMessage::SetEnabled(enabled) => WindowAction::Perform(
            WindowOp::SetEnabled(cef_bool(enabled)),
        ),
        WindowMessage::SetResizable(resizable) => {
            appwindow.attrs.resizable = resizable;
            state.resizable = resizable;
            WindowAction::Nothing
        },
        WindowMessage::SetMaximizable(enabled) => {
            set_button(&mut appwindow.attrs.enabled_buttons, WindowButton::Maximize, enabled);
            state.maximizable = enabled;
            WindowAction::Nothing
        },
        WindowMessage::SetMinimizable(enabled) => {
            set_button(&mut appwindow.attrs.enabled_buttons, WindowButton::Minimize, enabled);
            state.minimizable = enabled;
            WindowAction::Nothing
        },
        WindowMessage::SetClosable(enabled) => {
            set_button(&mut appwindow.attrs.enabled_buttons, WindowButton::Close, enabled);
            state.closable = enabled;
            WindowAction::Nothing
        },
        WindowMessage::SetTitle(title) => {
            appwindow.attrs.title = title.clone();
            WindowAction::Perform(WindowOp::SetTitle(title))
        },
        WindowMessage::Maximize => WindowAction::Perform(WindowOp::Maximize),
        WindowMessage::Unmaximize | WindowMessage::Unminimize => WindowAction::Perform(
            WindowOp::Restore,
        ),
        WindowMessage::Minimize => WindowAction::Perform(WindowOp::Minimize),
        WindowMessage::Show => WindowAction::Perform(WindowOp::Show),
        WindowMessage::Hide => WindowAction::Perform(WindowOp::Hide),
        WindowMessage::SetAlwaysOnTop(on_top) => {
            appwindow.attrs.window_level = if on_top {
                WindowLevel::AlwaysOnTop
            } else {
                WindowLevel::Normal
            };
            WindowAction::Perform(WindowOp::SetAlwaysOnTop(cef_bool(on_top)))
        },
        WindowMessage::SetSize(size) => WindowAction::Perform(WindowOp::SetSize(size)),
        WindowMessage::SetMinSize(size) => {
            appwindow.attrs.min_surface_size = size;
            state.min_size = size;
            WindowAction::Nothing
        },
        WindowMessage::SetMaxSize(size) => {
            appwindow.attrs.max_surface_size = size;
            state.max_size = size;
            WindowAction::Nothing
        },
        WindowMessage::SetSizeConstraints { min, max } => {
            appwindow.attrs.min_surface_size = min;
            appwindow.attrs.max_surface_size = max;
            state.min_size = min;
            state.max_size = max;
            WindowAction::Nothing
        },
        WindowMessage::SetFullscreen(fullscreen) => WindowAction::Perform(
            WindowOp::SetFullscreen(cef_bool(fullscreen)),
        ),
        WindowMessage::SetFocus => WindowAction::Perform(WindowOp::Focus),
        WindowMessage::SetFocusable(focusable) => WindowAction::Perform(
            WindowOp::SetFocusable(cef_bool(focusable)),
        ),
        WindowMessage::SetBackgroundColor(color) => {
            appwindow.attrs.background_color = color;
            WindowAction::Perform(WindowOp::SetBackgroundColor(color))
        },
        WindowMessage::AddEventListener(id) => {
            return Err(WindowMessage::AddEventListener(id));
        },
        WindowMessage::Close => return Err(WindowMessage::Close),
        WindowMessage::Destroy => return Err(WindowMessage::Destroy),
        WindowMessage::CurrentMonitor => return Err(WindowMessage::CurrentMonitor),
        WindowMessage::PrimaryMonitor => return Err(WindowMessage::PrimaryMonitor),
        WindowMessage::MonitorFromPoint => return Err(WindowMessage::MonitorFromPoint),
        WindowMessage::AvailableMonitors => return Err(WindowMessage::AvailableMonitors),
        WindowMessage::Theme => return Err(WindowMessage::Theme),
        WindowMessage::SetTheme => return Err(WindowMessage::SetTheme),
        WindowMessage::RequestUserAttention
        | WindowMessage::SetDecorations(_)
        | WindowMessage::SetAlwaysOnBottom(_)
        | WindowMessage::SetVisibleOnAllWorkspaces(_)
        | WindowMessage::SetContentProtected(_)
        | WindowMessage::SetPosition
        | WindowMessage::SetIcon
        | WindowMessage::SetSkipTaskbar
        | WindowMessage::SetShadow
        | WindowMessage::SetCursorGrab
        | WindowMessage::SetCursorVisible
        | WindowMessage::SetCursorIcon
        | WindowMessage::SetCursorPosition
        | WindowMessage::SetIgnoreCursorEvents
        | WindowMessage::SetBadgeCount
        | WindowMessage::SetBadgeLabel
        | WindowMessage::SetOverlayIcon
        | WindowMessage::SetTitleBarStyle
        | WindowMessage::SetTrafficLightPosition
        | WindowMessage::StartDragging
        | WindowMessage::StartResizeDragging
        | WindowMessage::SetProgressBar => WindowAction::Nothing,
    };
    appwindow.native = Some(state);
    Ok(action)
}

/// The delegate of a native window goes on answering what the attributes of the
/// window say, whatever is asked of the window.
pub proof fn delegate_keeps_agreeing(attrs: AttrsView, state: WindowState, message: WindowMessage)
    requires
        state.agrees_with(attrs),
    ensures
        state_after(state, message).agrees_with(attrs_after(attrs, message)),
{
}

/// A request that is answered changes nothing: neither one that is answered at
/// once nor one for which the native window is asked.
pub proof fn questions_change_nothing(attrs: AttrsView, state: WindowState, message: WindowMessage)
    requires
        action_for(attrs, message) is Reply || action_for(attrs, message) is Query,
    ensures
        attrs_after(attrs, message) == attrs,
        state_after(state, message) == state,
{
}

/// What was set is what is answered: what the user may do with the window, by the
/// window as well as by its delegate.
pub proof fn settings_are_read_back(attrs: AttrsView, state: WindowState, value: bool)
    ensures
        ({
            let set = WindowMessage::SetResizable(value);
            &&& action_for(attrs_after(attrs, set), WindowMessage::IsResizable)
                == WindowAction::Reply(WindowReply::Flag(value))
            &&& state_after(state, set).resizable == value
        }),
        ({
            let set = WindowMessage::SetMaximizable(value);
            &&& action_for(attrs_after(attrs, set), WindowMessage::IsMaximizable)
                == WindowAction::Reply(WindowReply::Flag(value))
            &&& state_after(state, set).maximizable == value
        }),
        ({
            let set = WindowMessage::SetMinimizable(value);
            &&& action_for(attrs_after(attrs, set), WindowMessage::IsMinimizable)
                == WindowAction::Reply(WindowReply::Flag(value))
            &&& state_after(state, set).minimizable == value
        }),
        ({
            let set = WindowMessage::SetClosable(value);
            &&& action_for(attrs_after(attrs, set), WindowMessage::IsClosable)
                == WindowAction::Reply(WindowReply::Flag(value))
            &&& state_after(state, set).closable == value
        }),
{
}

/// A new size is told of exactly when there was no size before, or another one,
/// whatever the scale is; a new scale exactly when there was another one before,
/// whatever the size is. The scale comes first, neither comes twice, and nothing
/// else is told of.
pub proof fn changes_are_told_of(last: Option<Geometry>, now: Geometry)
    ensures
        ({
            let events = geometry_events(last, now);
            let resized = Event::Resized(now.inner_size);
            let rescaled = Event::ScaleFactorChanged {
                scale_factor: now.scale_factor,
                new_inner_size: now.inner_size,
            };
            let new_size = last matches Some(last) ==> last.inner_size != now.inner_size;
            let new_scale = last matches Some(last) && !last.scale_factor.equals(now.scale_factor);
            &&& events.contains(resized) <==> new_size
            &&& events.contains(rescaled) <==> new_scale
            &&& events.len() == (if new_size { 1int } else { 0 }) + (if new_scale { 1int } else { 0 })
            &&& new_scale ==> events[0] == rescaled
            &&& new_size ==> events.last() == resized
            &&& forall|i: int|
                0 <= i < events.len() ==> (#[trigger] events[i]) == resized || events[i] == rescaled
        }),
{
    let events = geometry_events(last, now);
    let new_size = last matches Some(last) ==> last.inner_size != now.inner_size;
    let new_scale = last matches Some(last) && !last.scale_factor.equals(now.scale_factor);
    if new_size {
        assert(events[events.len() - 1] == Event::Resized(now.inner_size));
    }
    if new_scale {
        assert(events[0] == (Event::ScaleFactorChanged {
            scale_factor: now.scale_factor,
            new_inner_size: now.inner_size,
        }));
    }
}

/// The geometry of a window is its display's scale, or one, and the extent of its
/// client area, where a negative one counts as none.
pub proof fn geometry_is_of_the_display_and_the_area(display: Option<Binary64>, area: Rect)
    ensures
        display matches Some(factor) ==> geometry_of(display, area).scale_factor == factor,
        display is None ==> geometry_of(display, area).scale_factor.bits == 0x3ff0_0000_0000_0000,
        area.width >= 0 ==> geometry_of(display, area).inner_size.width == area.width,
        area.width < 0 ==> geometry_of(display, area).inner_size.width == 0,
        area.height >= 0 ==> geometry_of(display, area).inner_size.height == area.height,
        area.height < 0 ==> geometry_of(display, area).inner_size.height == 0,
{
}

/// The delegate agrees with the attributes exactly when each thing that the user may
/// do is what the attributes say of it, and the limits are theirs.
pub proof fn agreement_is_on_everything(state: WindowState, attrs: AttrsView)
    ensures
        state.agrees_with(attrs) <==> (state.resizable == attrs.resizable && state.maximizable
            == attrs.buttons.contains(4) && state.minimizable == attrs.buttons.contains(2)
            && state.closable == attrs.buttons.contains(1) && state.min_size
            == attrs.min_surface_size && state.max_size == attrs.max_surface_size),
{
}

/// The application's own requests are left to others, and no more: listeners, closing
/// and destroying, monitors, and themes.
pub proof fn only_the_applications_requests_are_left(message: WindowMessage)
    ensures
        left_to_others(message) <==> (message is AddEventListener || message is Close
            || message is Destroy || message is CurrentMonitor || message is PrimaryMonitor
            || message is MonitorFromPoint || message is AvailableMonitors || message is Theme
            || message is SetTheme),
{
}

/// What the window is told to do determines what was asked for, with its value, and
/// is done for no other request. Minimized and maximized windows are restored alike.
pub proof fn operations_determine_the_request(
    attrs: AttrsView,
    message: WindowMessage,
    value: bool,
    title: String,
    size: Size,
    color: Option<Color>,
    listener: u32,
)
    ensures
        ({
            let action = action_for(attrs, message);
            let bit: i32 = if value {
                1
            } else {
                0
            };
            &&& action == WindowAction::Perform(WindowOp::SetFullscreen(bit)) <==> message
                == WindowMessage::SetFullscreen(value)
            &&& action == WindowAction::Perform(WindowOp::SetEnabled(bit)) <==> message
                == WindowMessage::SetEnabled(value)
            &&& action == WindowAction::Perform(WindowOp::SetAlwaysOnTop(bit)) <==> message
                == WindowMessage::SetAlwaysOnTop(value)
            &&& action == WindowAction::Perform(WindowOp::SetFocusable(bit)) <==> message
                == WindowMessage::SetFocusable(value)
            &&& action == WindowAction::Perform(WindowOp::SetTitle(title)) <==> message
                == WindowMessage::SetTitle(title)
            &&& action == WindowAction::Perform(WindowOp::SetSize(size)) <==> message
                == WindowMessage::SetSize(size)
            &&& action == WindowAction::Perform(WindowOp::SetBackgroundColor(color)) <==> message
                == WindowMessage::SetBackgroundColor(color)
            &&& action == WindowAction::Perform(WindowOp::Center) <==> message is Center
            &&& action == WindowAction::Perform(WindowOp::Maximize) <==> message is Maximize
            &&& action == WindowAction::Perform(WindowOp::Minimize) <==> message is Minimize
            &&& action == WindowAction::Perform(WindowOp::Restore) <==> message is Unmaximize
                || message is Unminimize
            &&& action == WindowAction::Perform(WindowOp::Show) <==> message is Show
            &&& action == WindowAction::Perform(WindowOp::Hide) <==> message is Hide
            &&& action == WindowAction::Perform(WindowOp::Focus) <==> message is SetFocus
            &&& action != WindowAction::Perform(WindowOp::AddListener(listener))
            &&& action is Perform <==> (message is SetFullscreen || message is SetEnabled
                || message is SetAlwaysOnTop || message is SetFocusable || message is SetTitle
                || message is SetSize || message is SetBackgroundColor || message is Center
                || message is Maximize || message is Minimize || message is Unmaximize
                || message is Unminimize || message is Show || message is Hide || message is SetFocus)
        }),
{
}

/// What the window is asked determines the question that was put, and it is asked for
/// nothing else. Both positions of a window are that of its outer bounds.
pub proof fn queries_determine_the_question(attrs: AttrsView, message: WindowMessage)
    ensures
        ({
            let action = action_for(attrs, message);
            &&& action == WindowAction::Query(WindowQuery::ScaleFactor) <==> message is ScaleFactor
            &&& action == WindowAction::Query(WindowQuery::Position) <==> message is InnerPosition
                || message is OuterPosition
            &&& action == WindowAction::Query(WindowQuery::InnerSize) <==> message is InnerSize
            &&& action == WindowAction::Query(WindowQuery::OuterSize) <==> message is OuterSize
            &&& action == WindowAction::Query(WindowQuery::Title) <==> message is Title
            &&& action == WindowAction::Query(WindowQuery::Flag(WindowFlag::Fullscreen))
                <==> message is IsFullscreen
            &&& action == WindowAction::Query(WindowQuery::Flag(WindowFlag::Minimized))
                <==> message is IsMinimized
            &&& action == WindowAction::Query(WindowQuery::Flag(WindowFlag::Maximized))
                <==> message is IsMaximized
            &&& action == WindowAction::Query(WindowQuery::Flag(WindowFlag::Active))
                <==> message is IsFocused
            &&& action == WindowAction::Query(WindowQuery::Flag(WindowFlag::Visible))
                <==> message is IsVisible
            &&& action == WindowAction::Query(WindowQuery::Flag(WindowFlag::Enabled))
                <==> message is IsEnabled
            &&& action == WindowAction::Query(WindowQuery::Flag(WindowFlag::AlwaysOnTop))
                <==> message is IsAlwaysOnTop
            &&& action != WindowAction::Query(WindowQuery::SystemTheme)
        }),
{
}

/// What the attributes know is answered from them, and the window's handle is never
/// given away; nothing else is answered at once.
pub proof fn attributes_answer_for_themselves(attrs: AttrsView, message: WindowMessage)
    ensures
        action_for(attrs, WindowMessage::IsDecorated) == WindowAction::Reply(
            WindowReply::Flag(attrs.decorations),
        ),
        action_for(attrs, WindowMessage::IsResizable) == WindowAction::Reply(
            WindowReply::Flag(attrs.resizable),
        ),
        action_for(attrs, WindowMessage::IsMaximizable) == WindowAction::Reply(
            WindowReply::Flag(attrs.buttons.contains(4)),
        ),
        action_for(attrs, WindowMessage::IsMinimizable) == WindowAction::Reply(
            WindowReply::Flag(attrs.buttons.contains(2)),
        ),
        action_for(attrs, WindowMessage::IsClosable) == WindowAction::Reply(
            WindowReply::Flag(attrs.buttons.contains(1)),
        ),
        action_for(attrs, WindowMessage::RawWindowHandle) == WindowAction::Reply(WindowReply::Failed),
        action_for(attrs, message) is Reply <==> (message is IsDecorated || message is IsResizable
            || message is IsMaximizable || message is IsMinimizable || message is IsClosable
            || message is RawWindowHandle),
{
}

/// Each attribute is changed by the requests that set it, to what they say, and by no
/// other.
pub proof fn attributes_change_by_their_own_requests(attrs: AttrsView, message: WindowMessage)
    ensures
        ({
            let after = attrs_after(attrs, message);
            &&& after.title == (match message {
                WindowMessage::SetTitle(title) => title@,
                _ => attrs.title,
            })
            &&& after.resizable == (match message {
                WindowMessage::SetResizable(resizable) => resizable,
                _ => attrs.resizable,
            })
            &&& after.buttons.contains(4) <==> (match message {
                WindowMessage::SetMaximizable(enabled) => enabled,
                _ => attrs.buttons.contains(4),
            })
            &&& after.buttons.contains(2) <==> (match message {
                WindowMessage::SetMinimizable(enabled) => enabled,
                _ => attrs.buttons.contains(2),
            })
            &&& after.buttons.contains(1) <==> (match message {
                WindowMessage::SetClosable(enabled) => enabled,
                _ => attrs.buttons.contains(1),
            })
            &&& forall|bit: u32|
                bit != 1 && bit != 2 && bit != 4 ==> #[trigger] after.buttons.contains(bit)
                    == attrs.buttons.contains(bit)
            &&& after.window_level == (match message {
                WindowMessage::SetAlwaysOnTop(true) => WindowLevel::AlwaysOnTop,
                WindowMessage::SetAlwaysOnTop(false) => WindowLevel::Normal,
                _ => attrs.window_level,
            })
            &&& after.min_surface_size == (match message {
                WindowMessage::SetMinSize(size) => size,
                WindowMessage::SetSizeConstraints { min, max: _ } => min,
                _ => attrs.min_surface_size,
            })
            &&& after.max_surface_size == (match message {
                WindowMessage::SetMaxSize(size) => size,
                WindowMessage::SetSizeConstraints { min: _, max } => max,
                _ => attrs.max_surface_size,
            })
            &&& after.background_color == (match message {
                WindowMessage::SetBackgroundColor(color) => color,
                _ => attrs.background_color,
            })
            &&& after.fullscreen == attrs.fullscreen
            &&& after.maximized == attrs.maximized
            &&& after.visible == attrs.visible
            &&& after.decorations == attrs.decorations
            &&& after.preferred_theme == attrs.preferred_theme
        }),
{
}

/// What the delegate answers is changed by the requests that set it, to what they
/// say, and by no other.
pub proof fn delegate_changes_by_its_own_requests(state: WindowState, message: WindowMessage)
    ensures
        ({
            let after = state_after(state, message);
            &&& after.resizable == (match message {
                WindowMessage::SetResizable(value) => value,
                _ => state.resizable,
            })
            &&& after.maximizable == (match message {
                WindowMessage::SetMaximizable(value) => value,
                _ => state.maximizable,
            })
            &&& after.minimizable == (match message {
                WindowMessage::SetMinimizable(value) => value,
                _ => state.minimizable,
            })
            &&& after.closable == (match message {
                WindowMessage::SetClosable(value) => value,
                _ => state.closable,
            })
            &&& after.min_size == (match message {
                WindowMessage::SetMinSize(size) => size,
                WindowMessage::SetSizeConstraints { min, max: _ } => min,
                _ => state.min_size,
            })
            &&& after.max_size == (match message {
                WindowMessage::SetMaxSize(size) => size,
                WindowMessage::SetSizeConstraints { min: _, max } => max,
                _ => state.max_size,
            })
        }),
{
}

} // verus!
