//! What a window is asked, what it answers and what is kept about it, for every
//! backend alike.

use vstd::prelude::*;

use crate::geometry::{physical_bounds, scale_factor, Binary64, PhysicalPosition, PhysicalSize, Rect, Size, ONE_BITS};
use winit::window::WindowButtons;

verus! {

/// Identifies a window of the application.
#[derive(Clone, Copy, Debug, PartialEq, Eq, Structural)]
pub struct WindowId(pub u32);

/// Where a window stands in the stacking order.
#[derive(Clone, Copy, Debug, PartialEq, Eq, Structural)]
pub enum WindowLevel {
    AlwaysOnBottom,
    Normal,
    AlwaysOnTop,
}

/// A light or dark appearance.
#[derive(Clone, Copy, Debug, PartialEq, Eq, Structural)]
pub enum Theme {
    Light,
    Dark,
}

/// A color with its opacity.
#[derive(Clone, Copy, Debug, PartialEq, Eq, Structural)]
pub struct Color {
    pub red: u8,
    pub green: u8,
    pub blue: u8,
    pub alpha: u8,
}

/// `winit::window::WindowButtons`, the set of enabled title bar buttons.
#[verifier::external_type_specification]
#[verifier::external_body]
pub struct ExWindowButtons(winit::window::WindowButtons);

/// The flags that a `WindowButtons` holds, each as the value of its bit.
pub uninterp spec fn button_flags(buttons: WindowButtons) -> Set<u32>;

/// A title bar button.
#[derive(Clone, Copy, Debug, PartialEq, Eq, Structural)]
pub enum WindowButton {
    Close,
    Minimize,
    Maximize,
}

impl WindowButton {
    /// The bit of the button's flag.
    pub open spec fn flag(self) -> u32 {
        match self {
            WindowButton::Close => 1,
            WindowButton::Minimize => 2,
            WindowButton::Maximize => 4,
        }
    }
}

/// The flags after one of them was switched on or off.
pub open spec fn flags_with(flags: Set<u32>, button: WindowButton, enabled: bool) -> Set<u32> {
    if enabled {
        flags.insert(button.flag())
    } else {
        flags.remove(button.flag())
    }
}

/// `WindowButtons::contains` of one flag: whether the flag is set.
#[verifier::external_body]
pub(crate) fn has_button(buttons: &WindowButtons, button: WindowButton) -> (r: bool)
    ensures
        r == button_flags(*buttons).contains(button.flag()),
{
    buttons.contains(match button {
        WindowButton::Close => WindowButtons::CLOSE,
        WindowButton::Minimize => WindowButtons::MINIMIZE,
        WindowButton::Maximize => WindowButtons::MAXIMIZE,
    })
}

/// `WindowButtons::set` of one flag: the flag is set or cleared, the others stay
/// as they were.
#[verifier::external_body]
pub(crate) fn set_button(buttons: &mut WindowButtons, button: WindowButton, enabled: bool)
    ensures
        button_flags(*final(buttons)) == flags_with(button_flags(*old(buttons)), button, enabled),
{
    buttons.set(
        match button {
            WindowButton::Close => WindowButtons::CLOSE,
            WindowButton::Minimize => WindowButtons::MINIMIZE,
            WindowButton::Maximize => WindowButtons::MAXIMIZE,
        },
        enabled,
    );
}

/// The attributes that a window was built with, kept up to date as it is changed.
#[derive(Debug, PartialEq)]
pub struct AppWindowAttrs {
    pub title: String,
    pub fullscreen: bool,
    pub maximized: bool,
    pub visible: bool,
    pub decorations: bool,
    pub resizable: bool,
    pub window_level: WindowLevel,
    pub enabled_buttons: WindowButtons,
    pub min_surface_size: Option<Size>,
    pub max_surface_size: Option<Size>,
    pub preferred_theme: Option<Theme>,
    pub background_color: Option<Color>,
}

/// The attributes of a window as mathematical values.
#[verifier::ext_equal]
pub struct AttrsView {
    pub title: Seq<char>,
    pub fullscreen: bool,
    pub maximized: bool,
    pub visible: bool,
    pub decorations: bool,
    pub resizable: bool,
    pub window_level: WindowLevel,
    pub buttons: Set<u32>,
    pub min_surface_size: Option<Size>,
    pub max_surface_size: Option<Size>,
    pub preferred_theme: Option<Theme>,
    pub background_color: Option<Color>,
}

impl View for AppWindowAttrs {
    type V = AttrsView;

    open spec fn view(&self) -> AttrsView {
        AttrsView {
            title: self.title@,
            fullscreen: self.fullscreen,
            maximized: self.maximized,
            visible: self.visible,
            decorations: self.decorations,
            resizable: self.resizable,
            window_level: self.window_level,
            buttons: button_flags(self.enabled_buttons),
            min_surface_size: self.min_surface_size,
            max_surface_size: self.max_surface_size,
            preferred_theme: self.preferred_theme,
            background_color: self.background_color,
        }
    }
}

impl AttrsView {
    pub open spec fn has(self, button: WindowButton) -> bool {
        self.buttons.contains(button.flag())
    }
}

/// How a window first appears.
#[derive(Clone, Copy, Debug, PartialEq, Eq, Structural)]
pub enum ShowState {
    Normal,
    Maximized,
    Fullscreen,
}

/// How a window with these attributes first appears: fullscreen wins over
/// maximized.
pub open spec fn show_state_of(attrs: AttrsView) -> ShowState {
    if attrs.fullscreen {
        ShowState::Fullscreen
    } else if attrs.maximized {
        ShowState::Maximized
    } else {
        ShowState::Normal
    }
}

/// How a window with these attributes first appears.
pub fn show_state(attrs: &AppWindowAttrs) -> (r: ShowState)
    ensures
        r == show_state_of(attrs@),
        r == ShowState::Fullscreen <==> attrs.fullscreen,
        r == ShowState::Maximized <==> attrs.maximized && !attrs.fullscreen,
{
    if attrs.fullscreen {
        ShowState::Fullscreen
    } else if attrs.maximized {
        ShowState::Maximized
    } else {
        ShowState::Normal
    }
}

/// A request to a window. What no backend reads of a request is left out.
#[derive(Debug, PartialEq, Eq)]
pub enum WindowMessage {
    AddEventListener(u32),
    Close,
    Destroy,
    ScaleFactor,
    InnerPosition,
    OuterPosition,
    InnerSize,
    OuterSize,
    IsFullscreen,
    IsMinimized,
    IsMaximized,
    IsFocused,
    IsDecorated,
    IsResizable,
    IsMaximizable,
    IsMinimizable,
    IsClosable,
    IsVisible,
    IsEnabled,
    IsAlwaysOnTop,
    Title,
    CurrentMonitor,
    PrimaryMonitor,
    MonitorFromPoint,
    AvailableMonitors,
    RawWindowHandle,
    Theme,
    Center,
    RequestUserAttention,
    SetEnabled(bool),
    SetResizable(bool),
    SetMaximizable(bool),
    SetMinimizable(bool),
    SetClosable(bool),
    SetTitle(String),
    Maximize,
    Unmaximize,
    Minimize,
    Unminimize,
    Show,
    Hide,
    SetDecorations(bool),
    SetAlwaysOnBottom(bool),
    SetAlwaysOnTop(bool),
    SetVisibleOnAllWorkspaces(bool),
    SetContentProtected(bool),
    SetSize(Size),
    SetMinSize(Option<Size>),
    SetMaxSize(Option<Size>),
    /// Both limits at once, each already paired from its width and height.
    SetSizeConstraints { min: Option<Size>, max: Option<Size> },
    SetPosition,
    SetFullscreen(bool),
    SetFocus,
    SetFocusable(bool),
    SetIcon,
    SetSkipTaskbar,
    SetShadow,
    SetCursorGrab,
    SetCursorVisible,
    SetCursorIcon,
    SetCursorPosition,
    SetIgnoreCursorEvents,
    SetBadgeCount,
    SetBadgeLabel,
    SetOverlayIcon,
    SetTitleBarStyle,
    SetTrafficLightPosition,
    SetTheme,
    StartDragging,
    StartResizeDragging,
    SetProgressBar,
    SetBackgroundColor(Option<Color>),
}

/// The answer to a request that wants one.
#[derive(Debug, PartialEq, Eq)]
pub enum WindowReply {
    ScaleFactor(Binary64),
    Position(PhysicalPosition),
    Size(PhysicalSize),
    Flag(bool),
    Title(String),
    Theme(Theme),
    NoMonitor,
    NoMonitors,
    /// The request cannot be served (`FailedToSendMessage`).
    Failed,
}

/// A yes-or-no question to the native window.
#[derive(Clone, Copy, Debug, PartialEq, Eq, Structural)]
pub enum WindowFlag {
    Fullscreen,
    Minimized,
    Maximized,
    Active,
    Visible,
    Enabled,
    AlwaysOnTop,
}

/// Something that only the native window, or the system, can tell.
#[derive(Clone, Copy, Debug, PartialEq, Eq, Structural)]
pub enum WindowQuery {
    /// Answered with [`flag_reply`].
    Flag(WindowFlag),
    /// Answered with [`scale_factor_reply`].
    ScaleFactor,
    /// The outer bounds, answered with [`position_reply`].
    Position,
    /// The outer bounds, answered with [`size_reply`].
    OuterSize,
    /// The bounds of the client area, answered with [`size_reply`].
    InnerSize,
    /// Answered with [`title_reply`].
    Title,
    /// Answered with [`theme_reply`].
    SystemTheme,
}

/// Something for the native window to do.
#[derive(Debug, PartialEq, Eq)]
pub enum WindowOp {
    AddListener(u32),
    /// Center at the present outer size.
    Center,
    SetEnabled(i32),
    SetTitle(String),
    Maximize,
    Restore,
    Minimize,
    Show,
    Hide,
    SetAlwaysOnTop(i32),
    SetSize(Size),
    SetFullscreen(i32),
    /// Activate the window, then focus the browser view.
    Focus,
    SetFocusable(i32),
    /// Color the first webview.
    SetBackgroundColor(Option<Color>),
}

/// What a request to a window leads to.
#[derive(Debug, PartialEq, Eq)]
pub enum WindowAction {
    Nothing,
    Reply(WindowReply),
    Query(WindowQuery),
    Perform(WindowOp),
}

/// CEF's integer for a truth value.
pub open spec fn int_of(value: bool) -> i32 {
    if value {
        1
    } else {
        0
    }
}

/// CEF's integer for a truth value.
pub fn cef_bool(value: bool) -> (r: i32)
    ensures
        r == int_of(value),
        r == 1 <==> value,
        r == 0 <==> !value,
{
    if value {
        1
    } else {
        0
    }
}

/// The answer to a [`WindowQuery::Flag`] that CEF answered with `raw`.
pub fn flag_reply(raw: i32) -> (r: WindowReply)
    ensures
        r == WindowReply::Flag(raw != 0),
{
    WindowReply::Flag(raw != 0)
}

/// The answer to a [`WindowQuery::ScaleFactor`], from the factor of the window's
/// display.
pub fn scale_factor_reply(display: Option<Binary64>) -> (r: WindowReply)
    ensures
        r == WindowReply::ScaleFactor(
            match display {
                Some(factor) => factor,
                None => Binary64 { bits: ONE_BITS },
            },
        ),
{
    WindowReply::ScaleFactor(scale_factor(display))
}

/// The answer to a [`WindowQuery::Position`], from bounds in physical pixels.
pub fn position_reply(pixels: Rect) -> (r: WindowReply)
    ensures
        r == WindowReply::Position(PhysicalPosition { x: pixels.x, y: pixels.y }),
{
    WindowReply::Position(physical_bounds(pixels).0)
}

/// The answer to a [`WindowQuery::OuterSize`] or [`WindowQuery::InnerSize`], from
/// bounds in physical pixels.
pub fn size_reply(pixels: Rect) -> (r: WindowReply)
    ensures
        r matches WindowReply::Size(size) && {
            &&& size.width == (if pixels.width > 0 { pixels.width as int } else { 0 })
            &&& size.height == (if pixels.height > 0 { pixels.height as int } else { 0 })
        },
{
    WindowReply::Size(physical_bounds(pixels).1)
}

/// The answer to a [`WindowQuery::Title`].
pub fn title_reply(title: String) -> (r: WindowReply)
    ensures
        r == WindowReply::Title(title),
{
    WindowReply::Title(title)
}

/// The answer to a [`WindowQuery::SystemTheme`]: light where the system has no
/// preference.
pub fn theme_reply(system: Option<Theme>) -> (r: WindowReply)
    ensures
        r == WindowReply::Theme(
            match system {
                Some(theme) => theme,
                None => Theme::Light,
            },
        ),
{
    match system {
        Some(theme) => WindowReply::Theme(theme),
        None => WindowReply::Theme(Theme::Light),
    }
}

/// Switching one button leaves the others as they were, and the button answers
/// what it was switched to.
pub proof fn buttons_are_independent(flags: Set<u32>, button: WindowButton, enabled: bool, other: WindowButton)
    ensures
        flags_with(flags, button, enabled).contains(button.flag()) == enabled,
        other != button ==> flags_with(flags, button, enabled).contains(other.flag())
            == flags.contains(other.flag()),
{
}

/// CEF's integers for truth values are one and zero, and tell which it was.
pub proof fn integers_tell_the_truth(value: bool)
    ensures
        int_of(value) == 1 <==> value,
        int_of(value) == 0 <==> !value,
{
}

/// Each button has a bit of its own, and switching it decides that bit alone.
pub proof fn buttons_have_bits_of_their_own(flags: Set<u32>, button: WindowButton, enabled: bool, bit: u32)
    ensures
        WindowButton::Close.flag() == 1 && WindowButton::Minimize.flag() == 2
            && WindowButton::Maximize.flag() == 4,
        flags_with(flags, button, enabled).contains(bit) <==> (if bit == button.flag() {
            enabled
        } else {
            flags.contains(bit)
        }),
{
}

/// The view of a window's attributes is the attributes, one by one.
pub proof fn attributes_are_viewed_as_they_are(attrs: AppWindowAttrs)
    ensures
        attrs@.title == attrs.title@,
        attrs@.fullscreen == attrs.fullscreen,
        attrs@.maximized == attrs.maximized,
        attrs@.visible == attrs.visible,
        attrs@.decorations == attrs.decorations,
        attrs@.resizable == attrs.resizable,
        attrs@.window_level == attrs.window_level,
        attrs@.min_surface_size == attrs.min_surface_size,
        attrs@.max_surface_size == attrs.max_surface_size,
        attrs@.preferred_theme == attrs.preferred_theme,
        attrs@.background_color == attrs.background_color,
        attrs@.has(WindowButton::Close) <==> button_flags(attrs.enabled_buttons).contains(1),
        attrs@.has(WindowButton::Minimize) <==> button_flags(attrs.enabled_buttons).contains(2),
        attrs@.has(WindowButton::Maximize) <==> button_flags(attrs.enabled_buttons).contains(4),
{
}

/// A window first appears fullscreen exactly when its attributes say so, and
/// maximized exactly when they say that and not fullscreen.
pub proof fn appearance_follows_the_attributes(attrs: AttrsView)
    ensures
        show_state_of(attrs) == ShowState::Fullscreen <==> attrs.fullscreen,
        show_state_of(attrs) == ShowState::Maximized <==> attrs.maximized && !attrs.fullscreen,
        show_state_of(attrs) == ShowState::Normal <==> !attrs.maximized && !attrs.fullscreen,
{
}

} // verus!
