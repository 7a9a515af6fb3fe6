//! What the delegates of a CEF Views window answer, for the backends that let CEF
//! own the top-level window.

use vstd::prelude::*;

use crate::window::{cef_bool, int_of};

verus! {

/// The side of a native window that outlives a single call: whether it may close
/// without asking.
#[derive(Debug, PartialEq, Eq)]
pub struct NativeWindow {
    pub allow_close: bool,
}

impl NativeWindow {
    /// A window that asks before it closes.
    pub fn new() -> (r: NativeWindow)
        ensures
            !r.allow_close,
    {
        NativeWindow { allow_close: false }
    }

    /// From now on the window closes without asking; CEF is then told to close it.
    pub fn force_close(&mut self)
        ensures
            final(self).allow_close,
    {
        self.allow_close = true;
    }
}

/// The answer to CEF's question whether a window may close, and whether the
/// application is to be asked.
#[derive(Clone, Copy, Debug, PartialEq, Eq, Structural)]
pub struct CloseAnswer {
    pub allowed: i32,
    pub request: bool,
}

/// The answer to CEF's question whether a window may close: only one that was
/// forced to does; otherwise the application is asked, unless the window is not
/// closable at all.
pub open spec fn close_answer(allow_close: bool, closable: bool) -> CloseAnswer {
    CloseAnswer { allowed: int_of(allow_close), request: !allow_close && closable }
}

/// Whether a window may close, and whether the application is to be asked.
pub fn can_close(allow_close: bool, closable: bool) -> (r: CloseAnswer)
    ensures
        r == close_answer(allow_close, closable),
        r.allowed == 1 <==> allow_close,
        r.request <==> closable && !allow_close,
{
    if allow_close {
        CloseAnswer { allowed: 1, request: false }
    } else if !closable {
        CloseAnswer { allowed: 0, request: false }
    } else {
        CloseAnswer { allowed: 0, request: true }
    }
}

/// Never both: a close is allowed or asked for, not the one and the other.
pub proof fn close_is_allowed_or_requested(allow_close: bool, closable: bool)
    ensures
        close_answer(allow_close, closable).request ==> close_answer(allow_close, closable).allowed == 0,
        close_answer(true, closable).allowed == 1,
        close_answer(false, closable).allowed == 0,
        !close_answer(allow_close, false).request,
{
}

/// Something that is done to a native window when it was created.
#[derive(Debug, PartialEq, Eq)]
pub enum WindowSetup {
    FillLayout,
    AddBrowserView,
    SetTitle(String),
    SetAlwaysOnTop(i32),
    Show,
}

/// Whether an activation change of a window brings it the focus.
pub fn on_window_activation_changed(active: i32) -> (focused: bool)
    ensures
        focused == (active != 0),
{
    active != 0
}

/// Whether somebody still waits for the browser to be created.
#[derive(Debug, PartialEq, Eq)]
pub struct BrowserCreation {
    pub awaited: bool,
}

/// What the creation of a browser leads to.
#[derive(Clone, Copy, Debug, PartialEq, Eq, Structural)]
pub enum BrowserCreated {
    /// The notification lacks its view or its browser.
    Ignored,
    /// Nobody waits for it.
    NotAwaited,
    /// The view is in no window: the one who waited is let go of.
    NoWindow,
    /// The one who waited gets the browser and its window.
    Delivered,
}

/// What the creation of a browser leads to.
pub open spec fn browser_created(
    awaited: bool,
    has_view: bool,
    has_browser: bool,
    has_window: bool,
) -> BrowserCreated {
    if !(has_view && has_browser) {
        BrowserCreated::Ignored
    } else if !awaited {
        BrowserCreated::NotAwaited
    } else if !has_window {
        BrowserCreated::NoWindow
    } else {
        BrowserCreated::Delivered
    }
}

/// Whether somebody waits on after a notification: whoever waits is let go of by
/// the first one that is complete.
pub open spec fn still_awaited(awaited: bool, has_view: bool, has_browser: bool) -> bool {
    awaited && !(has_view && has_browser)
}

impl BrowserCreation {
    /// Somebody waits.
    pub fn new() -> (r: BrowserCreation)
        ensures
            r.awaited,
    {
        BrowserCreation { awaited: true }
    }

    /// Takes note that CEF created the browser.
    pub fn on_browser_created(&mut self, has_view: bool, has_browser: bool, has_window: bool) -> (r: BrowserCreated)
        ensures
            r == browser_created(old(self).awaited, has_view, has_browser, has_window),
            r == BrowserCreated::Delivered <==> old(self).awaited && has_view && has_browser
                && has_window,
            final(self).awaited <==> old(self).awaited && !(has_view && has_browser),
            final(self).awaited == still_awaited(old(self).awaited, has_view, has_browser),
    {
        if !(has_view && has_browser) {
            BrowserCreated::Ignored
        } else if !self.awaited {
            BrowserCreated::NotAwaited
        } else {
            self.awaited = false;
            if has_window {
                BrowserCreated::Delivered
            } else {
                BrowserCreated::NoWindow
            }
        }
    }
}

/// Whoever waits for a browser is served at most once.
pub proof fn delivered_at_most_once(
    awaited: bool,
    first: (bool, bool, bool),
    second: (bool, bool, bool),
)
    ensures
        browser_created(awaited, first.0, first.1, first.2) == BrowserCreated::Delivered
            ==> browser_created(
            still_awaited(awaited, first.0, first.1),
            second.0,
            second.1,
            second.2,
        ) != BrowserCreated::Delivered,
{
}

/// What becomes of a popup's view.
#[derive(Clone, Copy, Debug, PartialEq, Eq, Structural)]
pub struct PopupAnswer {
    /// Close the popup's browser.
    pub close_browser: bool,
    /// The popup was taken care of.
    pub handled: i32,
}

/// There is one top-level window: a popup is closed, never given a window of its
/// own.
pub fn on_popup_browser_view_created(has_browser: bool, has_host: bool) -> (r: PopupAnswer)
    ensures
        r == (PopupAnswer { close_browser: has_browser && has_host, handled: 1 }),
        r.close_browser <==> has_browser && has_host,
{
    PopupAnswer { close_browser: has_browser && has_host, handled: 1 }
}

/// Whether the Linux properties of a window are filled in, with the application's
/// identifier as Wayland's app id: only where CEF hands them over.
pub fn linux_window_properties(has_properties: bool) -> (r: i32)
    ensures
        r == int_of(has_properties),
        r == 1 <==> has_properties,
        r == 0 <==> !has_properties,
{
    cef_bool(has_properties)
}

/// The stages of creating a browser in a top-level window of its own.
#[derive(Clone, Copy, Debug, PartialEq, Eq, Structural)]
pub enum CreateStage {
    BrowserView,
    TopLevelWindow,
    Created,
    Failed,
}

/// The stage after one succeeded or failed: first the view, then the window around
/// it, and no window without a view.
pub open spec fn stage_after(stage: CreateStage, succeeded: bool) -> CreateStage {
    match (stage, succeeded) {
        (CreateStage::BrowserView, true) => CreateStage::TopLevelWindow,
        (CreateStage::TopLevelWindow, true) => CreateStage::Created,
        (CreateStage::Created, _) => CreateStage::Created,
        _ => CreateStage::Failed,
    }
}

impl CreateStage {
    /// The stage that follows.
    pub fn next(self, succeeded: bool) -> (r: CreateStage)
        ensures
            r == stage_after(self, succeeded),
            r == CreateStage::Created <==> self == CreateStage::Created || (self
                == CreateStage::TopLevelWindow && succeeded),
            r == CreateStage::TopLevelWindow <==> self == CreateStage::BrowserView && succeeded,
    {
        match self {
            CreateStage::BrowserView => if succeeded {
                CreateStage::TopLevelWindow
            } else {
                CreateStage::Failed
            },
            CreateStage::TopLevelWindow => if succeeded {
                CreateStage::Created
            } else {
                CreateStage::Failed
            },
            CreateStage::Created => CreateStage::Created,
            CreateStage::Failed => CreateStage::Failed,
        }
    }
}

/// Creation succeeds exactly when both the view and the window were created.
pub proof fn created_when_both_are(view: bool, window: bool)
    ensures
        stage_after(stage_after(CreateStage::BrowserView, view), window) == CreateStage::Created <==> view && window,
        !view ==> stage_after(CreateStage::BrowserView, view) == CreateStage::Failed,
{
}

/// A window may close exactly when it was forced to; the application is asked
/// exactly when it was not and the window is closable.
pub proof fn only_a_forced_window_closes(allow_close: bool, closable: bool)
    ensures
        close_answer(allow_close, closable).allowed == 1 <==> allow_close,
        close_answer(allow_close, closable).allowed == 0 <==> !allow_close,
        close_answer(allow_close, closable).request <==> closable && !allow_close,
{
}

/// Whoever waits gets the browser exactly when the notification is complete and the
/// view is in a window, and is let go of by any complete notification; an incomplete
/// one changes nothing.
pub proof fn complete_notifications_are_delivered(
    awaited: bool,
    has_view: bool,
    has_browser: bool,
    has_window: bool,
)
    ensures
        browser_created(awaited, has_view, has_browser, has_window) == BrowserCreated::Delivered
            <==> awaited && has_view && has_browser && has_window,
        browser_created(awaited, has_view, has_browser, has_window) == BrowserCreated::NoWindow
            <==> awaited && has_view && has_browser && !has_window,
        browser_created(awaited, has_view, has_browser, has_window) == BrowserCreated::NotAwaited
            <==> !awaited && has_view && has_browser,
        browser_created(awaited, has_view, has_browser, has_window) == BrowserCreated::Ignored
            <==> !has_view || !has_browser,
        still_awaited(awaited, has_view, has_browser) <==> awaited && (!has_view || !has_browser),
{
}

/// What was created stays created, and what failed stays failed; before that a
/// failure fails, and a success takes exactly one step.
pub proof fn stages_are_taken_one_by_one(succeeded: bool)
    ensures
        stage_after(CreateStage::Created, succeeded) == CreateStage::Created,
        stage_after(CreateStage::Failed, succeeded) == CreateStage::Failed,
        stage_after(CreateStage::BrowserView, succeeded) == CreateStage::TopLevelWindow <==> succeeded,
        stage_after(CreateStage::BrowserView, succeeded) == CreateStage::Failed <==> !succeeded,
        stage_after(CreateStage::TopLevelWindow, succeeded) == CreateStage::Created <==> succeeded,
        stage_after(CreateStage::TopLevelWindow, succeeded) == CreateStage::Failed <==> !succeeded,
{
}

} // verus!
