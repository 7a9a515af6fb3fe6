//! The webview of a native Wayland window: how its browser is made, and what it is
//! asked.

use vstd::prelude::*;

use crate::config::texts;
use crate::geometry::{Binary64, PhysicalPosition, PhysicalSize};
use crate::schemes::{registered, registration_is_read_back, schemes_of, SchemeRegistry};
use crate::wayland::window::WaylandWindow;
use crate::webview::{AppWebview, InitializationScript};
use crate::window::WindowId;
use std::sync::Arc;

verus! {

/// A browser setting that is on or off.
#[derive(Clone, Copy, Debug, PartialEq, Eq, Structural)]
pub enum SettingState {
    Enabled,
    Disabled,
}

/// The state of a setting that is on in the given case.
pub open spec fn state_of(enabled: bool) -> SettingState {
    if enabled {
        SettingState::Enabled
    } else {
        SettingState::Disabled
    }
}

/// The settings of a browser that are not left at their defaults.
#[derive(Clone, Copy, Debug, PartialEq, Eq, Structural)]
pub struct BrowserSettings {
    pub javascript: SettingState,
    pub javascript_access_clipboard: SettingState,
}

/// What is asked for of a webview when it is made.
#[derive(Clone, Copy, Debug, PartialEq, Eq, Structural)]
pub struct WebviewAttributes {
    pub javascript_disabled: bool,
    pub clipboard: bool,
    pub devtools: Option<bool>,
    pub use_https_scheme: bool,
}

/// The settings of the browser of a webview with the given attributes.
pub fn browser_settings(attrs: &WebviewAttributes) -> (r: BrowserSettings)
    ensures
        r.javascript == state_of(!attrs.javascript_disabled),
        r.javascript_access_clipboard == state_of(attrs.clipboard),
        r.javascript == SettingState::Disabled <==> attrs.javascript_disabled,
        r.javascript_access_clipboard == SettingState::Enabled <==> attrs.clipboard,
{
    BrowserSettings {
        javascript: if attrs.javascript_disabled {
            SettingState::Disabled
        } else {
            SettingState::Enabled
        },
        javascript_access_clipboard: if attrs.clipboard {
            SettingState::Enabled
        } else {
            SettingState::Disabled
        },
    }
}

/// How the first page of a browser is loaded, once the initialization scripts are
/// registered for it.
#[derive(Debug, PartialEq, Eq)]
pub struct InitialLoad {
    pub url: String,
    /// The scheme under which custom protocols are also served.
    pub custom_protocol_scheme: String,
    /// The hosts at which they are, one for each custom scheme, in its order.
    pub custom_scheme_domains: Vec<String>,
}

/// How the browser of a webview is made.
#[derive(Debug, PartialEq, Eq)]
pub struct BuildPlan {
    /// Whether files that are dropped on the webview are reported: never.
    pub drag_drop_handler_enabled: bool,
    /// Whether the page may open a window of its own, as far as no popup policy
    /// decides. A handler for new windows cannot be run here: that there is one
    /// denies them.
    pub new_windows: bool,
    /// Whether the developer tools can be opened.
    pub devtools: bool,
    pub settings: BrowserSettings,
    pub initial_load: InitialLoad,
}

/// The host at which a custom scheme is also served.
pub open spec fn domain_of(scheme: Seq<char>) -> Seq<char> {
    scheme + ".localhost"@
}

/// The hosts at which the given custom schemes are also served.
pub fn scheme_domains(schemes: &Vec<String>) -> (r: Vec<String>)
    ensures
        texts(r@) == texts(schemes@).map_values(|scheme: Seq<char>| domain_of(scheme)),
{
    let mut domains: Vec<String> = Vec::new();
    for i in 0..schemes.len()
        invariant
            domains@.len() == i,
            forall|j: int| 0 <= j < i ==> (#[trigger] domains@[j])@ == domain_of(schemes@[j]@),
    {
        let mut domain = schemes[i].clone();
        domain.append(".localhost");
        domains.push(domain);
    }
    assert(texts(domains@) =~= texts(schemes@).map_values(|scheme: Seq<char>| domain_of(scheme)));
    domains
}

/// How the browser of a webview is made, from its attributes, its first page, the
/// custom schemes that are served to it, whether this build has developer tools, and
/// whether a handler for new windows was installed on the webview.
pub fn build(
    attrs: &WebviewAttributes,
    url: String,
    schemes: &Vec<String>,
    has_devtools: bool,
    has_new_window_handler: bool,
) -> (r: BuildPlan)
    ensures
        !r.drag_drop_handler_enabled,
        r.new_windows == !has_new_window_handler,
        r.devtools == (has_devtools && attrs.devtools != Some(false)),
        r.devtools ==> has_devtools,
        has_devtools ==> (attrs.devtools matches Some(wanted) ==> r.devtools == wanted),
        has_devtools && attrs.devtools is None ==> r.devtools,
        r.settings.javascript == state_of(!attrs.javascript_disabled),
        r.settings.javascript_access_clipboard == state_of(attrs.clipboard),
        r.settings.javascript == SettingState::Disabled <==> attrs.javascript_disabled,
        r.settings.javascript_access_clipboard == SettingState::Enabled <==> attrs.clipboard,
        r.initial_load.url == url,
        r.initial_load.custom_protocol_scheme@ == (if attrs.use_https_scheme {
            "https"@
        } else {
            "http"@
        }),
        texts(r.initial_load.custom_scheme_domains@) == texts(schemes@).map_values(
            |scheme: Seq<char>| domain_of(scheme),
        ),
{
    let wanted = match attrs.devtools {
        Some(devtools) => devtools,
        None => true,
    };
    BuildPlan {
        drag_drop_handler_enabled: false,
        new_windows: !has_new_window_handler,
        devtools: has_devtools && wanted,
        settings: browser_settings(attrs),
        initial_load: InitialLoad {
            url,
            custom_protocol_scheme: if attrs.use_https_scheme {
                "https".to_owned()
            } else {
                "http".to_owned()
            },
            custom_scheme_domains: scheme_domains(schemes),
        },
    }
}

/// Something that is done with a browser once it was created.
#[derive(Debug, PartialEq, Eq)]
pub enum BrowserSetup {
    /// Listen to its developer tools.
    ObserveDevTools,
    /// Register the scripts, then load the first page.
    Load { initial_load: InitialLoad, scripts: Arc<Vec<InitializationScript>> },
    /// Hand the webview, with its browser and its window, to the one who waits.
    Deliver(AppWebview),
}

/// What a custom scheme of a browser is served by, and for.
#[derive(Debug, PartialEq, Eq)]
pub struct SchemeHandler<H> {
    /// The label of the webview.
    pub label: String,
    pub handler: H,
    /// The scripts that run in the pages that are served.
    pub scripts: Arc<Vec<InitializationScript>>,
}

/// What the custom schemes of a webview are served by: each by its own handler, all
/// for the same webview and with the same scripts.
pub open spec fn served<H>(
    label: String,
    handlers: Seq<(String, H)>,
    scripts: Arc<Vec<InitializationScript>>,
) -> Seq<(String, SchemeHandler<H>)> {
    handlers.map_values(
        |pair: (String, H)| (pair.0, SchemeHandler { label, handler: pair.1, scripts }),
    )
}

/// Takes note that the browser of a webview was created: its custom protocol
/// handlers, each with its scheme, are registered, and only then its first page is
/// loaded and the webview delivered. A browser without a host is of no use: nothing
/// is registered for it, and nothing done with it.
pub fn browser_created<H>(
    registry: &mut SchemeRegistry<SchemeHandler<H>>,
    has_host: bool,
    browser_id: i32,
    webview_id: u32,
    label: String,
    handlers: Vec<(String, H)>,
    scripts: Arc<Vec<InitializationScript>>,
    initial_load: InitialLoad,
) -> (r: Vec<BrowserSetup>)
    ensures
        has_host ==> {
            &&& r@.len() == 3
            &&& r@[0] == BrowserSetup::ObserveDevTools
            &&& r@[1] == (BrowserSetup::Load { initial_load, scripts })
            &&& r@[2] matches BrowserSetup::Deliver(webview)
            &&& webview.webview_id == webview_id
            &&& webview.label == label
            &&& webview.browser_id == browser_id
            &&& texts(webview.schemes@) == schemes_of(handlers@)
            &&& final(registry)@ == registered(
                old(registry)@,
                browser_id,
                served(label, handlers@, scripts),
            )
        },
        !has_host ==> r@.len() == 0 && final(registry)@ == old(registry)@,
{
    let mut setup: Vec<BrowserSetup> = Vec::new();
    if !has_host {
        return setup;
    }
    let mut schemes: Vec<String> = Vec::new();
    let mut entries: Vec<(String, SchemeHandler<H>)> = Vec::new();
    for pair in it: handlers
        invariant
            it.seq() == handlers@,
            schemes@.len() == it.index(),
            forall|j: int| 0 <= j < it.index() ==> #[trigger] schemes@[j] == handlers@[j].0,
            entries@ == served(label, handlers@, scripts).take(it.index()),
    {
        proof {
            let all = served(label, handlers@, scripts);
            assert(all.take(it.index() + 1) =~= all.take(it.index()).push(all[it.index()]));
        }
        schemes.push(pair.0.clone());
        entries.push(
            (
                pair.0,
                SchemeHandler { label: label.clone(), handler: pair.1, scripts: scripts.clone() },
            ),
        );
    }
    assert(texts(schemes@) =~= schemes_of(handlers@));
    assert(entries@ =~= served(label, handlers@, scripts));
    registry.register(browser_id, entries);
    setup.push(BrowserSetup::ObserveDevTools);
    setup.push(BrowserSetup::Load { initial_load, scripts });
    setup.push(BrowserSetup::Deliver(AppWebview { webview_id, label, browser_id, schemes }));
    setup
}

/// Once the browser of a webview was created, each of its schemes is served by its
/// own handler, for the webview's label and with its scripts. What is served for
/// other browsers, and under other schemes, stays as it was.
pub proof fn schemes_are_served_for_the_webview<H>(
    registry: Map<(i32, Seq<char>), SchemeHandler<H>>,
    browser_id: i32,
    label: String,
    handlers: Seq<(String, H)>,
    scripts: Arc<Vec<InitializationScript>>,
)
    requires
        schemes_of(handlers).no_duplicates(),
    ensures
        ({
            let after = registered(registry, browser_id, served(label, handlers, scripts));
            &&& forall|i: int|
                0 <= i < handlers.len() ==> {
                    &&& after.contains_key((browser_id, (#[trigger] handlers[i]).0@))
                    &&& after[(browser_id, handlers[i].0@)] == SchemeHandler {
                        label,
                        handler: handlers[i].1,
                        scripts,
                    }
                }
            &&& forall|key: (i32, Seq<char>)|
                key.0 != browser_id || !schemes_of(handlers).contains(key.1) ==> {
                    &&& #[trigger] after.contains_key(key) == registry.contains_key(key)
                    &&& registry.contains_key(key) ==> after[key] == registry[key]
                }
        }),
{
    let entries = served(label, handlers, scripts);
    let after = registered(registry, browser_id, entries);
    assert(schemes_of(entries) =~= schemes_of(handlers));
    registration_is_read_back(registry, browser_id, entries);
    assert forall|i: int| 0 <= i < handlers.len() implies {
        &&& after.contains_key((browser_id, (#[trigger] handlers[i]).0@))
        &&& after[(browser_id, handlers[i].0@)] == SchemeHandler {
            label,
            handler: handlers[i].1,
            scripts,
        }
    } by {
        assert(entries[i].0 == handlers[i].0);
        assert(schemes_of(handlers)[i] == handlers[i].0@);
        assert(after.dom().contains((browser_id, handlers[i].0@)));
    }
    assert forall|key: (i32, Seq<char>)|
        key.0 != browser_id || !schemes_of(handlers).contains(key.1) implies {
        &&& #[trigger] after.contains_key(key) == registry.contains_key(key)
        &&& registry.contains_key(key) ==> after[key] == registry[key]
    } by {
        assert(after.dom().contains(key) == registry.dom().contains(key));
    }
}

/// What was found in a channel.
#[derive(Debug, PartialEq, Eq)]
pub enum Received<T> {
    Value(T),
    Disconnected,
    Empty,
}

/// What to do while waiting for a result.
#[derive(Debug, PartialEq, Eq)]
pub enum Waiting<T> {
    /// The wait is over, with a result or without.
    Over(Option<T>),
    /// Let CEF do some work, and look again.
    Work,
}

/// Whether a result is waited for by letting CEF work, rather than by blocking:
/// only on CEF's own thread.
pub fn waits_by_working(currently_on_ui_thread: i32) -> (r: bool)
    ensures
        r == (currently_on_ui_thread != 0),
{
    currently_on_ui_thread != 0
}

/// Goes on waiting for a result on CEF's own thread, which must not block.
pub fn wait_for_result<T>(received: Received<T>) -> (r: Waiting<T>)
    ensures
        r == (match received {
            Received::Value(value) => Waiting::Over(Some(value)),
            Received::Disconnected => Waiting::Over(None),
            Received::Empty => Waiting::Work,
        }),
{
    match received {
        Received::Value(value) => Waiting::Over(Some(value)),
        Received::Disconnected => Waiting::Over(None),
        Received::Empty => Waiting::Work,
    }
}

/// A request to a webview. What is not read of a request is left out.
#[derive(Debug, PartialEq, Eq)]
pub enum WebviewMessage {
    AddEventListener,
    EvaluateScript(String),
    EvaluateScriptWithCallback,
    Navigate(String),
    Reload,
    GoBack,
    CanGoBack,
    GoForward,
    CanGoForward,
    Print,
    Close,
    Show,
    Hide,
    SetPosition,
    SetSize,
    SetBounds,
    SetFocus,
    Reparent(WindowId),
    SetAutoResize,
    ClearAllBrowsingData,
    SetZoom(Binary64),
    SetBackgroundColor,
    Url,
    Bounds,
    Position,
    Size,
    WithWebview,
    CookiesForUrl,
    Cookies,
    SetCookie,
    DeleteCookie,
    OpenDevTools,
    CloseDevTools,
    IsDevToolsOpen,
    SendDevToolsMessage,
    OnDevToolsProtocol,
}

/// The answer to a request that wants one.
#[derive(Debug, PartialEq, Eq)]
pub enum WebviewReply {
    Flag(bool),
    Url(String),
    Bounds { position: PhysicalPosition, size: PhysicalSize },
    Position(PhysicalPosition),
    Size(PhysicalSize),
    NoCookies,
    /// The webview is in the window that it was asked to move to.
    InPlace,
    /// There is no such window (`WindowNotFound`).
    WindowNotFound,
    /// The request cannot be served (`FailedToSendMessage`).
    Failed,
}

/// Something that only the browser can tell.
#[derive(Clone, Copy, Debug, PartialEq, Eq, Structural)]
pub enum WebviewQuery {
    /// Answered with [`flag_reply`].
    CanGoBack,
    /// Answered with [`flag_reply`].
    CanGoForward,
    /// Answered with [`flag_reply`].
    DevToolsOpen,
    /// Answered with [`url_reply`].
    Url,
}

/// A zoom level of CEF, whose steps are a factor of 1.2 apart.
#[derive(Clone, Copy, Debug, PartialEq, Eq, Structural)]
pub enum ZoomLevel {
    /// The logarithm of the factor to the base 1.2.
    Of(Binary64),
    Zero,
}

/// Something for the browser to do.
#[derive(Debug, PartialEq, Eq)]
pub enum WebviewOp {
    /// Run a script in the main frame, if there is one.
    ExecuteJavaScript(String),
    /// Load a URL in the main frame, if there is one.
    LoadUrl(String),
    Reload,
    GoBack,
    GoForward,
    Print,
    CloseBrowser,
    /// Show or hide the browser view, if there is one.
    SetVisible(i32),
    /// Focus the browser, then its view.
    Focus,
    SetZoomLevel(ZoomLevel),
    WithWebview,
    ShowDevTools,
    CloseDevTools,
}

/// What a request to a webview leads to.
#[derive(Debug, PartialEq, Eq)]
pub enum WebviewAction {
    Nothing,
    Reply(WebviewReply),
    Query(WebviewQuery),
    Perform(WebviewOp),
}

/// The zoom level for a factor: none for a factor that is not positive.
pub open spec fn zoom_level(factor: Binary64) -> ZoomLevel {
    if factor.above_zero() {
        ZoomLevel::Of(factor)
    } else {
        ZoomLevel::Zero
    }
}

/// What a request to the webview of a window leads to: to nothing where the window
/// has none. A request that is not listed is not supported and leads to nothing.
pub open spec fn action_for(window_id: WindowId, window: WaylandWindow, message: WebviewMessage) -> WebviewAction {
    let origin = PhysicalPosition { x: 0, y: 0 };
    let size = window.initial_surface_size;
    if window.child is None {
        WebviewAction::Nothing
    } else {
        match message {
            WebviewMessage::EvaluateScript(script) => WebviewAction::Perform(
                WebviewOp::ExecuteJavaScript(script),
            ),
            WebviewMessage::Navigate(url) => WebviewAction::Perform(WebviewOp::LoadUrl(url)),
            WebviewMessage::Reload => WebviewAction::Perform(WebviewOp::Reload),
            WebviewMessage::GoBack => WebviewAction::Perform(WebviewOp::GoBack),
            WebviewMessage::CanGoBack => WebviewAction::Query(WebviewQuery::CanGoBack),
            WebviewMessage::GoForward => WebviewAction::Perform(WebviewOp::GoForward),
            WebviewMessage::CanGoForward => WebviewAction::Query(WebviewQuery::CanGoForward),
            WebviewMessage::Print => WebviewAction::Perform(WebviewOp::Print),
            WebviewMessage::Close => WebviewAction::Perform(WebviewOp::CloseBrowser),
            WebviewMessage::Show => WebviewAction::Perform(WebviewOp::SetVisible(1)),
            WebviewMessage::Hide => WebviewAction::Perform(WebviewOp::SetVisible(0)),
            WebviewMessage::SetFocus => WebviewAction::Perform(WebviewOp::Focus),
            WebviewMessage::Reparent(target) => WebviewAction::Reply(
                if target == window_id {
                    WebviewReply::InPlace
                } else {
                    WebviewReply::WindowNotFound
                },
            ),
            WebviewMessage::SetZoom(factor) => WebviewAction::Perform(
                WebviewOp::SetZoomLevel(zoom_level(factor)),
            ),
            WebviewMessage::Url => WebviewAction::Query(WebviewQuery::Url),
            WebviewMessage::Bounds => WebviewAction::Reply(
                WebviewReply::Bounds { position: origin, size },
            ),
            WebviewMessage::Position => WebviewAction::Reply(WebviewReply::Position(origin)),
            WebviewMessage::Size => WebviewAction::Reply(WebviewReply::Size(size)),
            WebviewMessage::WithWebview => WebviewAction::Perform(WebviewOp::WithWebview),
            WebviewMessage::CookiesForUrl | WebviewMessage::Cookies => WebviewAction::Reply(
                WebviewReply::NoCookies,
            ),
            WebviewMessage::OpenDevTools => WebviewAction::Perform(WebviewOp::ShowDevTools),
            WebviewMessage::CloseDevTools => WebviewAction::Perform(WebviewOp::CloseDevTools),
            WebviewMessage::IsDevToolsOpen => WebviewAction::Query(WebviewQuery::DevToolsOpen),
            WebviewMessage::SendDevToolsMessage
            | WebviewMessage::OnDevToolsProtocol => WebviewAction::Reply(WebviewReply::Failed),
            _ => WebviewAction::Nothing,
        }
    }
}

/// Takes a request to the webview of a window.
pub fn handle_message(window_id: WindowId, window: &WaylandWindow, message: WebviewMessage) -> (r: WebviewAction)
    ensures
        r == action_for(window_id, *window, message),
{
    let origin = PhysicalPosition { x: 0, y: 0 };
    let size = window.initial_surface_size;
    if window.child.is_none() {
        return WebviewAction::Nothing;
    }
    match message {
        WebviewMessage::EvaluateScript(script) => WebviewAction::Perform(
            WebviewOp::ExecuteJavaScript(script),
        ),
        WebviewMessage::Navigate(url) => WebviewAction::Perform(WebviewOp::LoadUrl(url)),
        WebviewMessage::Reload => WebviewAction::Perform(WebviewOp::Reload),
        WebviewMessage::GoBack => WebviewAction::Perform(WebviewOp::GoBack),
        WebviewMessage::CanGoBack => WebviewAction::Query(WebviewQuery::CanGoBack),
        WebviewMessage::GoForward => WebviewAction::Perform(WebviewOp::GoForward),
        WebviewMessage::CanGoForward => WebviewAction::Query(WebviewQuery::CanGoForward),
        WebviewMessage::Print => WebviewAction::Perform(WebviewOp::Print),
        WebviewMessage::Close => WebviewAction::Perform(WebviewOp::CloseBrowser),
        WebviewMessage::Show => WebviewAction::Perform(WebviewOp::SetVisible(1)),
        WebviewMessage::Hide => WebviewAction::Perform(WebviewOp::SetVisible(0)),
        WebviewMessage::SetFocus => WebviewAction::Perform(WebviewOp::Focus),
        WebviewMessage::Reparent(target) => if target == window_id {
            WebviewAction::Reply(WebviewReply::InPlace)
        } else {
            WebviewAction::Reply(WebviewReply::WindowNotFound)
        },
        WebviewMessage::SetZoom(factor) => if factor.is_positive() {
            WebviewAction::Perform(WebviewOp::SetZoomLevel(ZoomLevel::Of(factor)))
        } else {
            WebviewAction::Perform(WebviewOp::SetZoomLevel(ZoomLevel::Zero))
        },
        WebviewMessage::Url => WebviewAction::Query(WebviewQuery::Url),
        WebviewMessage::Bounds => WebviewAction::Reply(
            WebviewReply::Bounds { position: origin, size },
        ),
        WebviewMessage::Position => WebviewAction::Reply(WebviewReply::Position(origin)),
        WebviewMessage::Size => WebviewAction::Reply(WebviewReply::Size(size)),
        WebviewMessage::WithWebview => WebviewAction::Perform(WebviewOp::WithWebview),
        WebviewMessage::CookiesForUrl | WebviewMessage::Cookies => WebviewAction::Reply(
            WebviewReply::NoCookies,
        ),
        WebviewMessage::OpenDevTools => WebviewAction::Perform(WebviewOp::ShowDevTools),
        WebviewMessage::CloseDevTools => WebviewAction::Perform(WebviewOp::CloseDevTools),
        WebviewMessage::IsDevToolsOpen => WebviewAction::Query(WebviewQuery::DevToolsOpen),
        WebviewMessage::SendDevToolsMessage
        | WebviewMessage::OnDevToolsProtocol => WebviewAction::Reply(WebviewReply::Failed),
        _ => WebviewAction::Nothing,
    }
}

/// The answer to a query that the browser answered with `raw`.
pub fn flag_reply(raw: i32) -> (r: WebviewReply)
    ensures
        r == WebviewReply::Flag(raw == 1),
{
    WebviewReply::Flag(raw == 1)
}

/// The answer to a [`WebviewQuery::Url`]: empty where the browser has none.
pub fn url_reply(url: Option<String>) -> (r: WebviewReply)
    ensures
        r matches WebviewReply::Url(answer) && answer@ == (match url {
            Some(url) => url@,
            None => Seq::empty(),
        }),
{
    match url {
        Some(url) => WebviewReply::Url(url),
        None => WebviewReply::Url(String::new()),
    }
}

/// The webview fills its window: it is where the window is, in the window's size.
pub proof fn webview_fills_window(window: WaylandWindow)
    requires
        window.child is Some,
    ensures
        action_for(window.id, window, WebviewMessage::Size) == WebviewAction::Reply(
            WebviewReply::Size(window.initial_surface_size),
        ),
        action_for(window.id, window, WebviewMessage::Bounds) == WebviewAction::Reply(
            WebviewReply::Bounds {
                position: PhysicalPosition { x: 0, y: 0 },
                size: window.initial_surface_size,
            },
        ),
        crate::wayland::window::action_for(window, crate::window::WindowMessage::InnerSize)
            == crate::window::WindowAction::Reply(
            crate::window::WindowReply::Size(window.initial_surface_size),
        ),
        crate::wayland::window::action_for(window, crate::window::WindowMessage::InnerPosition)
            == crate::window::WindowAction::Reply(
            crate::window::WindowReply::Position(PhysicalPosition { x: 0, y: 0 }),
        ),
{
}

/// A setting is on exactly when it is to be.
pub proof fn settings_are_on_when_wanted(enabled: bool)
    ensures
        state_of(enabled) == SettingState::Enabled <==> enabled,
        state_of(enabled) == SettingState::Disabled <==> !enabled,
{
}

/// The host of a scheme is the scheme's own: it begins with the scheme, ends the same
/// way for all, and no two schemes share one.
pub proof fn schemes_have_hosts_of_their_own(scheme: Seq<char>, other: Seq<char>)
    ensures
        domain_of(scheme).len() == scheme.len() + 10,
        domain_of(scheme).subrange(0, scheme.len() as int) == scheme,
        domain_of(scheme).subrange(scheme.len() as int, scheme.len() as int + 10) == ".localhost"@,
        domain_of(scheme) == domain_of(other) ==> scheme == other,
{
    reveal_strlit(".localhost");
    assert(domain_of(scheme).subrange(0, scheme.len() as int) =~= scheme);
    assert(domain_of(scheme).subrange(scheme.len() as int, scheme.len() as int + 10) =~= ".localhost"@);
    if domain_of(scheme) == domain_of(other) {
        assert(domain_of(other).len() == other.len() + 10);
        assert(domain_of(other).subrange(0, other.len() as int) =~= other);
    }
}

/// The zoom level is of the factor exactly when that is a number above zero.
pub proof fn only_positive_factors_zoom(factor: Binary64)
    ensures
        zoom_level(factor) == ZoomLevel::Of(factor) <==> 0 < factor.bits <= 0x7ff0_0000_0000_0000,
        zoom_level(factor) == ZoomLevel::Zero <==> factor.bits == 0 || factor.bits
            > 0x7ff0_0000_0000_0000,
{
}

/// What the browser is told to do determines what was asked for, and is done for no
/// other request; a window without a webview does nothing.
pub proof fn operations_determine_the_request(
    id: WindowId,
    window: WaylandWindow,
    message: WebviewMessage,
    text: String,
    factor: Binary64,
)
    ensures
        ({
            let action = action_for(id, window, message);
            let there = window.child is Some;
            &&& !there ==> action == WebviewAction::Nothing
            &&& action == WebviewAction::Perform(WebviewOp::ExecuteJavaScript(text)) <==> there
                && message == WebviewMessage::EvaluateScript(text)
            &&& action == WebviewAction::Perform(WebviewOp::LoadUrl(text)) <==> there && message
                == WebviewMessage::Navigate(text)
            &&& action == WebviewAction::Perform(WebviewOp::Reload) <==> there && message is Reload
            &&& action == WebviewAction::Perform(WebviewOp::GoBack) <==> there && message is GoBack
            &&& action == WebviewAction::Perform(WebviewOp::GoForward) <==> there
                && message is GoForward
            &&& action == WebviewAction::Perform(WebviewOp::Print) <==> there && message is Print
            &&& action == WebviewAction::Perform(WebviewOp::CloseBrowser) <==> there
                && message is Close
            &&& action == WebviewAction::Perform(WebviewOp::SetVisible(1)) <==> there
                && message is Show
            &&& action == WebviewAction::Perform(WebviewOp::SetVisible(0)) <==> there
                && message is Hide
            &&& action == WebviewAction::Perform(WebviewOp::Focus) <==> there && message is SetFocus
            &&& action == WebviewAction::Perform(WebviewOp::WithWebview) <==> there
                && message is WithWebview
            &&& action == WebviewAction::Perform(WebviewOp::ShowDevTools) <==> there
                && message is OpenDevTools
            &&& action == WebviewAction::Perform(WebviewOp::CloseDevTools) <==> there
                && message is CloseDevTools
            &&& there && message == WebviewMessage::SetZoom(factor) ==> action
                == WebviewAction::Perform(
                WebviewOp::SetZoomLevel(
                    if 0 < factor.bits <= 0x7ff0_0000_0000_0000 {
                        ZoomLevel::Of(factor)
                    } else {
                        ZoomLevel::Zero
                    },
                ),
            )
            &&& action is Perform <==> there && (message is EvaluateScript || message is Navigate
                || message is Reload || message is GoBack || message is GoForward
                || message is Print || message is Close || message is Show || message is Hide
                || message is SetFocus || message is SetZoom || message is WithWebview
                || message is OpenDevTools || message is CloseDevTools)
        }),
{
}

/// The browser is asked for what only it knows. The rest is answered at once: the
/// webview is in its own window and in no other, at the origin and in the window's
/// size; it has no cookies, and nothing goes to its developer tools.
pub proof fn questions_about_the_webview_are_answered(
    id: WindowId,
    window: WaylandWindow,
    message: WebviewMessage,
    target: WindowId,
)
    requires
        window.child is Some,
    ensures
        ({
            let action = action_for(id, window, message);
            &&& action == WebviewAction::Query(WebviewQuery::CanGoBack) <==> message is CanGoBack
            &&& action == WebviewAction::Query(WebviewQuery::CanGoForward)
                <==> message is CanGoForward
            &&& action == WebviewAction::Query(WebviewQuery::DevToolsOpen)
                <==> message is IsDevToolsOpen
            &&& action == WebviewAction::Query(WebviewQuery::Url) <==> message is Url
            &&& message == WebviewMessage::Reparent(target) ==> {
                &&& action == WebviewAction::Reply(WebviewReply::InPlace) <==> target == id
                &&& action == WebviewAction::Reply(WebviewReply::WindowNotFound) <==> target != id
            }
            &&& message is Bounds ==> action == WebviewAction::Reply(
                WebviewReply::Bounds {
                    position: PhysicalPosition { x: 0, y: 0 },
                    size: window.initial_surface_size,
                },
            )
            &&& message is Position ==> action == WebviewAction::Reply(
                WebviewReply::Position(PhysicalPosition { x: 0, y: 0 }),
            )
            &&& message is Size ==> action == WebviewAction::Reply(
                WebviewReply::Size(window.initial_surface_size),
            )
            &&& action == WebviewAction::Reply(WebviewReply::NoCookies) <==> message is Cookies
                || message is CookiesForUrl
            &&& action == WebviewAction::Reply(WebviewReply::Failed)
                <==> message is SendDevToolsMessage || message is OnDevToolsProtocol
            &&& action is Reply <==> (message is Reparent || message is Bounds || message is Position
                || message is Size || message is Cookies || message is CookiesForUrl
                || message is SendDevToolsMessage || message is OnDevToolsProtocol)
            &&& action is Query <==> (message is CanGoBack || message is CanGoForward
                || message is IsDevToolsOpen || message is Url)
        }),
{
}

/// Every scheme keeps its place and its handler, and gets the label and the scripts
/// of its webview.
pub proof fn schemes_get_label_and_scripts<H>(
    label: String,
    handlers: Seq<(String, H)>,
    scripts: Arc<Vec<InitializationScript>>,
)
    ensures
        served(label, handlers, scripts).len() == handlers.len(),
        forall|i: int|
            0 <= i < handlers.len() ==> {
                let (scheme, by) = #[trigger] served(label, handlers, scripts)[i];
                &&& scheme == handlers[i].0
                &&& by.handler == handlers[i].1
                &&& by.label == label
                &&& by.scripts == scripts
            },
{
}

} // verus!
