//! The life of an application, from its start to its exit: what holds whatever
//! happens to it, in whatever order.

use vstd::prelude::*;

use crate::config::texts;
use crate::schemes::{registered, registration_adds_only_its_schemes, schemes_of};
use crate::wayland::webview::WebviewMessage;
use crate::wayland::window::{attrs_after, Event};
use crate::wayland::{
    event_loop_action, registry_without, Action, App, CreateError, CreateWindow, EventLoopMessage,
    Message, PendingWindow, RunEvent, WindowEvent,
};
use crate::webview::AppWebview;
use crate::window::{WindowId, WindowMessage};

verus! {

/// One thing that happens to an application.
pub enum Step {
    Message(Message),
    Event(WindowId, Event),
    /// It was asked whether a window may close; the first answer, if any.
    CloseAnswered(WindowId, Option<bool>),
    /// It was asked whether it may exit, with a code or none, and whether it
    /// prevented that.
    ExitAnswered(Option<i32>, bool),
    FinishClose(bool),
    Built(PendingWindow, Option<AppWebview>),
}

/// The state after one thing happened.
pub open spec fn next(app: App, step: Step) -> App {
    match step {
        Step::Message(message) => app.after_message(message),
        Step::Event(id, event) => app.after_event(id, event),
        Step::CloseAnswered(id, prevent) => if prevent == Some(true) {
            app
        } else {
            app.after_close(id)
        },
        Step::ExitAnswered(code, prevented) => app.after_exit_answer(code, prevented),
        Step::FinishClose(_) => app.without_window(),
        Step::Built(pending, child) => app.after_built(pending, child),
    }
}

/// The state after a series of things happened.
pub open spec fn run(app: App, steps: Seq<Step>) -> App
    decreases steps.len(),
{
    if steps.len() == 0 {
        app
    } else {
        next(run(app, steps.drop_last()), steps.last())
    }
}

/// The state that an application starts in.
pub open spec fn started() -> App {
    App { window: None, browser_live: false, exiting: false, exit_code: 0 }
}

/// A window has a webview only as long as its browser lives.
pub open spec fn webview_has_browser(app: App) -> bool {
    app.webview() is Some ==> app.browser_live
}

/// In every state that an application can get into, a window has a webview only as
/// long as its browser lives.
pub proof fn webview_always_has_browser(steps: Seq<Step>)
    ensures
        webview_has_browser(run(started(), steps)),
    decreases steps.len(),
{
    if steps.len() > 0 {
        webview_always_has_browser(steps.drop_last());
    }
}

/// Exiting is for good.
pub proof fn exiting_is_final(app: App, steps: Seq<Step>)
    requires
        app.exiting,
    ensures
        run(app, steps).exiting,
    decreases steps.len(),
{
    if steps.len() > 0 {
        exiting_is_final(app, steps.drop_last());
    }
}

/// The exit code is that of the last wish to exit that was not prevented.
pub open spec fn last_exit_code(code: i32, steps: Seq<Step>) -> i32
    decreases steps.len(),
{
    if steps.len() == 0 {
        code
    } else {
        match steps.last() {
            Step::ExitAnswered(Some(code), false) => code,
            _ => last_exit_code(code, steps.drop_last()),
        }
    }
}

/// The exit code is what the application was asked to exit with, if it did not
/// prevent that, and nothing else changes it.
pub proof fn exit_code_is_as_requested(app: App, steps: Seq<Step>)
    ensures
        run(app, steps).exit_code == last_exit_code(app.exit_code, steps),
    decreases steps.len(),
{
    if steps.len() > 0 {
        exit_code_is_as_requested(app, steps.drop_last());
    }
}

/// Only a browser that was built gives the application a window; a request for a
/// second one is refused, and so is a webview that comes without its window.
pub proof fn one_window_at_most(app: App, step: Step, request: CreateWindow)
    ensures
        app.window is None && next(app, step).window is Some ==> (step matches Step::Built(
            pending,
            child,
        ) && child is Some && next(app, step).has_window(pending.window.id)),
        app.window is Some ==> app.message_actions(Message::CreateWindow(request)) == seq![
            Action::Refuse(CreateError::Window),
        ],
        app.message_actions(Message::CreateWebview) == seq![
            Action::Refuse(CreateError::LaterWebview),
        ],
{
}

/// A close that is prevented changes nothing, and nothing is done about it.
pub proof fn prevented_close_changes_nothing(app: App, id: WindowId)
    ensures
        next(app, Step::CloseAnswered(id, Some(true))) == app,
{
}

/// A wish to close the window of an application that is not exiting is put to the
/// application and nothing is done before it answers. Unless it prevents that, the
/// window's end is told of, then the browser and the native window are closed, the
/// window is gone, and it is seen whether the application is done.
pub proof fn close_runs_its_course(app: App, id: WindowId, prevent: Option<bool>)
    requires
        app.has_window(id),
        !app.exiting,
        app.window->0.native is Some,
        app.window->0.child is Some,
        prevent != Some(true),
    ensures
        ({
            let window = app.window->0;
            let message = Message::Window(id, WindowMessage::Close);
            let asked = next(app, Step::Message(message));
            let answered = next(asked, Step::CloseAnswered(id, prevent));
            let closed = next(answered, Step::FinishClose(true));
            &&& app.message_actions(message) == seq![Action::AskClose { window: id, label: window.label }]
            &&& app.event_actions(id, Event::CloseRequested) == app.message_actions(message)
            &&& asked == app
            &&& asked.close_actions(id, true) == seq![
                Action::Emit { window: id, label: window.label, event: WindowEvent::Destroyed },
                Action::FinishClose { close_native: true },
            ]
            &&& answered.finish_close_actions(true) == seq![
                Action::CloseBrowser(window.child->0.browser_id),
                Action::CloseNative,
                Action::ExitIfDone,
            ]
            &&& closed == App { window: None, ..app }
        }),
{
    let message = Message::Window(id, WindowMessage::Close);
    let answered = next(next(app, Step::Message(message)), Step::CloseAnswered(id, prevent));
    assert(answered.finish_close_actions(true) =~= seq![
        Action::CloseBrowser(app.window->0.child->0.browser_id),
        Action::CloseNative,
        Action::ExitIfDone,
    ]);
}

/// Once a webview was closed, none of its schemes is served for its browser any
/// more, and everything else is served as before.
pub proof fn closed_webview_is_not_served<H>(
    registry: Map<(i32, Seq<char>), H>,
    webview: AppWebview,
    key: (i32, Seq<char>),
)
    ensures
        key.0 == webview.browser_id && texts(webview.schemes@).contains(key.1) ==> !registry_without(
            registry,
            Some(webview),
        ).contains_key(key),
        key.0 != webview.browser_id || !texts(webview.schemes@).contains(key.1) ==> {
            &&& registry_without(registry, Some(webview)).contains_key(key) == registry.contains_key(key)
            &&& registry.contains_key(key) ==> registry_without(registry, Some(webview))[key]
                == registry[key]
        },
{
}

/// The scheme registry after one thing happened. The handlers are those of the
/// browser that was built, if one was.
pub open spec fn next_registry<H>(
    app: App,
    registry: Map<(i32, Seq<char>), H>,
    step: Step,
    handlers: Seq<(String, H)>,
) -> Map<(i32, Seq<char>), H> {
    match step {
        Step::Built(_, Some(child)) => registered(registry, child.browser_id, handlers),
        _ => if next(app, step).window is None || step == Step::Message(Message::BrowserClosed) {
            registry_without(registry, app.webview())
        } else {
            registry
        },
    }
}

/// Whether nothing is served but the schemes of the application's webview, for its
/// browser.
pub open spec fn serves_only_webview<H>(app: App, registry: Map<(i32, Seq<char>), H>) -> bool {
    forall|key: (i32, Seq<char>)| #[trigger]
        registry.contains_key(key) ==> (app.webview() matches Some(webview) && key.0
            == webview.browser_id && texts(webview.schemes@).contains(key.1))
}

/// Nothing is ever served but the schemes of the application's webview: not before
/// there is one, and not after its browser or its window was closed. A window is
/// built only where there is none.
pub proof fn only_the_webview_is_served<H>(
    app: App,
    registry: Map<(i32, Seq<char>), H>,
    step: Step,
    handlers: Seq<(String, H)>,
)
    requires
        serves_only_webview(app, registry),
        step matches Step::Built(_, Some(child)) ==> app.window is None && schemes_of(handlers)
            == texts(child.schemes@),
    ensures
        serves_only_webview(started(), Map::<(i32, Seq<char>), H>::empty()),
        serves_only_webview(next(app, step), next_registry(app, registry, step, handlers)),
{
    let after = next_registry(app, registry, step, handlers);
    assert forall|key: (i32, Seq<char>)| #[trigger] after.contains_key(key) implies (next(
        app,
        step,
    ).webview() matches Some(webview) && key.0 == webview.browser_id && texts(webview.schemes@).contains(
        key.1,
    )) by {
        if let Step::Built(pending, Some(child)) = step {
            registration_adds_only_its_schemes(registry, child.browser_id, handlers, key);
        } else {
            assert(registry.contains_key(key));
        }
    }
}

/// The event loop is left only where it is seen whether the application is done,
/// or where the application was asked, because nothing is left, whether it may.
pub proof fn only_the_exit_check_ends_the_loop(
    app: App,
    message: Message,
    id: WindowId,
    event: Event,
    code: i32,
    prevented: bool,
)
    ensures
        !app.message_actions(message).contains(Action::ExitEventLoop),
        !app.event_actions(id, event).contains(Action::ExitEventLoop),
        !app.close_actions(id, true).contains(Action::ExitEventLoop),
        !app.finish_close_actions(true).contains(Action::ExitEventLoop),
        !app.finish_close_actions(false).contains(Action::ExitEventLoop),
        !app.exit_answer_actions(Some(code), prevented).contains(Action::ExitEventLoop),
{
}

/// An application that is exiting closes its window without asking and without
/// telling of it.
pub proof fn exiting_closes_silently(app: App, id: WindowId)
    requires
        app.has_window(id),
        app.exiting,
    ensures
        app.message_actions(Message::Window(id, WindowMessage::Close)) == app.finish_close_actions(true),
        next(app, Step::Message(Message::Window(id, WindowMessage::Close))).window is None,
        forall|i: int|
            0 <= i < app.finish_close_actions(true).len() ==> !((#[trigger] app.finish_close_actions(
                true,
            )[i]) is AskClose || app.finish_close_actions(true)[i] is Emit),
{
}

/// The application is not left while its browser lives: when it is seen whether
/// the application is done, nothing happens until the browser was closed; then it
/// exits if it is exiting, asks whether it may if no window is left, and goes on
/// otherwise.
pub proof fn exits_only_without_browser(app: App)
    ensures
        app.browser_live ==> app.exit_check_actions() == Seq::<Action>::empty(),
        app.exit_check_actions().contains(Action::ExitEventLoop) <==> !app.browser_live && app.exiting,
        app.exit_check_actions().contains(Action::AskExit(None)) <==> !app.browser_live && !app.exiting
            && app.window is None,
{
    let actions = app.exit_check_actions();
    if !app.browser_live && app.exiting {
        assert(actions[1] == Action::ExitEventLoop);
    } else if !app.browser_live && app.window is None {
        assert(actions[0] == Action::AskExit(None));
    }
}

/// An exit with a code that is not prevented ends the application as soon as its
/// browser was closed: the window goes at once, and once the browser is closed the
/// application exits with that code.
pub proof fn requested_exit_is_carried_out(app: App, code: i32)
    requires
        !app.exiting,
    ensures
        ({
            let answered = next(app, Step::ExitAnswered(Some(code), false));
            let closed = next(answered, Step::Message(Message::BrowserClosed));
            &&& app.message_actions(Message::RequestExit(code)) == seq![Action::AskExit(Some(code))]
            &&& app.exit_answer_actions(Some(code), false)[0] == Action::StoreExitCode(code)
            &&& answered.window is None && answered.exiting
            &&& answered.message_actions(Message::BrowserClosed) == seq![Action::ExitIfDone]
            &&& closed.exit_check_actions() == seq![
                Action::RunCallback(RunEvent::Exit),
                Action::ExitEventLoop,
            ]
            &&& closed.exit_code == code
        }),
{
}

/// A wish to exit is put to the application once: nothing is asked of one that is
/// exiting, and one that prevents its exit goes on as before.
pub proof fn exit_is_asked_for_once(app: App, code: i32)
    ensures
        app.exiting ==> app.message_actions(Message::RequestExit(code)) == Seq::<Action>::empty(),
        next(app, Step::ExitAnswered(Some(code), true)) == app,
        next(app, Step::ExitAnswered(None, true)) == app,
{
}

/// A change of focus is told of once: the same focus again leads to nothing.
pub proof fn focus_is_told_of_once(app: App, id: WindowId, focused: bool)
    ensures
        next(app, Step::Event(id, Event::Focused(focused))).event_actions(id, Event::Focused(focused))
            == Seq::<Action>::empty(),
{
}

/// The focus that is told of when one thing happens, if any is.
pub open spec fn focus_told(app: App, step: Step) -> Seq<bool> {
    match step {
        Step::Event(id, Event::Focused(focused)) => if app.event_actions(
            id,
            Event::Focused(focused),
        ).contains(Action::EmitWindowEvent { window: id, event: WindowEvent::Focused(focused) }) {
            seq![focused]
        } else {
            seq![]
        },
        _ => seq![],
    }
}

/// The focus that is told of, each time, while a series of things happens.
pub open spec fn focus_told_in(app: App, steps: Seq<Step>) -> Seq<bool>
    decreases steps.len(),
{
    if steps.len() == 0 {
        seq![]
    } else {
        focus_told_in(app, steps.drop_last()) + focus_told(
            run(app, steps.drop_last()),
            steps.last(),
        )
    }
}

/// The focus of a window after it was told of a number of times.
pub open spec fn focus_after(initial: bool, times: nat) -> bool {
    initial == (times % 2 == 0)
}

/// Whatever happens to a window, the focus that is told of alternates until the
/// window is closed, and it is the window's: gained first, then lost, for a window
/// that had no focus. After that nothing is told of.
pub proof fn told_focus_alternates(app: App, steps: Seq<Step>)
    requires
        app.window is Some,
        forall|i: int| 0 <= i < steps.len() ==> !((#[trigger] steps[i]) is Built),
    ensures
        forall|i: int|
            0 <= i < focus_told_in(app, steps).len() ==> #[trigger] focus_told_in(app, steps)[i]
                == focus_after(app.window->0.reported_focus, (i + 1) as nat),
        run(app, steps).window matches Some(window) ==> window.reported_focus == focus_after(
            app.window->0.reported_focus,
            focus_told_in(app, steps).len(),
        ),
    decreases steps.len(),
{
    if steps.len() > 0 {
        let fewer = steps.drop_last();
        assert forall|i: int| 0 <= i < fewer.len() implies !((#[trigger] fewer[i]) is Built) by {
            assert(fewer[i] == steps[i]);
        }
        told_focus_alternates(app, fewer);
        let before = run(app, fewer);
        assert(!(steps[steps.len() - 1] is Built));
        if let Step::Event(id, Event::Focused(focused)) = steps.last() {
            let actions = before.event_actions(id, Event::Focused(focused));
            if before.has_window(id) && before.window->0.reported_focus != focused {
                assert(actions[actions.len() - 1] == (Action::EmitWindowEvent {
                    window: id,
                    event: WindowEvent::Focused(focused),
                }));
            } else {
                assert(focus_told(before, steps.last()) =~= seq![]);
            }
        }
        let told = focus_told_in(app, steps);
        let earlier = focus_told_in(app, fewer);
        assert forall|i: int| 0 <= i < told.len() implies #[trigger] told[i] == focus_after(
            app.window->0.reported_focus,
            (i + 1) as nat,
        ) by {
            if i < earlier.len() {
                assert(told[i] == earlier[i]);
            }
        }
    }
}

/// Only a change of focus at the window, its closing, and the building of a window
/// change which focus is known of, and only the first tells of it. A window is
/// created without the focus.
pub proof fn only_focus_changes_focus(
    app: App,
    step: Step,
    message: Message,
    request: CreateWindow,
    window: WindowId,
    event: WindowEvent,
)
    ensures
        app.window is Some && next(app, step).window is Some && !(step is Built) && !(step matches Step::Event(
            _,
            Event::Focused(_),
        )) ==> next(app, step).window->0.reported_focus == app.window->0.reported_focus,
        !app.message_actions(message).contains(Action::EmitWindowEvent { window, event }),
        app.created(request) matches Ok(pending) ==> !pending.window.reported_focus,
{
}

/// Nothing that concerns another window than the application's has any effect.
pub proof fn other_windows_are_ignored(app: App, id: WindowId, message: WindowMessage, event: Event)
    requires
        !app.has_window(id),
    ensures
        app.message_actions(Message::Window(id, message)) == Seq::<Action>::empty(),
        next(app, Step::Message(Message::Window(id, message))) == app,
        app.event_actions(id, event) == Seq::<Action>::empty(),
        next(app, Step::Event(id, event)) == app,
        next(app, Step::CloseAnswered(id, None)) == app,
{
}

/// Whatever happens to it, a window keeps its identity, its label and its geometry
/// until it is closed.
pub proof fn window_keeps_its_identity(app: App, step: Step)
    requires
        app.window is Some,
        next(app, step).window is Some,
        !(step is Built),
    ensures
        next(app, step).window->0.id == app.window->0.id,
        next(app, step).window->0.label == app.window->0.label,
        next(app, step).window->0.initial_surface_size == app.window->0.initial_surface_size,
        next(app, step).window->0.initial_scale_factor == app.window->0.initial_scale_factor,
        next(app, step).window->0.native == app.window->0.native,
{
}

/// Whether one thing that happens takes the application's window away: the end of its
/// closing does, and an exit with a code that is not prevented. Of an exiting
/// application also the wish to close it, its destruction, and an answer that does
/// not prevent its closing.
pub open spec fn takes_window(app: App, step: Step) -> bool {
    match step {
        Step::FinishClose(_) => true,
        Step::ExitAnswered(code, prevented) => code is Some && !prevented,
        Step::Message(Message::Window(id, message)) => app.exiting && (message is Close
            || message is Destroy) && (app.window matches Some(window) && window.id == id),
        Step::Event(id, event) => app.exiting && !(event is Focused) && (app.window matches Some(
            window,
        ) && window.id == id),
        Step::CloseAnswered(id, prevent) => app.exiting && prevent != Some(true) && (
        app.window matches Some(window) && window.id == id),
        _ => false,
    }
}

/// What one thing that happens changes about the application, and what it leaves: it
/// is exiting once an exit was not prevented; its exit code is that of such an exit;
/// its browser lives from when it is built until it is closed; its window is there
/// from when it is built until it is taken away.
pub proof fn each_step_changes_its_own(app: App, step: Step)
    ensures
        next(app, step).exiting <==> app.exiting || (step matches Step::ExitAnswered(_, prevented)
            && !prevented),
        next(app, step).exit_code == (match step {
            Step::ExitAnswered(Some(code), false) => code,
            _ => app.exit_code,
        }),
        next(app, step).browser_live <==> (step matches Step::Built(_, child) && child is Some) || (
        app.browser_live && !(step matches Step::Message(message) && message is BrowserClosed)),
        !(step is Built) ==> (next(app, step).window is Some <==> app.window is Some && !takes_window(
            app,
            step,
        )),
        step matches Step::Built(_, None) ==> next(app, step) == app,
{
}

/// A window that was built is the one that was pending, with the webview that was
/// built and a native window that asks before it closes.
pub proof fn built_windows_are_as_pending(app: App, pending: PendingWindow, child: AppWebview)
    ensures
        next(app, Step::Built(pending, Some(child))).window matches Some(window) && {
            &&& window.child == Some(child)
            &&& window.native matches Some(native) && !native.allow_close
            &&& window.id == pending.window.id
            &&& window.label == pending.window.label
            &&& window.attrs == pending.window.attrs
            &&& window.initial_surface_size == pending.window.initial_surface_size
            &&& window.initial_scale_factor == pending.window.initial_scale_factor
            &&& window.reported_focus == pending.window.reported_focus
        },
{
}

/// A window loses its webview only when the browser is closed. Its attributes change
/// only by requests to it, and its focus only by focus events of its own.
pub proof fn windows_change_by_what_concerns_them(app: App, step: Step)
    requires
        app.window is Some,
        next(app, step).window is Some,
        !(step is Built),
    ensures
        ({
            let before = app.window->0;
            let after = next(app, step).window->0;
            &&& after.child == (if step == Step::Message(Message::BrowserClosed) {
                None
            } else {
                before.child
            })
            &&& after.reported_focus == (match step {
                Step::Event(id, Event::Focused(focused)) => if id == before.id {
                    focused
                } else {
                    before.reported_focus
                },
                _ => before.reported_focus,
            })
            &&& after.attrs == (match step {
                Step::Message(Message::Window(id, message)) => if id == before.id && !(message is Close)
                    && !(message is Destroy) {
                    attrs_after(before.attrs, message)
                } else {
                    before.attrs
                },
                _ => before.attrs,
            })
        }),
{
}

/// The end of closing closes what there is: the browser first, if there is one, then
/// the native window, if there is one and that is wanted, and last it is seen whether
/// the application is done. Without a window nothing is left to close.
pub proof fn closing_closes_what_there_is(app: App, close_native: bool)
    ensures
        app.window is None ==> app.finish_close_actions(close_native).len() == 0,
        app.window matches Some(window) ==> {
            let actions = app.finish_close_actions(close_native);
            let browser: int = if window.child is Some {
                1
            } else {
                0
            };
            let native: int = if close_native && window.native is Some {
                1
            } else {
                0
            };
            &&& actions.len() == browser + native + 1
            &&& window.child matches Some(child) ==> actions[0] == Action::CloseBrowser(child.browser_id)
            &&& native == 1 ==> actions[browser] == Action::CloseNative
            &&& actions.last() == Action::ExitIfDone
        },
{
}

/// Destroying a window never asks. It tells of the window's end and then finishes, or
/// finishes at once where the application is exiting. A window that destroyed itself
/// is not closed natively again. Another window is left alone.
pub proof fn destroying_does_not_ask(app: App, id: WindowId)
    ensures
        app.window matches Some(window) ==> {
            &&& id == window.id && !app.exiting ==> {
                &&& app.message_actions(Message::Window(id, WindowMessage::Destroy)) == seq![
                    Action::Emit { window: id, label: window.label, event: WindowEvent::Destroyed },
                    Action::FinishClose { close_native: true },
                ]
                &&& app.event_actions(id, Event::Destroyed) == seq![
                    Action::Emit { window: id, label: window.label, event: WindowEvent::Destroyed },
                    Action::FinishClose { close_native: false },
                ]
                &&& app.message_actions(Message::Window(id, WindowMessage::Close)) == seq![
                    Action::AskClose { window: id, label: window.label },
                ]
                &&& app.event_actions(id, Event::CloseRequested) == seq![
                    Action::AskClose { window: id, label: window.label },
                ]
                &&& app.close_actions(id, true) == app.message_actions(
                    Message::Window(id, WindowMessage::Destroy),
                )
            }
            &&& id == window.id && app.exiting ==> {
                &&& app.message_actions(Message::Window(id, WindowMessage::Destroy))
                    == app.finish_close_actions(true)
                &&& app.event_actions(id, Event::Destroyed) == app.finish_close_actions(false)
                &&& app.message_actions(Message::Window(id, WindowMessage::Close))
                    == app.finish_close_actions(true)
                &&& app.event_actions(id, Event::CloseRequested) == app.finish_close_actions(true)
                &&& app.close_actions(id, true) == app.finish_close_actions(true)
            }
        },
        (app.window matches Some(window) ==> id != window.id) ==> app.close_actions(id, true).len() == 0
            && app.close_actions(id, false).len() == 0 && app.request_close_actions(id).len() == 0,
{
}

/// A change of focus gives the browser the focus or takes it away, gives its view the
/// focus only when it is gained, and is then told of; without a webview it is only
/// told of.
pub proof fn focus_reaches_browser_and_view(app: App, id: WindowId, focused: bool)
    requires
        app.window is Some,
        app.window->0.id == id,
        app.window->0.reported_focus != focused,
    ensures
        ({
            let actions = app.event_actions(id, Event::Focused(focused));
            let there = app.window->0.child is Some;
            let number: i32 = if focused {
                1
            } else {
                0
            };
            &&& actions.last() == (Action::EmitWindowEvent {
                window: id,
                event: WindowEvent::Focused(focused),
            })
            &&& there ==> actions[0] == Action::FocusBrowser(number)
            &&& there && focused ==> actions.len() == 3 && actions[1] == Action::FocusView
            &&& there && !focused ==> actions.len() == 2
            &&& !there ==> actions.len() == 1
        }),
{
}

/// An application whose browser is gone exits if it is exiting, is asked whether it
/// may if it has no window, and goes on otherwise; while the browser lives it goes
/// on.
pub proof fn done_applications_exit(app: App)
    ensures
        app.browser_live ==> app.exit_check_actions().len() == 0,
        !app.browser_live && app.exiting ==> app.exit_check_actions() == seq![
            Action::RunCallback(RunEvent::Exit),
            Action::ExitEventLoop,
        ],
        !app.browser_live && !app.exiting && app.window is None ==> app.exit_check_actions() == seq![
            Action::AskExit(None),
        ],
        !app.browser_live && !app.exiting && app.window is Some ==> app.exit_check_actions().len() == 0,
{
}

/// A prevented exit does nothing. An exit because nothing is left tells of it and
/// leaves the event loop. An exit with a code leaves the code behind, then closes the
/// window, or sees whether the application is done where there is none.
pub proof fn exits_go_on_unless_prevented(app: App, code: i32, any: Option<i32>)
    ensures
        app.exit_answer_actions(any, true).len() == 0,
        app.exit_answer_actions(None, false) == seq![
            Action::RunCallback(RunEvent::Exit),
            Action::ExitEventLoop,
        ],
        app.window is Some ==> app.exit_answer_actions(Some(code), false) == seq![
            Action::StoreExitCode(code),
        ] + app.finish_close_actions(true),
        app.window is None ==> app.exit_answer_actions(Some(code), false) == seq![
            Action::StoreExitCode(code),
            Action::ExitIfDone,
        ],
{
    if app.window is None {
        assert(app.exit_answer_actions(Some(code), false) =~= seq![
            Action::StoreExitCode(code),
            Action::ExitIfDone,
        ]);
    }
}

/// Requests reach the window that they name, if it is the application's, and requests
/// to a webview reach it as long as there is one and the application is not exiting.
pub proof fn requests_reach_whom_they_name(
    app: App,
    id: WindowId,
    message: WindowMessage,
    request: WebviewMessage,
)
    ensures
        app.window matches Some(window) ==> {
            &&& id == window.id && !(message is Close) && !(message is Destroy)
                ==> app.message_actions(Message::Window(id, message)) == seq![
                Action::Window(crate::wayland::window::action_for(window, message)),
            ]
            &&& id == window.id && window.child is Some && !app.exiting ==> app.message_actions(
                Message::Webview(id, request),
            ) == seq![
                Action::Webview(crate::wayland::webview::action_for(id, window, request)),
            ]
            &&& id != window.id || window.child is None || app.exiting ==> app.message_actions(
                Message::Webview(id, request),
            ).len() == 0
        },
        app.window is None ==> app.message_actions(Message::Webview(id, request)).len() == 0
            && app.message_actions(Message::Window(id, message)).len() == 0,
{
}

/// What else comes as a message is passed on, once and as it is: tasks are run, the
/// application gets its own events, the event loop its requests, and a window that is
/// granted is built. A closed browser leads to seeing whether the application is
/// done. Drops and links lead to nothing.
pub proof fn messages_are_passed_on(
    app: App,
    code: i32,
    request: CreateWindow,
    message: EventLoopMessage,
)
    ensures
        app.message_actions(Message::Task) == seq![Action::RunTask],
        app.message_actions(Message::UserEvent) == seq![Action::RunCallback(RunEvent::UserEvent)],
        app.message_actions(Message::BrowserClosed) == seq![Action::ExitIfDone],
        app.message_actions(Message::EventLoop(message)) == seq![
            Action::EventLoop(event_loop_action(message)),
        ],
        app.message_actions(Message::DragDropScriptEvent).len() == 0,
        app.message_actions(Message::Opened).len() == 0,
        !app.exiting ==> app.message_actions(Message::RequestExit(code)) == seq![
            Action::AskExit(Some(code)),
        ],
        app.created(request) matches Ok(pending) ==> app.message_actions(Message::CreateWindow(request))
            == seq![Action::Build(pending)],
        app.created(request) matches Err(error) ==> app.message_actions(Message::CreateWindow(request))
            == seq![Action::Refuse(error)],
        app.message_actions(Message::CreateWebview) == seq![Action::Refuse(CreateError::LaterWebview)],
{
}

/// The webview of an application is that of its window, and dropping the schemes of
/// no webview changes nothing.
pub proof fn webviews_are_in_windows<H>(app: App, registry: Map<(i32, Seq<char>), H>)
    ensures
        app.window is None ==> app.webview() is None,
        app.window matches Some(window) ==> app.webview() == window.child,
        registry_without(registry, None) == registry,
{
}

} // verus!
