use tauri_runtime_cef::views::{
    can_close, linux_window_properties, on_popup_browser_view_created,
    on_window_activation_changed, BrowserCreated, BrowserCreation, CloseAnswer, CreateStage,
    NativeWindow, PopupAnswer,
};

#[test]
fn only_a_forced_close_is_allowed() {
    assert_eq!(can_close(true, true), CloseAnswer { allowed: 1, request: false });
    assert_eq!(can_close(true, false), CloseAnswer { allowed: 1, request: false });
    assert_eq!(can_close(false, true), CloseAnswer { allowed: 0, request: true });
    assert_eq!(can_close(false, false), CloseAnswer { allowed: 0, request: false });

    let mut native = NativeWindow::new();
    assert!(!native.allow_close);
    native.force_close();
    assert!(native.allow_close);
}

#[test]
fn a_browser_is_delivered_once() {
    let mut creation = BrowserCreation::new();
    assert_eq!(creation.on_browser_created(false, true, true), BrowserCreated::Ignored);
    assert_eq!(creation.on_browser_created(true, false, true), BrowserCreated::Ignored);
    assert_eq!(creation.on_browser_created(true, true, true), BrowserCreated::Delivered);
    assert_eq!(creation.on_browser_created(true, true, true), BrowserCreated::NotAwaited);
}

#[test]
fn a_view_without_a_window_lets_go_of_who_waited() {
    let mut creation = BrowserCreation::new();
    assert_eq!(creation.on_browser_created(true, true, false), BrowserCreated::NoWindow);
    assert!(!creation.awaited);
    assert_eq!(creation.on_browser_created(true, true, true), BrowserCreated::NotAwaited);
}

#[test]
fn popups_are_closed() {
    let handled = |close_browser| PopupAnswer { close_browser, handled: 1 };
    assert_eq!(on_popup_browser_view_created(true, true), handled(true));
    assert_eq!(on_popup_browser_view_created(true, false), handled(false));
    assert_eq!(on_popup_browser_view_created(false, false), handled(false));
}

#[test]
fn small_answers_of_a_window_delegate() {
    assert!(on_window_activation_changed(1));
    assert!(!on_window_activation_changed(0));
    assert_eq!(linux_window_properties(true), 1);
    assert_eq!(linux_window_properties(false), 0);
}

#[test]
fn creation_needs_a_view_and_a_window() {
    let view = CreateStage::BrowserView;
    assert_eq!(view.next(true), CreateStage::TopLevelWindow);
    assert_eq!(view.next(true).next(true), CreateStage::Created);
    assert_eq!(view.next(true).next(false), CreateStage::Failed);
    assert_eq!(view.next(false), CreateStage::Failed);
    assert_eq!(view.next(false).next(true), CreateStage::Failed);
}
