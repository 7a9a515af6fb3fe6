use tauri_runtime_cef::schemes::SchemeRegistry;

fn text(value: &str) -> String {
    value.to_string()
}

#[test]
fn handlers_are_found_by_browser_and_scheme() {
    let mut registry: SchemeRegistry<u32> = SchemeRegistry::new();
    assert_eq!(registry.get(1, &text("tauri")), None);
    registry.insert(1, text("tauri"), 10);
    registry.insert(2, text("tauri"), 20);
    registry.insert(1, text("ipc"), 11);
    assert_eq!(registry.get(1, &text("tauri")), Some(&10));
    assert_eq!(registry.get(2, &text("tauri")), Some(&20));
    assert_eq!(registry.get(1, &text("ipc")), Some(&11));
    assert_eq!(registry.get(2, &text("ipc")), None);
}

#[test]
fn a_later_handler_replaces_an_earlier_one() {
    let mut registry: SchemeRegistry<u32> = SchemeRegistry::new();
    registry.register(1, vec![(text("tauri"), 10), (text("ipc"), 11), (text("tauri"), 12)]);
    assert_eq!(registry.get(1, &text("tauri")), Some(&12));
    registry.remove(1, &text("tauri"));
    assert_eq!(registry.get(1, &text("tauri")), None);
    assert_eq!(registry.get(1, &text("ipc")), Some(&11));
}

#[test]
fn removing_the_schemes_of_a_browser_undoes_registering_them() {
    let mut registry: SchemeRegistry<u32> = SchemeRegistry::new();
    registry.register(7, vec![(text("tauri"), 70)]);
    registry.register(1, vec![(text("tauri"), 10), (text("ipc"), 11)]);
    registry.remove_all(1, &vec![text("ipc"), text("tauri"), text("asset")]);
    assert_eq!(registry.get(1, &text("tauri")), None);
    assert_eq!(registry.get(1, &text("ipc")), None);
    assert_eq!(registry.get(7, &text("tauri")), Some(&70));
}
