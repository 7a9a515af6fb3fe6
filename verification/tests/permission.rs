use tauri_runtime_cef::permission::{
    is_allowed, media_content_types, on_request_media_access_permission,
    on_show_permission_prompt, prompt_result, record_grant, ContentSettingType,
    ContentSettingValue, GrantRecorder, MediaAccess, MediaAction, MediaAnswer, PermissionKind,
    PromptResult, Recording, RequestSource, SettingWrite,
};

fn access(kinds: Vec<PermissionKind>, has_context: bool) -> MediaAccess {
    on_request_media_access_permission(
        "main".to_string(),
        true,
        Some("https://example.com".to_string()),
        Some(true),
        3,
        kinds,
        has_context,
    )
    .unwrap()
}

fn write(content_type: ContentSettingType) -> SettingWrite {
    SettingWrite {
        origin: "https://example.com".to_string(),
        content_type,
        value: ContentSettingValue::Allow,
    }
}

const BOTH: [PermissionKind; 2] = [PermissionKind::Microphone, PermissionKind::Camera];

#[test]
fn only_devices_have_content_settings() {
    let kinds = vec![
        PermissionKind::Other(4),
        PermissionKind::Camera,
        PermissionKind::Other(8),
        PermissionKind::Microphone,
    ];
    assert_eq!(
        media_content_types(&kinds),
        [ContentSettingType::MediastreamCamera, ContentSettingType::MediastreamMic]
    );
    assert!(media_content_types(&Vec::new()).is_empty());
}

#[test]
fn content_settings_of_lists_are_joined() {
    let first = vec![PermissionKind::Other(4), PermissionKind::Camera];
    let second = vec![PermissionKind::Microphone, PermissionKind::Other(8)];
    let mut both = first.clone();
    both.extend(second.iter().copied());
    let mut joined = media_content_types(&first);
    joined.extend(media_content_types(&second));
    assert_eq!(media_content_types(&both), joined);
    assert_eq!(media_content_types(&BOTH.to_vec()).len(), BOTH.len());
}

#[test]
fn only_an_allowing_setting_is_a_grant() {
    assert!(is_allowed(ContentSettingValue::Allow));
    for value in [
        ContentSettingValue::Default,
        ContentSettingValue::Block,
        ContentSettingValue::Ask,
        ContentSettingValue::SessionOnly,
        ContentSettingValue::Other,
    ] {
        assert!(!is_allowed(value));
    }
}

#[test]
fn a_request_without_a_callback_is_left_to_cef() {
    let request = on_request_media_access_permission(
        "main".to_string(),
        false,
        None,
        None,
        1,
        vec![PermissionKind::Camera],
        true,
    );
    assert!(request.is_none());
    assert!(on_show_permission_prompt("main".to_string(), false, None, Vec::new()).is_none());
}

#[test]
fn a_media_request_is_put_to_the_policy_as_it_came() {
    let request = access(BOTH.to_vec(), false).request;
    assert_eq!(request.webview_label, "main");
    assert_eq!(request.origin, "https://example.com");
    assert_eq!(request.source, RequestSource::MediaAccess);
    assert_eq!(request.kinds, BOTH);
    assert_eq!(request.is_main_frame, Some(true));

    let nameless = on_request_media_access_permission(
        "main".to_string(),
        true,
        None,
        None,
        1,
        Vec::new(),
        true,
    )
    .unwrap();
    assert_eq!(nameless.request.origin, "");
    assert_eq!(nameless.request.is_main_frame, None);
}

#[test]
fn stored_grants_answer_for_all_kinds() {
    let mut access = access(BOTH.to_vec(), true);
    assert_eq!(access.next(), MediaAction::ReadSetting(ContentSettingType::MediastreamMic));
    access.setting_read(ContentSettingValue::Allow);
    assert_eq!(access.next(), MediaAction::ReadSetting(ContentSettingType::MediastreamCamera));
    access.setting_read(ContentSettingValue::Allow);
    assert_eq!(access.next(), MediaAction::Continue(3));
}

#[test]
fn one_missing_grant_asks_the_policy() {
    let mut access = access(BOTH.to_vec(), true);
    access.setting_read(ContentSettingValue::Ask);
    assert_eq!(access.next(), MediaAction::AskPolicy);
}

#[test]
fn nothing_is_read_where_it_could_not_answer() {
    assert_eq!(access(BOTH.to_vec(), false).next(), MediaAction::AskPolicy);
    assert_eq!(access(Vec::new(), true).next(), MediaAction::AskPolicy);
    let shared = vec![PermissionKind::Microphone, PermissionKind::Other(4)];
    assert_eq!(access(shared, true).next(), MediaAction::AskPolicy);
}

#[test]
fn a_grant_is_recorded_and_answered_in_full() {
    let outcome = access(BOTH.to_vec(), true).decided(true, 1);
    assert_eq!(outcome.answer, MediaAnswer::Granted(3));
    assert_eq!(
        outcome.recording,
        Recording::Now(vec![
            write(ContentSettingType::MediastreamMic),
            write(ContentSettingType::MediastreamCamera),
        ])
    );
}

#[test]
fn a_grant_from_another_thread_is_recorded_on_the_ui_thread() {
    let shared = vec![PermissionKind::Other(4), PermissionKind::Camera];
    let outcome = access(shared, true).decided(true, 0);
    assert_eq!(outcome.answer, MediaAnswer::Granted(3));
    assert_eq!(
        outcome.recording,
        Recording::OnUiThread(vec![write(ContentSettingType::MediastreamCamera)])
    );
}

#[test]
fn a_denial_is_not_recorded() {
    let outcome = access(BOTH.to_vec(), true).decided(false, 1);
    assert_eq!(outcome.answer, MediaAnswer::Denied);
    assert_eq!(outcome.recording, Recording::Skip);
}

#[test]
fn a_recorded_grant_answers_the_next_request() {
    let stored = match access(BOTH.to_vec(), true).decided(true, 1).recording {
        Recording::Now(writes) => writes,
        other => panic!("{other:?}"),
    };
    let mut again = access(BOTH.to_vec(), true);
    while let MediaAction::ReadSetting(content_type) = again.next() {
        let value = stored
            .iter()
            .find(|write| write.content_type == content_type)
            .map(|write| write.value)
            .unwrap_or(ContentSettingValue::Default);
        again.setting_read(value);
    }
    assert_eq!(again.next(), MediaAction::Continue(3));
}

#[test]
fn there_may_be_nothing_to_record_a_grant_by() {
    let recorder = |has_context, origin: &str, content_types| GrantRecorder {
        has_context,
        origin: origin.to_string(),
        content_types,
    };
    let mic = vec![ContentSettingType::MediastreamMic];
    assert_eq!(recorder(false, "https://example.com", mic.clone()).record(1), Recording::Skip);
    assert_eq!(recorder(true, "", mic.clone()).record(1), Recording::Skip);
    assert_eq!(recorder(true, "https://example.com", Vec::new()).record(0), Recording::Skip);
    assert_eq!(
        recorder(true, "https://example.com", mic).record(1),
        Recording::Now(vec![write(ContentSettingType::MediastreamMic)])
    );
}

#[test]
fn grants_are_written_one_by_one() {
    let origin = "https://example.com".to_string();
    let types = vec![ContentSettingType::MediastreamCamera, ContentSettingType::MediastreamMic];
    assert_eq!(
        record_grant(&origin, &types),
        [
            write(ContentSettingType::MediastreamCamera),
            write(ContentSettingType::MediastreamMic),
        ]
    );
}

#[test]
fn prompts_belong_to_the_browser() {
    let request = on_show_permission_prompt(
        "side".to_string(),
        true,
        Some("https://example.com".to_string()),
        vec![PermissionKind::Other(1)],
    )
    .unwrap();
    assert_eq!(request.webview_label, "side");
    assert_eq!(request.origin, "https://example.com");
    assert_eq!(request.source, RequestSource::Prompt);
    assert_eq!(request.kinds, [PermissionKind::Other(1)]);
    assert_eq!(request.is_main_frame, None);
    assert_eq!(prompt_result(true), PromptResult::Accept);
    assert_eq!(prompt_result(false), PromptResult::Deny);
}
