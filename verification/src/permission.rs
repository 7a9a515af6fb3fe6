//! From CEF's permission prompts to the policy of the application, and back.
//!
//! Requests for media access are put to the same policy as Chromium's permission
//! prompts. What is granted is also written down as a content setting: CEF's media
//! access requests go past Chromium's own bookkeeping, which would otherwise go on
//! to hide the devices' names and remember nothing.

use vstd::prelude::*;

verus! {

/// What a page asks for, one by one.
#[derive(Clone, Copy, Debug, PartialEq, Eq, Structural)]
pub enum PermissionKind {
    Microphone,
    Camera,
    /// Anything else, by its bit in the request. Sharing the screen is among these:
    /// Chromium asks for it at each use.
    Other(u32),
}

/// A content setting of Chromium that remembers a permission.
#[derive(Clone, Copy, Debug, PartialEq, Eq, Structural)]
pub enum ContentSettingType {
    MediastreamMic,
    MediastreamCamera,
}

/// The value of a content setting.
#[derive(Clone, Copy, Debug, PartialEq, Eq, Structural)]
pub enum ContentSettingValue {
    Default,
    Allow,
    Block,
    Ask,
    SessionOnly,
    /// Any other value.
    Other,
}

/// Where a request came from.
#[derive(Clone, Copy, Debug, PartialEq, Eq, Structural)]
pub enum RequestSource {
    MediaAccess,
    Prompt,
}

/// A request as it is put to the policy.
#[derive(Debug, PartialEq, Eq)]
pub struct PolicyRequest {
    pub webview_label: String,
    /// The origin that asks; empty where CEF names none.
    pub origin: String,
    pub source: RequestSource,
    pub kinds: Vec<PermissionKind>,
    /// Whether the main frame asks, where CEF says which frame does.
    pub is_main_frame: Option<bool>,
}

/// The content setting that remembers a permission of the given kind, if one does.
pub open spec fn content_type_of(kind: PermissionKind) -> Option<ContentSettingType> {
    match kind {
        PermissionKind::Microphone => Some(ContentSettingType::MediastreamMic),
        PermissionKind::Camera => Some(ContentSettingType::MediastreamCamera),
        PermissionKind::Other(_) => None,
    }
}

/// The content settings that remember permissions of the given kinds, in their
/// order.
pub open spec fn content_types_of(kinds: Seq<PermissionKind>) -> Seq<ContentSettingType> {
    kinds.filter_map(|kind: PermissionKind| content_type_of(kind))
}

/// Whether every one of the given kinds is remembered by some content setting.
pub open spec fn all_remembered(kinds: Seq<PermissionKind>) -> bool {
    forall|i: int| 0 <= i < kinds.len() ==> content_type_of(#[trigger] kinds[i]) is Some
}

/// The content settings that remember permissions of the given kinds.
pub fn media_content_types(kinds: &Vec<PermissionKind>) -> (r: Vec<ContentSettingType>)
    ensures
        r@ == content_types_of(kinds@),
{
    let mut types: Vec<ContentSettingType> = Vec::new();
    for i in 0..kinds.len()
        invariant
            types@ == content_types_of(kinds@.take(i as int)),
    {
        proof {
            kinds@.lemma_filter_map_take_succ(
                |kind: PermissionKind| content_type_of(kind),
                i as int,
            );
        }
        match kinds[i] {
            PermissionKind::Microphone => types.push(ContentSettingType::MediastreamMic),
            PermissionKind::Camera => types.push(ContentSettingType::MediastreamCamera),
            PermissionKind::Other(_) => {},
        }
    }
    assert(kinds@.take(kinds@.len() as int) =~= kinds@);
    types
}

/// There are as many content settings as kinds exactly when each kind has its own;
/// then they stand side by side.
pub proof fn settings_match_kinds(kinds: Seq<PermissionKind>)
    ensures
        content_types_of(kinds).len() <= kinds.len(),
        content_types_of(kinds).len() == kinds.len() <==> all_remembered(kinds),
        all_remembered(kinds) ==> forall|i: int|
            0 <= i < kinds.len() ==> #[trigger] content_types_of(kinds)[i] == content_type_of(
                kinds[i],
            )->0,
    decreases kinds.len(),
{
    if kinds.len() > 0 {
        let rest = kinds.drop_last();
        settings_match_kinds(rest);
        assert(content_types_of(kinds) == content_types_of(rest) + (match content_type_of(
            kinds.last(),
        ) {
            Some(t) => seq![t],
            None => Seq::empty(),
        }));
        if all_remembered(kinds) {
            assert(forall|i: int| 0 <= i < rest.len() ==> rest[i] == kinds[i]);
            assert(all_remembered(rest));
        }
        if content_types_of(kinds).len() == kinds.len() {
            assert forall|i: int| 0 <= i < kinds.len() implies content_type_of(#[trigger] kinds[i]) is Some by {
                if i < rest.len() {
                    assert(rest[i] == kinds[i]);
                }
            }
        }
    }
}

/// The content settings of two lists of kinds, one after the other, are those of the
/// first and then those of the second.
pub proof fn settings_of_lists_are_joined(first: Seq<PermissionKind>, second: Seq<PermissionKind>)
    ensures
        content_types_of(first + second) == content_types_of(first) + content_types_of(second),
    decreases second.len(),
{
    if second.len() == 0 {
        assert(first + second =~= first);
        assert(content_types_of(second) =~= Seq::empty());
        assert(content_types_of(first) + content_types_of(second) =~= content_types_of(first));
    } else {
        let rest = second.drop_last();
        settings_of_lists_are_joined(first, rest);
        assert((first + second).drop_last() =~= first + rest);
        assert((first + second).last() == second.last());
        assert(content_types_of(first + second) =~= content_types_of(first) + content_types_of(second));
    }
}

/// Whether a content setting grants what it is about.
pub fn is_allowed(value: ContentSettingValue) -> (r: bool)
    ensures
        r == (value == ContentSettingValue::Allow),
{
    value == ContentSettingValue::Allow
}

/// What is to be done next about a request for media access.
#[derive(Clone, Copy, Debug, PartialEq, Eq, Structural)]
pub enum MediaAction {
    /// Read the content setting for the origin that asks, as the requesting and as
    /// the top-level one. Go on with [`MediaAccess::setting_read`].
    ReadSetting(ContentSettingType),
    /// Grant the permissions, without asking the policy.
    Continue(u32),
    /// Put the request to the policy. Go on with [`MediaAccess::decided`].
    AskPolicy,
}

/// A request for media access that is being seen to.
#[derive(Debug, PartialEq, Eq)]
pub struct MediaAccess {
    pub request: PolicyRequest,
    /// CEF's bits for what is asked for.
    pub requested_permissions: u32,
    /// Whether there is a place where content settings are kept.
    pub has_context: bool,
    /// How many of the content settings, from the first, are known to grant.
    pub granted: usize,
    /// Whether one of them is known not to.
    pub refused: bool,
}

/// What counts about a request for media access while it is being seen to.
pub struct MediaView {
    pub webview_label: Seq<char>,
    pub origin: Seq<char>,
    pub source: RequestSource,
    pub is_main_frame: Option<bool>,
    pub requested: u32,
    pub has_context: bool,
    pub kinds: Seq<PermissionKind>,
    pub granted: nat,
    pub refused: bool,
}

impl View for MediaAccess {
    type V = MediaView;

    open spec fn view(&self) -> MediaView {
        MediaView {
            webview_label: self.request.webview_label@,
            origin: self.request.origin@,
            source: self.request.source,
            is_main_frame: self.request.is_main_frame,
            requested: self.requested_permissions,
            has_context: self.has_context,
            kinds: self.request.kinds@,
            granted: self.granted as nat,
            refused: self.refused,
        }
    }
}

impl MediaView {
    /// What is to be done next. Content settings are read one after the other, up
    /// to the first that does not grant, and only if they could make up for the
    /// policy: there is one for each kind, and a place where they are kept.
    pub open spec fn next(self) -> MediaAction {
        let types = content_types_of(self.kinds);
        if !self.has_context || types.len() == 0 || types.len() != self.kinds.len() || self.refused {
            MediaAction::AskPolicy
        } else if self.granted < types.len() {
            MediaAction::ReadSetting(types[self.granted as int])
        } else {
            MediaAction::Continue(self.requested)
        }
    }

    /// The request after a content setting was read.
    pub open spec fn after(self, value: ContentSettingValue) -> MediaView {
        if value == ContentSettingValue::Allow {
            MediaView { granted: self.granted + 1, ..self }
        } else {
            MediaView { refused: true, ..self }
        }
    }

    /// Where a request ends up, if the content settings are as given.
    pub open spec fn resolved(self, settings: spec_fn(ContentSettingType) -> ContentSettingValue) -> MediaAction
        decreases
            content_types_of(self.kinds).len() - self.granted,
            if self.refused {
                0nat
            } else {
                1nat
            },
    {
        match self.next() {
            MediaAction::ReadSetting(content_type) => self.after(settings(content_type)).resolved(
                settings,
            ),
            action => action,
        }
    }
}

/// The text of an origin: empty where there is none.
pub open spec fn origin_text(origin: Option<String>) -> Seq<char> {
    match origin {
        Some(origin) => origin@,
        None => Seq::empty(),
    }
}

/// Begins to see to a request for media access. Without a callback there is nobody
/// to answer, and the request is left to CEF.
pub fn on_request_media_access_permission(
    webview_label: String,
    has_callback: bool,
    requesting_origin: Option<String>,
    is_main_frame: Option<bool>,
    requested_permissions: u32,
    kinds: Vec<PermissionKind>,
    has_context: bool,
) -> (r: Option<MediaAccess>)
    ensures
        r is Some <==> has_callback,
        r matches Some(access) ==> {
            &&& access.wf()
            &&& access.request.webview_label == webview_label
            &&& requesting_origin matches Some(origin) ==> access.request.origin@ == origin@
            &&& requesting_origin is None ==> access.request.origin@.len() == 0
            &&& access.request.source == RequestSource::MediaAccess
            &&& access.request.kinds == kinds
            &&& access.request.is_main_frame == is_main_frame
            &&& access.requested_permissions == requested_permissions
            &&& access.has_context == has_context
            &&& access.granted == 0
            &&& !access.refused
            &&& access@ == MediaView {
                webview_label: webview_label@,
                origin: origin_text(requesting_origin),
                source: RequestSource::MediaAccess,
                is_main_frame,
                requested: requested_permissions,
                has_context,
                kinds: kinds@,
                granted: 0,
                refused: false,
            }
        },
{
    if !has_callback {
        return None;
    }
    let origin = match requesting_origin {
        Some(origin) => origin,
        None => String::new(),
    };
    Some(
        MediaAccess {
            request: PolicyRequest {
                webview_label,
                origin,
                source: RequestSource::MediaAccess,
                kinds,
                is_main_frame,
            },
            requested_permissions,
            has_context,
            granted: 0,
            refused: false,
        },
    )
}

/// What CEF is answered to a request for media access.
#[derive(Clone, Copy, Debug, PartialEq, Eq, Structural)]
pub enum MediaAnswer {
    /// The permissions with these bits are granted.
    Granted(u32),
    /// None is.
    Denied,
}

/// A content setting that is written for an origin, as the requesting and as the
/// top-level one.
#[derive(Debug, PartialEq, Eq)]
pub struct SettingWrite {
    pub origin: String,
    pub content_type: ContentSettingType,
    pub value: ContentSettingValue,
}

/// How a grant is remembered.
#[derive(Debug, PartialEq, Eq)]
pub enum Recording {
    /// It is not.
    Skip,
    /// The content settings are written at once.
    Now(Vec<SettingWrite>),
    /// The content settings are written by a task on CEF's UI thread.
    OnUiThread(Vec<SettingWrite>),
}

/// The content settings that remember a grant of the given types to an origin.
pub open spec fn writes_of(writes: Seq<SettingWrite>, origin: Seq<char>, types: Seq<ContentSettingType>) -> bool {
    &&& writes.len() == types.len()
    &&& forall|i: int|
        0 <= i < writes.len() ==> {
            &&& (#[trigger] writes[i]).origin@ == origin
            &&& writes[i].content_type == types[i]
            &&& writes[i].value == ContentSettingValue::Allow
        }
}

/// The content settings that remember a grant of the given types to an origin.
pub fn record_grant(origin: &String, content_types: &Vec<ContentSettingType>) -> (r: Vec<SettingWrite>)
    ensures
        writes_of(r@, origin@, content_types@),
        r@.len() == content_types@.len(),
        forall|i: int|
            0 <= i < r@.len() ==> {
                &&& (#[trigger] r@[i]).origin@ == origin@
                &&& r@[i].content_type == content_types@[i]
                &&& r@[i].value == ContentSettingValue::Allow
            },
{
    let mut writes: Vec<SettingWrite> = Vec::new();
    for i in 0..content_types.len()
        invariant
            writes@.len() == i,
            forall|j: int|
                0 <= j < i ==> {
                    &&& (#[trigger] writes@[j]).origin@ == origin@
                    &&& writes@[j].content_type == content_types@[j]
                    &&& writes@[j].value == ContentSettingValue::Allow
                },
    {
        writes.push(
            SettingWrite {
                origin: origin.clone(),
                content_type: content_types[i],
                value: ContentSettingValue::Allow,
            },
        );
    }
    writes
}

/// Whether a grant is remembered in the way given. It is not where there is no
/// place for content settings, nothing to remember, or no origin to remember it
/// for. Content settings are written on CEF's UI thread only.
pub open spec fn records(
    recording: Recording,
    has_context: bool,
    origin: Seq<char>,
    types: Seq<ContentSettingType>,
    on_ui_thread: bool,
) -> bool {
    if !has_context || types.len() == 0 || origin.len() == 0 {
        recording is Skip
    } else {
        match recording {
            Recording::Skip => false,
            Recording::Now(writes) => on_ui_thread && writes_of(writes@, origin, types),
            Recording::OnUiThread(writes) => !on_ui_thread && writes_of(writes@, origin, types),
        }
    }
}

/// What a grant is remembered by.
#[derive(Debug, PartialEq, Eq)]
pub struct GrantRecorder {
    pub has_context: bool,
    pub origin: String,
    pub content_types: Vec<ContentSettingType>,
}

impl GrantRecorder {
    /// How the grant is remembered, from CEF's answer whether this is its UI thread.
    pub fn record(&self, currently_on_ui_thread: i32) -> (r: Recording)
        ensures
            records(
                r,
                self.has_context,
                self.origin@,
                self.content_types@,
                currently_on_ui_thread != 0,
            ),
    {
        if !self.has_context {
            return Recording::Skip;
        }
        if self.content_types.len() == 0 || self.origin.as_str().is_empty() {
            return Recording::Skip;
        }
        let writes = record_grant(&self.origin, &self.content_types);
        if currently_on_ui_thread != 0 {
            Recording::Now(writes)
        } else {
            Recording::OnUiThread(writes)
        }
    }
}

/// What is done once the policy has decided: the grant is remembered, then CEF is
/// answered.
#[derive(Debug, PartialEq, Eq)]
pub struct MediaOutcome {
    pub recording: Recording,
    pub answer: MediaAnswer,
}

/// What CEF is answered once the policy has decided: all that was asked for, or
/// nothing.
pub open spec fn media_answer(requested: u32, granted: bool) -> MediaAnswer {
    if granted {
        MediaAnswer::Granted(requested)
    } else {
        MediaAnswer::Denied
    }
}

impl MediaAccess {
    /// No more of the content settings are known to grant than there are.
    pub open spec fn wf(self) -> bool {
        self.granted <= content_types_of(self.request.kinds@).len()
    }

    /// What is to be done next.
    pub fn next(&self) -> (r: MediaAction)
        requires
            self.wf(),
        ensures
            r == self@.next(),
    {
        let content_types = media_content_types(&self.request.kinds);
        if !self.has_context || content_types.len() == 0 || content_types.len()
            != self.request.kinds.len() || self.refused {
            MediaAction::AskPolicy
        } else if self.granted < content_types.len() {
            MediaAction::ReadSetting(content_types[self.granted])
        } else {
            MediaAction::Continue(self.requested_permissions)
        }
    }

    /// Takes the value of the content setting that was to be read.
    pub fn setting_read(&mut self, value: ContentSettingValue)
        requires
            old(self).wf(),
            old(self)@.next() is ReadSetting,
        ensures
            final(self).wf(),
            final(self)@ == old(self)@.after(value),
            final(self).request == old(self).request,
            final(self).requested_permissions == old(self).requested_permissions,
            final(self).has_context == old(self).has_context,
            value == ContentSettingValue::Allow ==> final(self).granted == old(self).granted + 1
                && final(self).refused == old(self).refused,
            value != ContentSettingValue::Allow ==> final(self).granted == old(self).granted
                && final(self).refused,
    {
        assert(self.granted < self.request.kinds.len());
        if is_allowed(value) {
            self.granted = self.granted + 1;
        } else {
            self.refused = true;
        }
    }

    /// Takes the decision of the policy, and CEF's answer whether this is its UI
    /// thread.
    pub fn decided(self, granted: bool, currently_on_ui_thread: i32) -> (r: MediaOutcome)
        requires
            self.wf(),
        ensures
            r.answer == media_answer(self.requested_permissions, granted),
            granted ==> r.answer == MediaAnswer::Granted(self.requested_permissions),
            !granted ==> r.answer == MediaAnswer::Denied,
            !granted ==> r.recording is Skip,
            granted ==> records(
                r.recording,
                self.has_context,
                self.request.origin@,
                content_types_of(self.request.kinds@),
                currently_on_ui_thread != 0,
            ),
    {
        if granted {
            let recorder = GrantRecorder {
                has_context: self.has_context,
                origin: self.request.origin,
                content_types: media_content_types(&self.request.kinds),
            };
            MediaOutcome {
                recording: recorder.record(currently_on_ui_thread),
                answer: MediaAnswer::Granted(self.requested_permissions),
            }
        } else {
            MediaOutcome { recording: Recording::Skip, answer: MediaAnswer::Denied }
        }
    }
}

/// What CEF is answered to a permission prompt.
#[derive(Clone, Copy, Debug, PartialEq, Eq, Structural)]
pub enum PromptResult {
    Accept,
    Deny,
}

/// What a permission prompt puts to the policy. Without a callback there is nobody
/// to answer, and the prompt is left to CEF. CEF names no frame for a prompt: it
/// belongs to the browser.
pub fn on_show_permission_prompt(
    webview_label: String,
    has_callback: bool,
    requesting_origin: Option<String>,
    kinds: Vec<PermissionKind>,
) -> (r: Option<PolicyRequest>)
    ensures
        r is Some <==> has_callback,
        r matches Some(request) ==> {
            &&& request.webview_label == webview_label
            &&& request.origin@ == origin_text(requesting_origin)
            &&& requesting_origin matches Some(origin) ==> request.origin@ == origin@
            &&& requesting_origin is None ==> request.origin@.len() == 0
            &&& request.source == RequestSource::Prompt
            &&& request.kinds == kinds
            &&& request.is_main_frame is None
        },
{
    if !has_callback {
        return None;
    }
    let origin = match requesting_origin {
        Some(origin) => origin,
        None => String::new(),
    };
    Some(
        PolicyRequest {
            webview_label,
            origin,
            source: RequestSource::Prompt,
            kinds,
            is_main_frame: None,
        },
    )
}

/// What CEF is answered to a permission prompt once the policy has decided.
pub fn prompt_result(granted: bool) -> (r: PromptResult)
    ensures
        r == (if granted {
            PromptResult::Accept
        } else {
            PromptResult::Deny
        }),
        r == PromptResult::Accept <==> granted,
        r == PromptResult::Deny <==> !granted,
{
    if granted {
        PromptResult::Accept
    } else {
        PromptResult::Deny
    }
}

/// The mask that is granted is the one that was asked for, or none: never a part of
/// it, and only by a grant.
pub proof fn grants_are_all_or_nothing(requested: u32, granted: bool, mask: u32)
    requires
        media_answer(requested, granted) == MediaAnswer::Granted(mask),
    ensures
        granted,
        mask == requested,
{
}

/// A request is granted without asking the policy exactly when each of its kinds,
/// and there is one, is remembered by a content setting that grants it. In all
/// other cases the policy is asked.
pub proof fn stored_grants_answer(
    access: MediaView,
    settings: spec_fn(ContentSettingType) -> ContentSettingValue,
)
    requires
        access.granted == 0,
        !access.refused,
    ensures
        access.resolved(settings) == MediaAction::Continue(access.requested) <==> {
            &&& access.has_context
            &&& access.kinds.len() > 0
            &&& forall|i: int|
                0 <= i < access.kinds.len() ==> (content_type_of(#[trigger] access.kinds[i]) matches Some(
                    t,
                ) && settings(t) == ContentSettingValue::Allow)
        },
        access.resolved(settings) == MediaAction::Continue(access.requested) || access.resolved(settings)
            == MediaAction::AskPolicy,
{
    settings_match_kinds(access.kinds);
    resolves_by_settings(access, settings);
    let types = content_types_of(access.kinds);
    if all_remembered(access.kinds) {
        if forall|i: int| 0 <= i < types.len() ==> settings(#[trigger] types[i]) == ContentSettingValue::Allow {
            assert forall|i: int| 0 <= i < access.kinds.len() implies (content_type_of(
                #[trigger] access.kinds[i],
            ) matches Some(t) && settings(t) == ContentSettingValue::Allow) by {
                assert(types[i] == content_type_of(access.kinds[i])->0);
            }
        } else {
            let i = choose|i: int|
                0 <= i < types.len() && settings(#[trigger] types[i]) != ContentSettingValue::Allow;
            assert(types[i] == content_type_of(access.kinds[i])->0);
        }
    }
}

/// A request is granted from the content settings exactly when all those that are
/// yet to be read grant.
proof fn resolves_by_settings(
    access: MediaView,
    settings: spec_fn(ContentSettingType) -> ContentSettingValue,
)
    requires
        !access.refused,
    ensures
        ({
            let types = content_types_of(access.kinds);
            access.resolved(settings) == (if access.has_context && types.len() > 0 && types.len()
                == access.kinds.len() && (forall|i: int|
                access.granted <= i < types.len() ==> settings(#[trigger] types[i])
                    == ContentSettingValue::Allow) {
                MediaAction::Continue(access.requested)
            } else {
                MediaAction::AskPolicy
            })
        }),
    decreases content_types_of(access.kinds).len() - access.granted,
{
    reveal_with_fuel(MediaView::resolved, 2);
    let types = content_types_of(access.kinds);
    if access.next() is ReadSetting {
        let t = types[access.granted as int];
        if settings(t) == ContentSettingValue::Allow {
            let after = access.after(ContentSettingValue::Allow);
            resolves_by_settings(after, settings);
            assert((forall|i: int|
                access.granted <= i < types.len() ==> settings(#[trigger] types[i])
                    == ContentSettingValue::Allow) <==> (forall|i: int|
                after.granted <= i < types.len() ==> settings(#[trigger] types[i])
                    == ContentSettingValue::Allow));
        }
    }
}

/// The content settings of all origins after some were written, one after the
/// other.
pub open spec fn settings_after(
    settings: Map<(Seq<char>, ContentSettingType), ContentSettingValue>,
    writes: Seq<SettingWrite>,
) -> Map<(Seq<char>, ContentSettingType), ContentSettingValue>
    decreases writes.len(),
{
    if writes.len() == 0 {
        settings
    } else {
        settings_after(settings, writes.drop_last()).insert(
            (writes.last().origin@, writes.last().content_type),
            writes.last().value,
        )
    }
}

/// The content settings of one origin: the default where nothing was written.
pub open spec fn settings_of(
    settings: Map<(Seq<char>, ContentSettingType), ContentSettingValue>,
    origin: Seq<char>,
) -> spec_fn(ContentSettingType) -> ContentSettingValue {
    |t: ContentSettingType|
        if settings.contains_key((origin, t)) {
            settings[(origin, t)]
        } else {
            ContentSettingValue::Default
        }
}

/// Writing a grant makes the content settings of its types grant, and touches no
/// other.
pub proof fn recorded_grant_is_stored(
    settings: Map<(Seq<char>, ContentSettingType), ContentSettingValue>,
    writes: Seq<SettingWrite>,
    origin: Seq<char>,
    types: Seq<ContentSettingType>,
)
    requires
        writes_of(writes, origin, types),
    ensures
        forall|i: int|
            0 <= i < types.len() ==> {
                &&& settings_after(settings, writes).contains_key((origin, #[trigger] types[i]))
                &&& settings_after(settings, writes)[(origin, types[i])] == ContentSettingValue::Allow
            },
        forall|key: (Seq<char>, ContentSettingType)|
            key.0 != origin || !types.contains(key.1) ==> {
                &&& #[trigger] settings_after(settings, writes).contains_key(key) == settings.contains_key(key)
                &&& settings.contains_key(key) ==> settings_after(settings, writes)[key] == settings[key]
            },
    decreases writes.len(),
{
    if writes.len() > 0 {
        let fewer = writes.drop_last();
        let some = types.drop_last();
        assert forall|i: int| 0 <= i < fewer.len() implies {
            &&& (#[trigger] fewer[i]).origin@ == origin
            &&& fewer[i].content_type == some[i]
            &&& fewer[i].value == ContentSettingValue::Allow
        } by {
            assert(fewer[i] == writes[i]);
        }
        recorded_grant_is_stored(settings, fewer, origin, some);
        let last = writes.len() - 1;
        assert(writes[last] == writes.last());
        assert(types[last] == writes.last().content_type);
        assert forall|i: int| 0 <= i < types.len() implies {
            &&& settings_after(settings, writes).contains_key((origin, #[trigger] types[i]))
            &&& settings_after(settings, writes)[(origin, types[i])] == ContentSettingValue::Allow
        } by {
            if i < last {
                assert(some[i] == types[i]);
            }
        }
        assert forall|key: (Seq<char>, ContentSettingType)|
            key.0 != origin || !types.contains(key.1) implies {
            &&& #[trigger] settings_after(settings, writes).contains_key(key) == settings.contains_key(key)
            &&& settings.contains_key(key) ==> settings_after(settings, writes)[key] == settings[key]
        } by {
            assert(types.contains(types[last]));
            if some.contains(key.1) {
                let i = choose|i: int| 0 <= i < some.len() && some[i] == key.1;
                assert(types[i] == key.1);
            }
            assert(settings_after(settings, fewer).contains_key(key) == settings.contains_key(key));
        }
    }
}

/// A grant that was remembered answers the next request of the same origin for the
/// same kinds, without asking the policy again.
pub proof fn remembered_grant_answers_again(
    settings: Map<(Seq<char>, ContentSettingType), ContentSettingValue>,
    writes: Seq<SettingWrite>,
    again: MediaView,
)
    requires
        writes_of(writes, again.origin, content_types_of(again.kinds)),
        again.has_context,
        again.granted == 0,
        !again.refused,
        again.kinds.len() > 0,
        all_remembered(again.kinds),
    ensures
        again.resolved(settings_of(settings_after(settings, writes), again.origin))
            == MediaAction::Continue(again.requested),
{
    let types = content_types_of(again.kinds);
    settings_match_kinds(again.kinds);
    recorded_grant_is_stored(settings, writes, again.origin, types);
    resolves_by_settings(again, settings_of(settings_after(settings, writes), again.origin));
}

/// What no content setting remembers, such as sharing the screen, is put to the
/// policy each time.
pub proof fn unremembered_kinds_are_asked_for(
    access: MediaView,
    settings: spec_fn(ContentSettingType) -> ContentSettingValue,
    bit: u32,
)
    requires
        access.granted == 0,
        !access.refused,
        access.kinds.contains(PermissionKind::Other(bit)),
    ensures
        access.resolved(settings) == MediaAction::AskPolicy,
{
    let i = choose|i: int| 0 <= i < access.kinds.len() && access.kinds[i] == PermissionKind::Other(bit);
    assert(content_type_of(access.kinds[i]) is None);
    stored_grants_answer(access, settings);
}

/// Whatever was asked for, a decision to grant is answered by granting exactly that,
/// and a decision not to by denying.
pub proof fn decisions_are_carried_out(requested: u32, granted: bool)
    ensures
        media_answer(requested, granted) == MediaAnswer::Granted(requested) <==> granted,
        media_answer(requested, granted) == MediaAnswer::Denied <==> !granted,
{
}

/// The microphone and the camera have a content setting each, and nothing else has
/// one; a list of one kind has that kind's, and an empty list none.
pub proof fn devices_have_their_own_settings(kind: PermissionKind)
    ensures
        content_type_of(kind) == Some(ContentSettingType::MediastreamMic) <==> kind is Microphone,
        content_type_of(kind) == Some(ContentSettingType::MediastreamCamera) <==> kind is Camera,
        content_type_of(kind) is None <==> kind is Other,
        content_types_of(Seq::<PermissionKind>::empty()).len() == 0,
        kind is Microphone ==> content_types_of(seq![kind]) == seq![ContentSettingType::MediastreamMic],
        kind is Camera ==> content_types_of(seq![kind]) == seq![ContentSettingType::MediastreamCamera],
        kind is Other ==> content_types_of(seq![kind]).len() == 0,
{
    Seq::lemma_filter_map_singleton(kind, |kind: PermissionKind| content_type_of(kind));
}

/// Content settings are read one kind after the other, each kind's own, for as long
/// as all of them granted; then the request is granted as it was made. If there is no
/// place for content settings, if one did not grant, or if one kind has none, the
/// policy is asked instead.
pub proof fn settings_are_read_kind_by_kind(access: MediaView, content_type: ContentSettingType, mask: u32)
    ensures
        ({
            let useful = access.has_context && !access.refused && access.kinds.len() > 0 && (forall|i: int|
                0 <= i < access.kinds.len() ==> !((#[trigger] access.kinds[i]) is Other));
            &&& access.next() == MediaAction::AskPolicy <==> !useful
            &&& access.next() == MediaAction::Continue(mask) <==> useful && access.granted
                >= access.kinds.len() && mask == access.requested
            &&& access.next() == MediaAction::ReadSetting(content_type) <==> useful && access.granted
                < access.kinds.len() && content_type == (if access.kinds[access.granted as int] is Microphone {
                ContentSettingType::MediastreamMic
            } else {
                ContentSettingType::MediastreamCamera
            })
        }),
{
    settings_match_kinds(access.kinds);
    let all = forall|i: int| 0 <= i < access.kinds.len() ==> !((#[trigger] access.kinds[i]) is Other);
    if all {
        assert(all_remembered(access.kinds));
    } else {
        let i = choose|i: int| 0 <= i < access.kinds.len() && (#[trigger] access.kinds[i]) is Other;
        assert(content_type_of(access.kinds[i]) is None);
    }
}

/// Reading a content setting counts it if it allows, and is the end of reading
/// otherwise; the request itself stays what it was.
pub proof fn only_allowing_settings_count(access: MediaView, value: ContentSettingValue)
    ensures
        ({
            let after = access.after(value);
            let allows = value == ContentSettingValue::Allow;
            &&& after.granted == access.granted + (if allows { 1int } else { 0 })
            &&& after.refused <==> access.refused || !allows
            &&& after.requested == access.requested
            &&& after.has_context == access.has_context
            &&& after.kinds == access.kinds
            &&& after.origin == access.origin
            &&& after.webview_label == access.webview_label
            &&& after.source == access.source
            &&& after.is_main_frame == access.is_main_frame
        }),
{
}

/// A grant is remembered exactly when there is a place for it, something to remember
/// and an origin: then one setting is written for each type, in order, for that
/// origin, and it allows. It is written at once on the UI thread, and there later
/// from any other.
pub proof fn grants_are_written_in_full(
    recording: Recording,
    has_context: bool,
    origin: Seq<char>,
    types: Seq<ContentSettingType>,
    on_ui_thread: bool,
)
    requires
        records(recording, has_context, origin, types, on_ui_thread),
    ensures
        recording is Skip <==> !has_context || types.len() == 0 || origin.len() == 0,
        !(recording is Skip) ==> (recording is Now <==> on_ui_thread),
        recording matches Recording::Now(writes) ==> writes@.len() == types.len() && (forall|i: int|
            0 <= i < types.len() ==> (#[trigger] writes@[i]).origin@ == origin
                && writes@[i].content_type == types[i] && writes@[i].value
                == ContentSettingValue::Allow),
        recording matches Recording::OnUiThread(writes) ==> writes@.len() == types.len() && (forall|i: int|
            0 <= i < types.len() ==> (#[trigger] writes@[i]).origin@ == origin
                && writes@[i].content_type == types[i] && writes@[i].value
                == ContentSettingValue::Allow),
{
}

/// The text of an origin is the origin's, and empty only where there is none or it
/// is.
pub proof fn origins_keep_their_text(origin: Option<String>)
    ensures
        origin matches Some(text) ==> origin_text(origin) == text@,
        origin is None ==> origin_text(origin).len() == 0,
{
}

/// The view of a request is the request, one thing after the other.
pub proof fn requests_are_viewed_as_they_are(access: MediaAccess)
    ensures
        access@.webview_label == access.request.webview_label@,
        access@.origin == access.request.origin@,
        access@.source == access.request.source,
        access@.is_main_frame == access.request.is_main_frame,
        access@.kinds == access.request.kinds@,
        access@.requested == access.requested_permissions,
        access@.has_context == access.has_context,
        access@.granted == access.granted,
        access@.refused == access.refused,
{
}

} // verus!
