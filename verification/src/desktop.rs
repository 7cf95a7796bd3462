//! State of the desktop application, what people and background work tell it, and the
//! background work it asks for.

use vstd::prelude::*;
use vstd::string::*;

use crate::creation::{CreateCollectionRequest, CreateView};
use crate::dump_form::{DumpBootstrapForm, DumpBootstrapPreview, DumpFormView, DumpPanelView};
use crate::forms::{
    CollectionForm, FormView, NetworkEditorView, NetworkPolicyEditor, ScheduleEditor,
    ScheduleEditorView, ScheduleSettings,
};
use crate::model::{
    CollectionId, CollectionSelectionPreview, NetworkTransferPolicy, NetworkView, PreviewView,
    RuleView,
};
use crate::paths::{is_same_path, same_path};
use crate::purge::{CollectionPurgeRequest, PurgeRequestView};
use crate::purge_dialog::{CollectionPurgeDialog, PurgeDialogView};
use crate::snapshot::DashboardSnapshot;
use crate::stored::SettingsView;
use crate::tasks::{EditCollectionRequest, EditView, PreviewCollectionRequest};
use crate::text::{trim, trimmed};

verus! {

#[derive(Clone, Copy, Debug, PartialEq, Eq, Structural)]
pub enum Screen {
    Setup,
    Dashboard,
}

#[derive(Clone, Copy, Debug, PartialEq, Eq, Structural)]
pub enum Tab {
    Overview,
    Collections,
    Sync,
    Integrity,
}

/// Which request a result belongs to.
#[derive(Debug, PartialEq, Eq)]
pub struct RequestKey {
    pub id: u64,
    pub path: String,
}

/// Plain view of a request key.
pub struct KeyView {
    pub id: u64,
    pub path: Seq<char>,
}

impl View for RequestKey {
    type V = KeyView;

    open spec fn view(&self) -> KeyView {
        KeyView { id: self.id, path: self.path@ }
    }
}

impl Clone for RequestKey {
    fn clone(&self) -> (copy: Self)
        ensures
            copy@ == self@,
    {
        RequestKey { id: self.id, path: self.path.clone() }
    }
}

/// What is known of the chosen library path.
#[derive(Debug, PartialEq, Eq)]
pub enum PathStatus {
    Checking,
    ExistingLibrary,
    NewLibrary,
    Unavailable(String),
}

#[derive(Clone, Copy, Debug, PartialEq, Eq, Structural)]
pub enum NoticeKind {
    Error,
    Success,
}

/// A message to the person at the screen.
#[derive(Debug, PartialEq, Eq)]
pub struct Notice {
    pub message: String,
    pub kind: NoticeKind,
}

/// Plain view of a notice.
pub struct NoticeView {
    pub message: Seq<char>,
    pub kind: NoticeKind,
}

impl View for Notice {
    type V = NoticeView;

    open spec fn view(&self) -> NoticeView {
        NoticeView { message: self.message@, kind: self.kind }
    }
}

/// The notice of a problem.
pub open spec fn problem(message: Seq<char>) -> Option<NoticeView> {
    Some(NoticeView { message, kind: NoticeKind::Error })
}

/// The notice of a success.
pub open spec fn success(message: Seq<char>) -> Option<NoticeView> {
    Some(NoticeView { message, kind: NoticeKind::Success })
}

impl Notice {
    pub fn error(message: String) -> (notice: Notice)
        ensures
            Some(notice@) == problem(message@),
    {
        Notice { message, kind: NoticeKind::Error }
    }

    pub fn success(message: String) -> (notice: Notice)
        ensures
            Some(notice@) == success(message@),
    {
        Notice { message, kind: NoticeKind::Success }
    }

    /// The line that shows this notice.
    pub fn notice_view(&self) -> (line: String)
        ensures
            line@ == match self.kind {
                NoticeKind::Error => "Problem: "@ + self.message@,
                NoticeKind::Success => "Done: "@ + self.message@,
            },
    {
        let mut line = match self.kind {
            NoticeKind::Error => "Problem: ".to_owned(),
            NoticeKind::Success => "Done: ".to_owned(),
        };
        line.append(self.message.as_str());
        line
    }
}

/// A collection under edit.
#[derive(Debug, PartialEq, Eq)]
pub struct CollectionEditor {
    pub collection_id: CollectionId,
    pub expected_generation: u64,
    pub form: CollectionForm,
    pub preview: Option<CollectionSelectionPreview>,
}

/// Plain view of a collection under edit.
pub struct EditorView {
    pub collection_id: u64,
    pub expected_generation: u64,
    pub form: FormView,
    pub preview: Option<PreviewView>,
}

/// An optional preview as plain data.
pub open spec fn preview_view(preview: Option<CollectionSelectionPreview>) -> Option<PreviewView> {
    match preview {
        Some(preview) => Some(preview@),
        None => None,
    }
}

impl View for CollectionEditor {
    type V = EditorView;

    open spec fn view(&self) -> EditorView {
        EditorView {
            collection_id: self.collection_id@,
            expected_generation: self.expected_generation,
            form: self.form@,
            preview: preview_view(self.preview),
        }
    }
}

#[derive(Clone, Copy, Debug, PartialEq, Eq, Structural)]
pub enum VerificationKind {
    Local,
    TrustedHead,
    AnchorRefresh,
}

/// What a finding of a verification is about.
#[derive(Clone, Copy, Debug, PartialEq, Eq, Structural)]
pub enum FindingKind {
    TrustedHeadSignatureInvalid,
    TrustedHeadMismatch,
    Other,
}

/// One finding of a verification.
#[derive(Debug, PartialEq, Eq)]
pub struct VerificationFinding {
    pub kind: FindingKind,
    /// The name of what was found.
    pub name: String,
    pub message: String,
}

/// What a full verification found.
#[derive(Debug, PartialEq, Eq)]
pub struct FullVerificationReport {
    pub objects_verified: u64,
    pub objects_at_start: u64,
    pub canonical_bytes_verified: u64,
    pub manifests_identity_verified: u64,
    pub manifests_at_start: u64,
    pub metadata_records_examined: u64,
    pub finding_count: u64,
    pub omitted_findings: u64,
    pub findings: Vec<VerificationFinding>,
    pub trusted_head_authenticated: bool,
    /// Whether everything captured was verified.
    pub verified_since_capture: bool,
    /// Whether the library was verified against an external anchor.
    pub authenticated_against_trusted_head: bool,
}

/// Where the verification of a library stands.
#[derive(Debug, PartialEq, Eq)]
pub enum VerificationState {
    NotRun,
    Running(VerificationKind),
    Complete(FullVerificationReport),
    Failed(String),
}

/// Plain view of a verification's state.
pub enum VerificationView {
    NotRun,
    Running(VerificationKind),
    Complete(FullVerificationReport),
    Failed(Seq<char>),
}

impl View for VerificationState {
    type V = VerificationView;

    open spec fn view(&self) -> VerificationView {
        match self {
            VerificationState::NotRun => VerificationView::NotRun,
            VerificationState::Running(kind) => VerificationView::Running(*kind),
            VerificationState::Complete(report) => VerificationView::Complete(*report),
            VerificationState::Failed(message) => VerificationView::Failed(message@),
        }
    }
}

/// The desktop application.
#[derive(Debug, PartialEq, Eq)]
pub struct App {
    pub library_path: String,
    pub privacy_acknowledged: bool,
    pub screen: Screen,
    pub tab: Tab,
    pub snapshot: Option<DashboardSnapshot>,
    pub notice: Option<Notice>,
    pub active_request: Option<RequestKey>,
    pub next_request_id: u64,
    pub latest_probe_id: u64,
    pub path_status: PathStatus,
    pub collection_form: CollectionForm,
    pub collection_editor: Option<CollectionEditor>,
    pub remove_confirmation: Option<CollectionId>,
    pub purge_dialog: Option<CollectionPurgeDialog>,
    pub schedule_editor: Option<ScheduleEditor>,
    pub network_policy_editor: NetworkPolicyEditor,
    pub dump_bootstrap_form: DumpBootstrapForm,
    pub dump_bootstrap_preview: Option<DumpBootstrapPreview>,
    pub selection_preview: Option<CollectionSelectionPreview>,
    pub verification: VerificationState,
    pub signing_key_path: String,
    pub trusted_head_path: String,
    /// The address of the running reader.
    pub reader: Option<String>,
}

/// Plain view of the desktop application.
pub struct AppView {
    pub library_path: Seq<char>,
    pub privacy_acknowledged: bool,
    pub screen: Screen,
    pub tab: Tab,
    pub snapshot: Option<DashboardSnapshot>,
    pub notice: Option<NoticeView>,
    pub active_request: Option<KeyView>,
    pub next_request_id: u64,
    pub latest_probe_id: u64,
    pub path_status: PathStatus,
    pub collection_form: FormView,
    pub collection_editor: Option<EditorView>,
    pub remove_confirmation: Option<u64>,
    pub purge_dialog: Option<PurgeDialogView>,
    pub schedule_editor: Option<ScheduleEditorView>,
    pub network_policy_editor: NetworkEditorView,
    pub dump_bootstrap_form: DumpFormView,
    pub dump_bootstrap_preview: Option<DumpPanelView>,
    pub selection_preview: Option<PreviewView>,
    pub verification: VerificationView,
    pub signing_key_path: Seq<char>,
    pub trusted_head_path: Seq<char>,
    pub reader: Option<Seq<char>>,
}

/// An optional value by its view.
pub open spec fn seen<T: View>(value: Option<T>) -> Option<T::V> {
    match value {
        Some(value) => Some(value@),
        None => None,
    }
}

impl View for App {
    type V = AppView;

    open spec fn view(&self) -> AppView {
        AppView {
            library_path: self.library_path@,
            privacy_acknowledged: self.privacy_acknowledged,
            screen: self.screen,
            tab: self.tab,
            snapshot: self.snapshot,
            notice: seen(self.notice),
            active_request: seen(self.active_request),
            next_request_id: self.next_request_id,
            latest_probe_id: self.latest_probe_id,
            path_status: self.path_status,
            collection_form: self.collection_form@,
            collection_editor: seen(self.collection_editor),
            remove_confirmation: seen(self.remove_confirmation),
            purge_dialog: seen(self.purge_dialog),
            schedule_editor: seen(self.schedule_editor),
            network_policy_editor: self.network_policy_editor@,
            dump_bootstrap_form: self.dump_bootstrap_form@,
            dump_bootstrap_preview: seen(self.dump_bootstrap_preview),
            selection_preview: preview_view(self.selection_preview),
            verification: self.verification@,
            signing_key_path: self.signing_key_path@,
            trusted_head_path: self.trusted_head_path@,
            reader: seen(self.reader),
        }
    }
}

/// Background work that the application asks for.
#[derive(Debug, PartialEq, Eq)]
pub enum Task {
    Idle,
    Probe(RequestKey),
    Load { key: RequestKey, create: bool },
    PreviewCollection { key: RequestKey, request: PreviewCollectionRequest },
    CreateCollection { key: RequestKey, request: CreateCollectionRequest },
    UpdateCollection { key: RequestKey, collection_id: CollectionId },
    PreviewEdit { key: RequestKey, request: PreviewCollectionRequest },
    EditCollection { key: RequestKey, request: EditCollectionRequest },
    RemoveCollection { key: RequestKey, collection_id: CollectionId },
    PreviewPurge { key: RequestKey, collection_id: CollectionId },
    Purge { key: RequestKey, request: CollectionPurgeRequest },
    SaveSchedule { key: RequestKey, collection_id: CollectionId, schedule: ScheduleSettings },
    SaveNetworkPolicy { key: RequestKey, policy: NetworkTransferPolicy },
    PreviewDump { key: RequestKey, form: DumpBootstrapForm },
    StartDump { key: RequestKey, preview: DumpBootstrapPreview },
    GenerateSigningKey { key: RequestKey, path: String },
    ValidateSigningKey { key: RequestKey, path: String },
    RefreshTrustedHead { key: RequestKey, signing_key_path: String, trusted_head_path: String },
    Verify(RequestKey),
    VerifyTrustedHead { key: RequestKey, path: String },
    StartReader(RequestKey),
    /// Show the reader; `started` tells whether it has just been started.
    OpenBrowser { url: String, started: bool },
}

/// Plain view of what a preview resolves.
pub struct PreviewRequestView {
    pub api_endpoint: Seq<char>,
    pub network_policy: NetworkView,
    pub rule: RuleView,
}

impl View for PreviewCollectionRequest {
    type V = PreviewRequestView;

    open spec fn view(&self) -> PreviewRequestView {
        PreviewRequestView {
            api_endpoint: self.api_endpoint@,
            network_policy: self.network_policy@,
            rule: self.rule@,
        }
    }
}

/// Plain view of background work.
pub enum TaskView {
    Idle,
    Probe(KeyView),
    Load { key: KeyView, create: bool },
    PreviewCollection { key: KeyView, request: PreviewRequestView },
    CreateCollection { key: KeyView, request: CreateView },
    UpdateCollection { key: KeyView, collection_id: u64 },
    PreviewEdit { key: KeyView, request: PreviewRequestView },
    EditCollection { key: KeyView, request: EditView },
    RemoveCollection { key: KeyView, collection_id: u64 },
    PreviewPurge { key: KeyView, collection_id: u64 },
    Purge { key: KeyView, request: PurgeRequestView },
    SaveSchedule { key: KeyView, collection_id: u64, schedule: SettingsView },
    SaveNetworkPolicy { key: KeyView, policy: NetworkView },
    PreviewDump { key: KeyView, form: DumpFormView },
    StartDump { key: KeyView, preview: DumpPanelView },
    GenerateSigningKey { key: KeyView, path: Seq<char> },
    ValidateSigningKey { key: KeyView, path: Seq<char> },
    RefreshTrustedHead { key: KeyView, signing_key_path: Seq<char>, trusted_head_path: Seq<char> },
    Verify(KeyView),
    VerifyTrustedHead { key: KeyView, path: Seq<char> },
    StartReader(KeyView),
    OpenBrowser { url: Seq<char>, started: bool },
}

impl View for Task {
    type V = TaskView;

    open spec fn view(&self) -> TaskView {
        match self {
            Task::Idle => TaskView::Idle,
            Task::Probe(key) => TaskView::Probe(key@),
            Task::Load { key, create } => TaskView::Load { key: key@, create: *create },
            Task::PreviewCollection { key, request } => TaskView::PreviewCollection {
                key: key@,
                request: request@,
            },
            Task::CreateCollection { key, request } => TaskView::CreateCollection {
                key: key@,
                request: request@,
            },
            Task::UpdateCollection { key, collection_id } => TaskView::UpdateCollection {
                key: key@,
                collection_id: collection_id@,
            },
            Task::PreviewEdit { key, request } => TaskView::PreviewEdit {
                key: key@,
                request: request@,
            },
            Task::EditCollection { key, request } => TaskView::EditCollection {
                key: key@,
                request: request@,
            },
            Task::RemoveCollection { key, collection_id } => TaskView::RemoveCollection {
                key: key@,
                collection_id: collection_id@,
            },
            Task::PreviewPurge { key, collection_id } => TaskView::PreviewPurge {
                key: key@,
                collection_id: collection_id@,
            },
            Task::Purge { key, request } => TaskView::Purge { key: key@, request: request@ },
            Task::SaveSchedule { key, collection_id, schedule } => TaskView::SaveSchedule {
                key: key@,
                collection_id: collection_id@,
                schedule: schedule@,
            },
            Task::SaveNetworkPolicy { key, policy } => TaskView::SaveNetworkPolicy {
                key: key@,
                policy: policy@,
            },
            Task::PreviewDump { key, form } => TaskView::PreviewDump { key: key@, form: form@ },
            Task::StartDump { key, preview } => TaskView::StartDump {
                key: key@,
                preview: preview@,
            },
            Task::GenerateSigningKey { key, path } => TaskView::GenerateSigningKey {
                key: key@,
                path: path@,
            },
            Task::ValidateSigningKey { key, path } => TaskView::ValidateSigningKey {
                key: key@,
                path: path@,
            },
            Task::RefreshTrustedHead { key, signing_key_path, trusted_head_path } =>
                TaskView::RefreshTrustedHead {
                key: key@,
                signing_key_path: signing_key_path@,
                trusted_head_path: trusted_head_path@,
            },
            Task::Verify(key) => TaskView::Verify(key@),
            Task::VerifyTrustedHead { key, path } => TaskView::VerifyTrustedHead {
                key: key@,
                path: path@,
            },
            Task::StartReader(key) => TaskView::StartReader(key@),
            Task::OpenBrowser { url, started } => TaskView::OpenBrowser {
                url: url@,
                started: *started,
            },
        }
    }
}

/// The request that background work belongs to; a look at a path and the browser belong to
/// none.
pub open spec fn task_key(task: TaskView) -> Option<KeyView> {
    match task {
        TaskView::Idle => None,
        TaskView::Probe(key) => None,
        TaskView::Load { key, create } => Some(key),
        TaskView::PreviewCollection { key, request } => Some(key),
        TaskView::CreateCollection { key, request } => Some(key),
        TaskView::UpdateCollection { key, collection_id } => Some(key),
        TaskView::PreviewEdit { key, request } => Some(key),
        TaskView::EditCollection { key, request } => Some(key),
        TaskView::RemoveCollection { key, collection_id } => Some(key),
        TaskView::PreviewPurge { key, collection_id } => Some(key),
        TaskView::Purge { key, request } => Some(key),
        TaskView::SaveSchedule { key, collection_id, schedule } => Some(key),
        TaskView::SaveNetworkPolicy { key, policy } => Some(key),
        TaskView::PreviewDump { key, form } => Some(key),
        TaskView::StartDump { key, preview } => Some(key),
        TaskView::GenerateSigningKey { key, path } => Some(key),
        TaskView::ValidateSigningKey { key, path } => Some(key),
        TaskView::RefreshTrustedHead { key, signing_key_path, trusted_head_path } => Some(key),
        TaskView::Verify(key) => Some(key),
        TaskView::VerifyTrustedHead { key, path } => Some(key),
        TaskView::StartReader(key) => Some(key),
        TaskView::OpenBrowser { url, started } => None,
    }
}

/// Background work that has a number of its own: all for the library, and a look at a path.
pub open spec fn draws_number(task: TaskView) -> bool {
    task_key(task) is Some || task is Probe
}

/// Nobody works on the library yet.
pub open spec fn is_idle(app: AppView) -> bool {
    app.active_request is None
}

/// The next request of an application for a path.
pub open spec fn next_key(app: AppView, path: Seq<char>) -> KeyView {
    KeyView { id: app.next_request_id, path }
}

/// The application after it drew an identifier.
pub open spec fn with_next_id(app: AppView) -> AppView {
    AppView { next_request_id: (app.next_request_id + 1) as u64, ..app }
}

/// The application while a request for a path runs.
pub open spec fn requested(app: AppView, path: Seq<char>) -> AppView {
    AppView { active_request: Some(next_key(app, path)), ..with_next_id(app) }
}

/// Whether a result belongs to the request that runs for the shown library.
pub open spec fn is_current(app: AppView, key: KeyView) -> bool {
    &&& app.active_request matches Some(active)
    &&& active.id == key.id
    &&& is_same_path(active.path, key.path)
    &&& is_same_path(key.path, trimmed(app.library_path))
}

/// The application after its request ended.
pub open spec fn released(app: AppView) -> AppView {
    AppView { active_request: None, ..app }
}

/// The application with another notice.
pub open spec fn noticed(app: AppView, notice: Option<NoticeView>) -> AppView {
    AppView { notice, ..app }
}

impl App {
    /// The application at its start, and the look at its first path.
    pub fn new(library_path: String) -> (r: (App, Task))
        ensures
            r.1@ == TaskView::Probe(KeyView { id: 1, path: library_path@ }),
            r.0@.library_path == library_path@,
            is_idle(r.0@),
            r.0@.next_request_id == 2,
            r.0@.latest_probe_id == 1,
            r.0@.screen == Screen::Setup,
            r.0@.tab == Tab::Overview,
            r.0@.path_status == PathStatus::Checking,
            !r.0@.privacy_acknowledged,
            r.0@.snapshot is None,
            r.0@.notice is None,
            r.0@.collection_form == crate::forms::blank_form(crate::forms::default_thumbnails()),
            r.0@.collection_editor is None,
            r.0@.remove_confirmation is None,
            r.0@.purge_dialog is None,
            r.0@.schedule_editor is None,
            r.0@.network_policy_editor == crate::forms::edited_network(
                NetworkView {
                    max_concurrent_requests: 4,
                    max_download_bytes_per_second: None,
                    avoid_metered_networks: false,
                },
            ),
            r.0@.dump_bootstrap_form == crate::dump_form::blank_dump_form(
                crate::dump_bootstrap::default_acquisition(),
                crate::dump_bootstrap::default_parser(),
            ),
            r.0@.dump_bootstrap_preview is None,
            r.0@.selection_preview is None,
            r.0@.verification is NotRun,
            r.0@.signing_key_path == Seq::<char>::empty(),
            r.0@.trusted_head_path == Seq::<char>::empty(),
            r.0@.reader is None,
    {
        let probe = RequestKey { id: 1, path: library_path.clone() };
        let app = App {
            library_path,
            privacy_acknowledged: false,
            screen: Screen::Setup,
            tab: Tab::Overview,
            snapshot: None,
            notice: None,
            active_request: None,
            next_request_id: 2,
            latest_probe_id: 1,
            path_status: PathStatus::Checking,
            collection_form: CollectionForm::default(),
            collection_editor: None,
            remove_confirmation: None,
            purge_dialog: None,
            schedule_editor: None,
            network_policy_editor: NetworkPolicyEditor::from_policy(
                NetworkTransferPolicy::default(),
            ),
            dump_bootstrap_form: DumpBootstrapForm::default(),
            dump_bootstrap_preview: None,
            selection_preview: None,
            verification: VerificationState::NotRun,
            signing_key_path: String::new(),
            trusted_head_path: String::new(),
            reader: None,
        };
        (app, Task::Probe(probe))
    }

    /// Whether background work runs.
    pub fn is_busy(&self) -> (busy: bool)
        ensures
            busy == !is_idle(self@),
    {
        self.active_request.is_some()
    }

    /// Draws the next request identifier.
    pub fn next_key(&mut self, path: String) -> (key: RequestKey)
        requires
            old(self)@.next_request_id < u64::MAX,
        ensures
            key@ == next_key(old(self)@, path@),
            final(self)@ == with_next_id(old(self)@),
    {
        let id: u64 = self.next_request_id;
        self.next_request_id = id + 1;
        RequestKey { id, path }
    }

    /// Starts the one request that may run.
    pub fn begin_request(&mut self, path: String) -> (key: RequestKey)
        requires
            old(self)@.next_request_id < u64::MAX,
        ensures
            key@ == next_key(old(self)@, path@),
            final(self)@ == requested(old(self)@, path@),
    {
        let key = self.next_key(path);
        self.active_request = Some(key.clone());
        key
    }

    /// Ends the request that a result belongs to; a stale result changes nothing.
    pub fn finish_request(&mut self, key: &RequestKey) -> (current: bool)
        ensures
            current == is_current(old(self)@, key@),
            final(self)@ == if current {
                released(old(self)@)
            } else {
                old(self)@
            },
    {
        let library = trim(self.library_path.as_str());
        let same: bool = match &self.active_request {
            Some(active) => active.id == key.id && same_path(
                active.path.as_str(),
                key.path.as_str(),
            ),
            None => false,
        };
        if !same || !same_path(key.path.as_str(), library.as_str()) {
            return false;
        }
        self.active_request = None;
        true
    }

    /// Shows a problem.
    pub fn report(&mut self, message: String)
        ensures
            final(self)@ == noticed(old(self)@, problem(message@)),
    {
        self.notice = Some(Notice::error(message));
    }

    /// Shows a success.
    pub fn confirm(&mut self, message: &str)
        ensures
            final(self)@ == noticed(old(self)@, success(message@)),
    {
        self.notice = Some(Notice::success(message.to_owned()));
    }
}

/// A result is taken exactly when it belongs to the request that runs, for the library that is
/// shown; then no request runs any more, and nothing else has changed.
pub proof fn law_only_the_running_request_ends(key: RequestKey)
    ensures
        forall|app: &mut App, current: bool| #[trigger]
            call_ensures(App::finish_request, (app, &key), current) ==> {
                &&& current ==> (*app)@.active_request is Some && (*app)@.active_request->0.id
                    == key.id && (*final(app))@.active_request is None
                &&& (*app)@.active_request is None ==> !current
                &&& (*app)@.active_request matches Some(active) ==> (active.id != key.id
                    ==> !current)
                &&& (*app)@.active_request matches Some(active) ==> (active.id == key.id
                    && active.path == key.path@ && key.path@ == trimmed((*app)@.library_path)
                    ==> current)
                &&& !current ==> (*final(app))@ == (*app)@
                &&& (*final(app))@.next_request_id == (*app)@.next_request_id
                &&& (*final(app))@.notice == (*app)@.notice
                &&& (*final(app))@.library_path == (*app)@.library_path
            },
{
}

/// A request that begins is the one that runs, under a number that the next one will not have.
pub proof fn law_begun_requests_run(path: String)
    ensures
        forall|app: &mut App, key: RequestKey| #[trigger]
            call_ensures(App::begin_request, (app, path), key) && (*app)@.next_request_id < u64::MAX
                ==> {
                &&& (*final(app))@.active_request == Some(key@)
                &&& key.id == (*app)@.next_request_id
                &&& key.path@ == path@
                &&& (*final(app))@.next_request_id == key.id + 1
                &&& (*final(app))@.library_path == (*app)@.library_path
            },
        forall|app: &App, busy: bool| #[trigger]
            call_ensures(App::is_busy, (app,), busy) ==> (busy <==> app.active_request is Some),
{
}

/// A problem is shown as a problem and a success as a success, each with its own message.
pub proof fn law_notices_tell_which_they_are(
    message: String,
    bad: Notice,
    good: Notice,
    lines: (String, String),
)
    requires
        call_ensures(Notice::error, (message,), bad),
        call_ensures(Notice::success, (message,), good),
        call_ensures(Notice::notice_view, (&bad,), lines.0),
        call_ensures(Notice::notice_view, (&good,), lines.1),
    ensures
        lines.0@ == "Problem: "@ + message@,
        lines.1@ == "Done: "@ + message@,
{
    assert(Some(bad@) == problem(message@));
    assert(Some(good@) == success(message@));
    assert(bad.kind == bad@.kind && good.kind == good@.kind);
}

/// An application starts with nothing running, nothing read and nothing acknowledged, and looks
/// at its first path.
pub proof fn law_application_starts_with_a_look(library_path: String, r: (App, Task))
    requires
        call_ensures(App::new, (library_path,), r),
    ensures
        r.1@ matches TaskView::Probe(key) && key.id == r.0@.latest_probe_id && key.path
            == library_path@ && key.id < r.0@.next_request_id,
        r.0@.active_request is None,
        r.0@.snapshot is None,
        !r.0@.privacy_acknowledged,
        r.0@.selection_preview is None && r.0@.dump_bootstrap_preview is None,
        r.0@.purge_dialog is None && r.0@.remove_confirmation is None,
        r.0@.library_path == library_path@,
        r.0@.path_status == PathStatus::Checking,
{
}

/// Numbers are handed out once, and a confirmation changes nothing but the notice.
pub proof fn law_numbers_are_handed_out_once(path: String, message: &str)
    ensures
        forall|app: &mut App, key: RequestKey| #[trigger]
            call_ensures(App::next_key, (app, path), key) && (*app)@.next_request_id < u64::MAX
                ==> {
                &&& key.id == (*app)@.next_request_id
                &&& key.path@ == path@
                &&& (*final(app))@ == (AppView {
                    next_request_id: (key.id + 1) as u64,
                    ..(*app)@
                })
            },
        forall|app: &mut App, nothing: ()| #[trigger]
            call_ensures(App::confirm, (app, message), nothing) ==> {
                &&& (*final(app))@.notice matches Some(notice) && notice.message == message@
                    && notice.kind is Success
                &&& (*final(app))@.active_request == (*app)@.active_request
                &&& (*final(app))@.snapshot == (*app)@.snapshot
                &&& (*final(app))@.screen == (*app)@.screen
            },
{
}

} // verus!
