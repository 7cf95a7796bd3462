//! Choosing, opening and reading a library in the desktop application.

use vstd::prelude::*;
use vstd::string::*;

use crate::desktop::{
    draws_number, is_current, is_idle, next_key, noticed, problem, released, requested,
    with_next_id, App, AppView, NoticeKind, PathStatus, RequestKey, Screen, Tab, Task, TaskView,
    VerificationState, VerificationView,
};
use crate::forms::{edited_network, NetworkPolicyEditor};
use crate::paths::{is_same_path, same_path};
use crate::snapshot::DashboardSnapshot;
use crate::text::{trim, trimmed};

verus! {

/// A library that was read for a request, or why it was not.
#[derive(Debug, PartialEq, Eq)]
pub struct Loaded {
    pub key: RequestKey,
    pub result: Result<DashboardSnapshot, String>,
}

/// What concerns the library itself.
#[derive(Debug, PartialEq, Eq)]
pub enum LibraryMessage {
    PathChanged(String),
    PathProbed { key: RequestKey, result: Result<bool, String> },
    PrivacyAcknowledged(bool),
    Open,
    Create,
    Loaded(Loaded),
    SelectTab(Tab),
    Refresh,
    ChooseAnother,
}

/// The application with a freshly read library.
pub open spec fn showing(app: AppView, snapshot: DashboardSnapshot) -> AppView {
    AppView {
        network_policy_editor: edited_network(snapshot.network_policy@),
        snapshot: Some(snapshot),
        ..app
    }
}

/// The application after a read that a person waited for.
pub open spec fn loaded(app: AppView, result: Result<DashboardSnapshot, String>) -> AppView {
    match result {
        Ok(snapshot) => AppView {
            library_path: snapshot.path@,
            screen: Screen::Dashboard,
            path_status: PathStatus::ExistingLibrary,
            notice: None,
            ..showing(app, snapshot)
        },
        Err(message) => noticed(app, problem(message@)),
    }
}

/// What is known of a path after a look at it.
pub open spec fn probe_status(result: Result<bool, String>) -> PathStatus {
    match result {
        Ok(found) => if found {
            PathStatus::ExistingLibrary
        } else {
            PathStatus::NewLibrary
        },
        Err(message) => PathStatus::Unavailable(message),
    }
}

/// How a library message changes the application and what it asks for.
pub open spec fn library_updated(app: AppView, message: LibraryMessage) -> (AppView, TaskView) {
    match message {
        LibraryMessage::PathChanged(path) => if !is_idle(app) {
            (app, TaskView::Idle)
        } else {
            let key = next_key(app, trimmed(path@));
            (
                AppView {
                    library_path: path@,
                    path_status: PathStatus::Checking,
                    latest_probe_id: key.id,
                    ..with_next_id(app)
                },
                TaskView::Probe(key),
            )
        },
        LibraryMessage::PathProbed { key, result } => if key.id != app.latest_probe_id
            || !is_same_path(key.path@, trimmed(app.library_path)) {
            (app, TaskView::Idle)
        } else {
            (AppView { path_status: probe_status(result), ..app }, TaskView::Idle)
        },
        LibraryMessage::PrivacyAcknowledged(value) => (
            AppView { privacy_acknowledged: value, ..app },
            TaskView::Idle,
        ),
        LibraryMessage::Open => if !is_idle(app) || app.path_status
            != PathStatus::ExistingLibrary {
            (app, TaskView::Idle)
        } else {
            let path = trimmed(app.library_path);
            (
                requested(noticed(app, None), path),
                TaskView::Load { key: next_key(app, path), create: false },
            )
        },
        LibraryMessage::Create => if !is_idle(app) || app.path_status != PathStatus::NewLibrary {
            (app, TaskView::Idle)
        } else if !app.privacy_acknowledged {
            (
                noticed(
                    app,
                    problem(
                        "Please acknowledge how local data and public editor metadata are stored."@,
                    ),
                ),
                TaskView::Idle,
            )
        } else {
            let path = trimmed(app.library_path);
            (
                requested(noticed(app, None), path),
                TaskView::Load { key: next_key(app, path), create: true },
            )
        },
        LibraryMessage::Loaded(read) => if !is_current(app, read.key@) {
            (app, TaskView::Idle)
        } else {
            (loaded(released(app), read.result), TaskView::Idle)
        },
        LibraryMessage::SelectTab(tab) => (AppView { tab, ..app }, TaskView::Idle),
        LibraryMessage::Refresh => if !is_idle(app) {
            (app, TaskView::Idle)
        } else {
            (
                requested(noticed(app, None), app.library_path),
                TaskView::Load { key: next_key(app, app.library_path), create: false },
            )
        },
        LibraryMessage::ChooseAnother => if !is_idle(app) {
            (app, TaskView::Idle)
        } else {
            (
                AppView {
                    screen: Screen::Setup,
                    snapshot: None,
                    notice: None,
                    dump_bootstrap_preview: None,
                    purge_dialog: None,
                    verification: VerificationView::NotRun,
                    reader: None,
                    ..app
                },
                TaskView::Idle,
            )
        },
    }
}

impl App {
    /// Shows a freshly read library.
    pub fn show(&mut self, snapshot: DashboardSnapshot)
        ensures
            final(self)@ == showing(old(self)@, snapshot),
    {
        self.network_policy_editor = NetworkPolicyEditor::from_policy(snapshot.network_policy);
        self.snapshot = Some(snapshot);
    }

    /// Takes a library message.
    pub fn update_library(&mut self, message: LibraryMessage) -> (task: Task)
        requires
            draws_number(
                library_updated(old(self)@, message).1,
            ) ==> old(self)@.next_request_id < u64::MAX,
        ensures
            (final(self)@, task@) == library_updated(old(self)@, message),
    {
        match message {
            LibraryMessage::PathChanged(path) => {
                if self.is_busy() {
                    return Task::Idle;
                }
                self.library_path = path;
                self.path_status = PathStatus::Checking;
                let probed = trim(self.library_path.as_str());
                let key = self.next_key(probed);
                self.latest_probe_id = key.id;
                Task::Probe(key)
            },
            LibraryMessage::PathProbed { key, result } => {
                let shown = trim(self.library_path.as_str());
                if key.id != self.latest_probe_id || !same_path(
                    key.path.as_str(),
                    shown.as_str(),
                ) {
                    return Task::Idle;
                }
                self.path_status =
                match result {
                    Ok(true) => PathStatus::ExistingLibrary,
                    Ok(false) => PathStatus::NewLibrary,
                    Err(message) => PathStatus::Unavailable(message),
                };
                Task::Idle
            },
            LibraryMessage::PrivacyAcknowledged(value) => {
                self.privacy_acknowledged = value;
                Task::Idle
            },
            LibraryMessage::Open => {
                if self.is_busy() || !matches!(self.path_status, PathStatus::ExistingLibrary) {
                    return Task::Idle;
                }
                self.notice = None;
                let path = trim(self.library_path.as_str());
                let key = self.begin_request(path);
                Task::Load { key, create: false }
            },
            LibraryMessage::Create => {
                if self.is_busy() || !matches!(self.path_status, PathStatus::NewLibrary) {
                    return Task::Idle;
                }
                if !self.privacy_acknowledged {
                    self.report(
                        "Please acknowledge how local data and public editor metadata are stored.".to_owned(),
                    );
                    return Task::Idle;
                }
                self.notice = None;
                let path = trim(self.library_path.as_str());
                let key = self.begin_request(path);
                Task::Load { key, create: true }
            },
            LibraryMessage::Loaded(read) => {
                if !self.finish_request(&read.key) {
                    return Task::Idle;
                }
                match read.result {
                    Ok(snapshot) => {
                        self.library_path = snapshot.path.clone();
                        self.show(snapshot);
                        self.screen = Screen::Dashboard;
                        self.path_status = PathStatus::ExistingLibrary;
                        self.notice = None;
                    },
                    Err(message) => self.report(message),
                }
                Task::Idle
            },
            LibraryMessage::SelectTab(tab) => {
                self.tab = tab;
                Task::Idle
            },
            LibraryMessage::Refresh => {
                if self.is_busy() {
                    return Task::Idle;
                }
                self.notice = None;
                let path = self.library_path.clone();
                let key = self.begin_request(path);
                Task::Load { key, create: false }
            },
            LibraryMessage::ChooseAnother => {
                if self.is_busy() {
                    return Task::Idle;
                }
                self.screen = Screen::Setup;
                self.snapshot = None;
                self.notice = None;
                self.dump_bootstrap_preview = None;
                self.purge_dialog = None;
                self.verification = VerificationState::NotRun;
                self.reader = None;
                Task::Idle
            },
        }
    }
}

/// A library is opened exactly where one was found, and created exactly where none was and the
/// acknowledgement was given, both only while nothing runs.
pub proof fn law_libraries_are_opened_or_created(app: AppView)
    ensures
        ({
            let (after, task) = library_updated(app, LibraryMessage::Open);
            let path = trimmed(app.library_path);
            if app.active_request is None && app.path_status == PathStatus::ExistingLibrary {
                &&& task matches TaskView::Load { key, create } && !create && key.path == path
                    && after.active_request == Some(key) && after.notice is None
            } else {
                task is Idle && after == app
            }
        }),
        ({
            let (after, task) = library_updated(app, LibraryMessage::Create);
            let path = trimmed(app.library_path);
            if app.active_request is None && app.path_status == PathStatus::NewLibrary
                && app.privacy_acknowledged {
                &&& task matches TaskView::Load { key, create } && create && key.path == path
                    && after.active_request == Some(key) && after.notice is None
            } else {
                &&& task is Idle
                &&& after.active_request == app.active_request
                &&& app.active_request is None && app.path_status == PathStatus::NewLibrary ==> (
                after.notice matches Some(notice) && notice.kind == NoticeKind::Error)
            }
        }),
{
}

/// A changed path is looked at anew, and only the latest look at the shown path counts: what it
/// found is what is known.
pub proof fn law_only_the_latest_look_counts(
    app: AppView,
    path: String,
    key: RequestKey,
    result: Result<bool, String>,
)
    ensures
        app.active_request is None ==> {
            let (after, task) = library_updated(app, LibraryMessage::PathChanged(path));
            &&& after.library_path == path@
            &&& after.path_status == PathStatus::Checking
            &&& task matches TaskView::Probe(probe) && probe.path == trimmed(path@) && probe.id
                == after.latest_probe_id && probe.id == app.next_request_id
        },
        ({
            let (after, task) = library_updated(app, LibraryMessage::PathProbed { key, result });
            &&& task is Idle
            &&& key.id != app.latest_probe_id ==> after == app
            &&& key.id == app.latest_probe_id && key.path@ == trimmed(app.library_path)
                ==> match result {
                Ok(true) => after.path_status == PathStatus::ExistingLibrary,
                Ok(false) => after.path_status == PathStatus::NewLibrary,
                Err(message) => after.path_status == PathStatus::Unavailable(message),
            }
        }),
{
}

/// A library that was read for the running request is shown, at its own path; one that could
/// not be read leaves what was shown and tells why.
pub proof fn law_read_libraries_are_shown(
    app: AppView,
    key: RequestKey,
    result: Result<DashboardSnapshot, String>,
)
    requires
        app.active_request matches Some(active) && active.id == key.id && active.path == key.path@
            && key.path@ == trimmed(app.library_path),
    ensures
        ({
            let (after, task) = library_updated(
                app,
                LibraryMessage::Loaded(Loaded { key, result }),
            );
            &&& task is Idle
            &&& after.active_request is None
            &&& result matches Ok(snapshot) ==> after.snapshot == Some(snapshot)
                && after.library_path == snapshot.path@ && after.screen == Screen::Dashboard
                && after.notice is None && after.network_policy_editor.avoid_metered_networks
                == snapshot.network_policy@.avoid_metered_networks
            &&& result matches Err(message) ==> after.snapshot == app.snapshot && after.screen
                == app.screen && (after.notice matches Some(notice) && notice.message == message@
                && notice.kind == NoticeKind::Error)
        }),
{
}

/// Reading again keeps the path; choosing another library forgets the one that was shown, with
/// every preview, dialog and reader of it.
pub proof fn law_another_library_starts_afresh(app: AppView, tab: Tab, value: bool)
    ensures
        app.active_request is None ==> {
            let (after, task) = library_updated(app, LibraryMessage::Refresh);
            task matches TaskView::Load { key, create } && !create && key.path == app.library_path
                && after.active_request == Some(key)
        },
        app.active_request is None ==> {
            let (after, task) = library_updated(app, LibraryMessage::ChooseAnother);
            &&& task is Idle
            &&& after.screen == Screen::Setup && after.snapshot is None && after.notice is None
            &&& after.purge_dialog is None && after.dump_bootstrap_preview is None
            &&& after.verification is NotRun && after.reader is None
            &&& after.library_path == app.library_path
        },
        library_updated(app, LibraryMessage::SelectTab(tab)).0.tab == tab,
        library_updated(
            app,
            LibraryMessage::PrivacyAcknowledged(value),
        ).0.privacy_acknowledged == value,
{
}

} // verus!
