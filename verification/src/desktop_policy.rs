//! Schedules and the network policy in the desktop application.

use vstd::prelude::*;
use vstd::string::*;

use crate::desktop::{
    draws_number, is_current, is_idle, next_key, noticed, problem, released, requested, success,
    App, AppView, NoticeKind, RequestKey, Task, TaskView,
};
use crate::desktop_edit::schedule_of;
use crate::desktop_library::{showing, Loaded};
use crate::forms::{
    edited_schedule, stated_network, stated_schedule, NetworkEditorView, NetworkPolicyEditor,
    ScheduleEditor, ScheduleEditorView, ScheduleMode,
};
use crate::model::{CadenceView, CollectionId, ScheduleCadence};
use crate::snapshot::DashboardSnapshot;
use crate::stored::{CollectionSchedule, SettingsView};
use crate::text::{decimal, trimmed};

verus! {

/// One field of a schedule editor.
#[derive(Debug, PartialEq, Eq)]
pub enum ScheduleField {
    Mode(ScheduleMode),
    Value(String),
    Jitter(String),
    Paused(bool),
}

/// One field of the network policy editor.
#[derive(Debug, PartialEq, Eq)]
pub enum NetworkField {
    Concurrency(String),
    Rate(String),
    AvoidMetered(bool),
}

/// What concerns schedules and the network policy.
#[derive(Debug, PartialEq, Eq)]
pub enum PolicyMessage {
    EditSchedule(CollectionId),
    ScheduleChanged(ScheduleField),
    SaveSchedule,
    ScheduleSaved(Loaded),
    NetworkChanged(NetworkField),
    SaveNetworkPolicy,
    NetworkPolicySaved(Loaded),
}

/// A schedule editor with one changed field.
pub open spec fn rescheduled(editor: ScheduleEditorView, field: ScheduleField) -> ScheduleEditorView {
    match field {
        ScheduleField::Mode(mode) => ScheduleEditorView { mode, ..editor },
        ScheduleField::Value(value) => ScheduleEditorView { value: value@, ..editor },
        ScheduleField::Jitter(value) => ScheduleEditorView { jitter_minutes: value@, ..editor },
        ScheduleField::Paused(paused) => ScheduleEditorView { paused, ..editor },
    }
}

/// A network policy editor with one changed field.
pub open spec fn renetworked(editor: NetworkEditorView, field: NetworkField) -> NetworkEditorView {
    match field {
        NetworkField::Concurrency(value) => NetworkEditorView {
            max_concurrent_requests: value@,
            ..editor
        },
        NetworkField::Rate(value) => NetworkEditorView {
            max_download_bytes_per_second: value@,
            ..editor
        },
        NetworkField::AvoidMetered(value) => NetworkEditorView {
            avoid_metered_networks: value,
            ..editor
        },
    }
}

/// The schedule that a library shows of a collection; without one it is manual.
pub open spec fn shown_schedule(
    snapshot: Option<DashboardSnapshot>,
    collection_id: u64,
) -> SettingsView {
    match snapshot {
        Some(snapshot) => match schedule_of(snapshot.schedules@, collection_id, 0) {
            Some(schedule) => schedule.settings(),
            None => SettingsView { cadence: CadenceView::Manual, jitter_seconds: 0, paused: false },
        },
        None => SettingsView { cadence: CadenceView::Manual, jitter_seconds: 0, paused: false },
    }
}

/// How a message on a policy changes the application and what it asks for.
pub open spec fn policy_updated(app: AppView, message: PolicyMessage) -> (AppView, TaskView) {
    match message {
        PolicyMessage::EditSchedule(collection_id) => if !is_idle(app) {
            (app, TaskView::Idle)
        } else {
            (
                AppView {
                    schedule_editor: Some(
                        edited_schedule(
                            collection_id@,
                            shown_schedule(app.snapshot, collection_id@),
                        ),
                    ),
                    ..app
                },
                TaskView::Idle,
            )
        },
        PolicyMessage::ScheduleChanged(field) => match app.schedule_editor {
            Some(editor) => if !is_idle(app) {
                (app, TaskView::Idle)
            } else {
                (
                    AppView { schedule_editor: Some(rescheduled(editor, field)), ..app },
                    TaskView::Idle,
                )
            },
            None => (app, TaskView::Idle),
        },
        PolicyMessage::SaveSchedule => match app.schedule_editor {
            Some(editor) => if !is_idle(app) {
                (app, TaskView::Idle)
            } else {
                match stated_schedule(
                    editor.mode,
                    editor.value,
                    editor.jitter_minutes,
                    editor.paused,
                ) {
                    Err(message) => (noticed(app, problem(message)), TaskView::Idle),
                    Ok(schedule) => (
                        requested(noticed(app, None), app.library_path),
                        TaskView::SaveSchedule {
                            key: next_key(app, app.library_path),
                            collection_id: editor.collection_id,
                            schedule,
                        },
                    ),
                }
            },
            None => (app, TaskView::Idle),
        },
        PolicyMessage::ScheduleSaved(read) => if !is_current(app, read.key@) {
            (app, TaskView::Idle)
        } else {
            match read.result {
                Ok(snapshot) => (
                    AppView {
                        schedule_editor: None,
                        notice: success("Schedule saved."@),
                        ..showing(released(app), snapshot)
                    },
                    TaskView::Idle,
                ),
                Err(message) => (noticed(released(app), problem(message@)), TaskView::Idle),
            }
        },
        PolicyMessage::NetworkChanged(field) => if !is_idle(app) {
            (app, TaskView::Idle)
        } else {
            (
                AppView {
                    network_policy_editor: renetworked(app.network_policy_editor, field),
                    ..app
                },
                TaskView::Idle,
            )
        },
        PolicyMessage::SaveNetworkPolicy => if !is_idle(app) {
            (app, TaskView::Idle)
        } else {
            match stated_network(app.network_policy_editor) {
                Err(message) => (noticed(app, problem(message)), TaskView::Idle),
                Ok(policy) => (
                    requested(noticed(app, None), app.library_path),
                    TaskView::SaveNetworkPolicy { key: next_key(app, app.library_path), policy },
                ),
            }
        },
        PolicyMessage::NetworkPolicySaved(read) => if !is_current(app, read.key@) {
            (app, TaskView::Idle)
        } else {
            match read.result {
                Ok(snapshot) => (
                    noticed(
                        showing(released(app), snapshot),
                        success("Network transfer policy saved."@),
                    ),
                    TaskView::Idle,
                ),
                Err(message) => (noticed(released(app), problem(message@)), TaskView::Idle),
            }
        },
    }
}

impl ScheduleEditor {
    /// Takes one changed field.
    pub fn change(&mut self, field: ScheduleField)
        ensures
            final(self)@ == rescheduled(old(self)@, field),
    {
        match field {
            ScheduleField::Mode(mode) => {
                self.mode = mode;
            },
            ScheduleField::Value(value) => {
                self.value = value;
            },
            ScheduleField::Jitter(value) => {
                self.jitter_minutes = value;
            },
            ScheduleField::Paused(paused) => {
                self.paused = paused;
            },
        }
    }
}

impl NetworkPolicyEditor {
    /// Takes one changed field.
    pub fn change(&mut self, field: NetworkField)
        ensures
            final(self)@ == renetworked(old(self)@, field),
    {
        match field {
            NetworkField::Concurrency(value) => {
                self.max_concurrent_requests = value;
            },
            NetworkField::Rate(value) => {
                self.max_download_bytes_per_second = value;
            },
            NetworkField::AvoidMetered(value) => {
                self.avoid_metered_networks = value;
            },
        }
    }
}

impl App {
    fn edit_schedule(&mut self, collection_id: CollectionId)
        ensures
            final(self)@ == (AppView {
                schedule_editor: Some(
                    edited_schedule(
                        collection_id@,
                        shown_schedule(old(self)@.snapshot, collection_id@),
                    ),
                ),
                ..old(self)@
            }),
    {
        let found = match &self.snapshot {
            Some(snapshot) => snapshot.schedule(collection_id),
            None => None,
        };
        let schedule = match found {
            Some(schedule) => schedule,
            None => CollectionSchedule {
                collection_id,
                cadence: ScheduleCadence::Manual,
                jitter_seconds: 0,
                paused: false,
                next_run_at: None,
                last_started_at: None,
            },
        };
        self.schedule_editor = Some(ScheduleEditor::from_schedule(collection_id, schedule));
    }

    fn save_schedule(&mut self) -> (task: Task)
        requires
            draws_number(
                policy_updated(old(self)@, PolicyMessage::SaveSchedule).1,
            ) ==> old(self)@.next_request_id < u64::MAX,
        ensures
            (final(self)@, task@) == policy_updated(old(self)@, PolicyMessage::SaveSchedule),
    {
        if self.is_busy() {
            return Task::Idle;
        }
        let (stated, collection_id) = match &self.schedule_editor {
            Some(editor) => (editor.settings(), editor.collection_id),
            None => return Task::Idle,
        };
        match stated {
            Ok(schedule) => {
                self.notice = None;
                let path = self.library_path.clone();
                let key = self.begin_request(path);
                Task::SaveSchedule { key, collection_id, schedule }
            },
            Err(message) => {
                self.report(message);
                Task::Idle
            },
        }
    }

    fn save_network_policy(&mut self) -> (task: Task)
        requires
            draws_number(
                policy_updated(old(self)@, PolicyMessage::SaveNetworkPolicy).1,
            ) ==> old(self)@.next_request_id < u64::MAX,
        ensures
            (final(self)@, task@) == policy_updated(old(self)@, PolicyMessage::SaveNetworkPolicy),
    {
        if self.is_busy() {
            return Task::Idle;
        }
        match self.network_policy_editor.policy() {
            Ok(policy) => {
                self.notice = None;
                let path = self.library_path.clone();
                let key = self.begin_request(path);
                Task::SaveNetworkPolicy { key, policy }
            },
            Err(message) => {
                self.report(message);
                Task::Idle
            },
        }
    }

    /// Takes a message on a policy.
    #[verifier::rlimit(40)]
    pub fn update_policy(&mut self, message: PolicyMessage) -> (task: Task)
        requires
            draws_number(
                policy_updated(old(self)@, message).1,
            ) ==> old(self)@.next_request_id < u64::MAX,
        ensures
            (final(self)@, task@) == policy_updated(old(self)@, message),
    {
        match message {
            PolicyMessage::EditSchedule(collection_id) => {
                if !self.is_busy() {
                    self.edit_schedule(collection_id);
                }
                Task::Idle
            },
            PolicyMessage::ScheduleChanged(field) => {
                if self.is_busy() {
                    return Task::Idle;
                }
                match self.schedule_editor.take() {
                    Some(editor) => {
                        let mut editor = editor;
                        editor.change(field);
                        self.schedule_editor = Some(editor);
                    },
                    None => {},
                }
                Task::Idle
            },
            PolicyMessage::SaveSchedule => self.save_schedule(),
            PolicyMessage::ScheduleSaved(read) => {
                if !self.finish_request(&read.key) {
                    return Task::Idle;
                }
                match read.result {
                    Ok(snapshot) => {
                        self.show(snapshot);
                        self.schedule_editor = None;
                        self.confirm("Schedule saved.");
                    },
                    Err(message) => self.report(message),
                }
                Task::Idle
            },
            PolicyMessage::NetworkChanged(field) => {
                if !self.is_busy() {
                    self.network_policy_editor.change(field);
                }
                Task::Idle
            },
            PolicyMessage::SaveNetworkPolicy => self.save_network_policy(),
            PolicyMessage::NetworkPolicySaved(read) => {
                if !self.finish_request(&read.key) {
                    return Task::Idle;
                }
                match read.result {
                    Ok(snapshot) => {
                        self.show(snapshot);
                        self.confirm("Network transfer policy saved.");
                    },
                    Err(message) => self.report(message),
                }
                Task::Idle
            },
        }
    }
}

/// A change of one field of a schedule sets that field and leaves every other one.
pub proof fn law_each_schedule_field_changes_itself_alone(form: ScheduleEditorView, field: ScheduleField)
    ensures
        ({
            let after = rescheduled(form, field);
            &&& field matches ScheduleField::Mode(value) ==> after.mode == value
            &&& !(field is Mode) ==> after.mode == form.mode
            &&& field matches ScheduleField::Value(value) ==> after.value == value@
            &&& !(field is Value) ==> after.value == form.value
            &&& field matches ScheduleField::Jitter(value) ==> after.jitter_minutes == value@
            &&& !(field is Jitter) ==> after.jitter_minutes == form.jitter_minutes
            &&& field matches ScheduleField::Paused(value) ==> after.paused == value
            &&& !(field is Paused) ==> after.paused == form.paused
        }),
{
}

/// A change of one field of a network policy sets that field and leaves every other one.
pub proof fn law_each_network_field_changes_itself_alone(form: NetworkEditorView, field: NetworkField)
    ensures
        ({
            let after = renetworked(form, field);
            &&& field matches NetworkField::Concurrency(value) ==> after.max_concurrent_requests == value@
            &&& !(field is Concurrency) ==> after.max_concurrent_requests == form.max_concurrent_requests
            &&& field matches NetworkField::Rate(value) ==> after.max_download_bytes_per_second == value@
            &&& !(field is Rate) ==> after.max_download_bytes_per_second == form.max_download_bytes_per_second
            &&& field matches NetworkField::AvoidMetered(value) ==> after.avoid_metered_networks == value
            &&& !(field is AvoidMetered) ==> after.avoid_metered_networks == form.avoid_metered_networks
        }),
{
}

/// A schedule is saved for the collection whose editor is open, exactly as the editor states it.
pub proof fn law_schedules_are_saved_as_stated(app: AppView)
    requires
        app.active_request is None,
    ensures
        ({
            let (after, task) = policy_updated(app, PolicyMessage::SaveSchedule);
            match app.schedule_editor {
                None => task is Idle && after == app,
                Some(editor) => match stated_schedule(
                    editor.mode,
                    editor.value,
                    editor.jitter_minutes,
                    editor.paused,
                ) {
                    Ok(stated) => task matches TaskView::SaveSchedule { key, collection_id, schedule }
                        && collection_id == editor.collection_id && schedule == stated && key.path
                        == app.library_path && after.active_request == Some(key),
                    Err(message) => task is Idle && (after.notice matches Some(notice)
                        && notice.message == message && notice.kind == NoticeKind::Error),
                },
            }
        }),
        ({
            let (after, task) = policy_updated(app, PolicyMessage::SaveNetworkPolicy);
            match stated_network(app.network_policy_editor) {
                Ok(stated) => task matches TaskView::SaveNetworkPolicy { key, policy } && policy
                    == stated && key.path == app.library_path && after.active_request == Some(key),
                Err(message) => task is Idle && (after.notice matches Some(notice)
                    && notice.message == message && notice.kind == NoticeKind::Error),
            }
        }),
{
}

/// An opened schedule editor is of the chosen collection; a collection without a schedule is
/// shown as a manual one.
pub proof fn law_schedule_editors_open_their_own(app: AppView, collection_id: CollectionId)
    requires
        app.active_request is None,
    ensures
        policy_updated(
            app,
            PolicyMessage::EditSchedule(collection_id),
        ).0.schedule_editor matches Some(editor) && editor.collection_id == collection_id@ && (
        app.snapshot is None ==> editor.mode == ScheduleMode::Manual && !editor.paused) && (
        app.snapshot matches Some(snapshot) ==> (schedule_of(
            snapshot.schedules@,
            collection_id@,
            0,
        ) matches Some(schedule) ==> editor.paused == schedule.paused && (editor.mode
            == ScheduleMode::Manual <==> schedule.cadence is Manual) && (editor.mode
            == ScheduleMode::Interval <==> schedule.cadence is Interval))),
{
}

/// A saved schedule closes its editor and a saved policy is shown as it is stored; a failure
/// keeps both open and tells why.
pub proof fn law_saved_policies_are_shown(
    app: AppView,
    key: RequestKey,
    result: Result<DashboardSnapshot, String>,
)
    requires
        app.active_request matches Some(active) && active.id == key.id && active.path == key.path@
            && key.path@ == trimmed(app.library_path),
    ensures
        ({
            let after = policy_updated(
                app,
                PolicyMessage::ScheduleSaved(Loaded { key, result }),
            ).0;
            &&& after.active_request is None
            &&& result matches Ok(snapshot) ==> after.schedule_editor is None && after.snapshot
                == Some(snapshot) && (after.notice matches Some(notice) && notice.kind
                == NoticeKind::Success)
            &&& result matches Err(message) ==> after.schedule_editor == app.schedule_editor
                && after.snapshot == app.snapshot && (after.notice matches Some(notice)
                && notice.message == message@ && notice.kind == NoticeKind::Error)
        }),
        ({
            let after = policy_updated(
                app,
                PolicyMessage::NetworkPolicySaved(Loaded { key, result }),
            ).0;
            &&& after.active_request is None
            &&& result matches Ok(snapshot) ==> after.snapshot == Some(snapshot)
                && after.network_policy_editor.avoid_metered_networks
                == snapshot.network_policy@.avoid_metered_networks
                && after.network_policy_editor.max_concurrent_requests == decimal(
                snapshot.network_policy@.max_concurrent_requests as nat,
            )
            &&& result matches Err(message) ==> after.network_policy_editor
                == app.network_policy_editor && (after.notice matches Some(notice)
                && notice.message == message@ && notice.kind == NoticeKind::Error)
        }),
{
}

/// A collection without a stored schedule is shown as synchronized by hand, without a delay and
/// not paused; a stored schedule is shown as stored.
pub proof fn law_unscheduled_collections_run_by_hand(
    snapshot: Option<DashboardSnapshot>,
    collection_id: u64,
)
    ensures
        ({
            let stored = match snapshot {
                Some(snapshot) => schedule_of(snapshot.schedules@, collection_id, 0),
                None => None,
            };
            let shown = shown_schedule(snapshot, collection_id);
            &&& stored is None ==> shown.cadence is Manual && shown.jitter_seconds == 0
                && !shown.paused
            &&& stored matches Some(schedule) ==> shown == schedule.settings()
        }),
{
}

} // verus!
