//! Purging the payloads of a collection from the desktop application.

use vstd::prelude::*;
use vstd::string::*;

use crate::desktop::{
    draws_number, is_current, is_idle, next_key, noticed, problem, released, requested, success,
    App, AppView, NoticeKind, RequestKey, Task, TaskView,
};
use crate::model::CollectionId;
use crate::purge::{CollectionPurgeOutcome, PurgeRequestView};
use crate::purge_dialog::{
    outcome_summary, purge_confirmation, purge_outcome_summary, CollectionPurgeDialog,
    PurgeDialogView, PurgePreview,
};
use crate::snapshot::DashboardSnapshot;
use crate::text::trimmed;

verus! {

/// One answer in a purge dialog.
#[derive(Debug, PartialEq, Eq)]
pub enum PurgeField {
    Name(String),
    Fingerprint(String),
    PayloadOnly(bool),
    ExternalCopies(bool),
}

/// What concerns the purge of a collection.
#[derive(Debug, PartialEq, Eq)]
pub enum PurgeMessage {
    Open(CollectionId),
    Refresh,
    Previewed { key: RequestKey, result: Result<PurgePreview, String> },
    FieldChanged(PurgeField),
    Cancel,
    Confirm,
    Purged { key: RequestKey, result: Result<(DashboardSnapshot, CollectionPurgeOutcome), String> },
}

/// A dialog with one changed answer.
pub open spec fn answered(dialog: PurgeDialogView, field: PurgeField) -> PurgeDialogView {
    match field {
        PurgeField::Name(name) => PurgeDialogView { typed_name: name@, ..dialog },
        PurgeField::Fingerprint(fingerprint) => PurgeDialogView {
            typed_fingerprint: fingerprint@,
            ..dialog
        },
        PurgeField::PayloadOnly(value) => PurgeDialogView {
            payload_only_acknowledged: value,
            ..dialog
        },
        PurgeField::ExternalCopies(value) => PurgeDialogView {
            external_copies_acknowledged: value,
            ..dialog
        },
    }
}

/// A dialog without answers, with or without a preview.
pub open spec fn fresh_dialog(collection_id: u64, preview: Option<PurgePreview>) -> PurgeDialogView {
    PurgeDialogView {
        collection_id,
        preview,
        typed_name: Seq::empty(),
        typed_fingerprint: Seq::empty(),
        payload_only_acknowledged: false,
        external_copies_acknowledged: false,
    }
}

/// The application after a preview of a purge arrived.
pub open spec fn purge_previewed(app: AppView, preview: PurgePreview) -> AppView {
    match app.purge_dialog {
        Some(dialog) => if dialog.collection_id == preview.collection_id@ {
            AppView {
                purge_dialog: Some(fresh_dialog(dialog.collection_id, Some(preview))),
                ..app
            }
        } else {
            app
        },
        None => app,
    }
}

/// The request that a dialog authorizes, where there is one.
pub open spec fn dialog_confirmation(dialog: Option<PurgeDialogView>) -> Option<PurgeRequestView> {
    match dialog {
        Some(dialog) => purge_confirmation(dialog),
        None => None,
    }
}

/// How a message on a purge changes the application and what it asks for.
pub open spec fn purge_updated(app: AppView, message: PurgeMessage) -> (AppView, TaskView) {
    match message {
        PurgeMessage::Open(collection_id) => if !is_idle(app) {
            (app, TaskView::Idle)
        } else {
            (
                requested(
                    AppView {
                        remove_confirmation: None,
                        collection_editor: None,
                        schedule_editor: None,
                        notice: None,
                        purge_dialog: Some(fresh_dialog(collection_id@, None)),
                        ..app
                    },
                    app.library_path,
                ),
                TaskView::PreviewPurge {
                    key: next_key(app, app.library_path),
                    collection_id: collection_id@,
                },
            )
        },
        PurgeMessage::Refresh => match app.purge_dialog {
            Some(dialog) => if !is_idle(app) {
                (app, TaskView::Idle)
            } else {
                (
                    requested(
                        AppView {
                            notice: None,
                            purge_dialog: Some(fresh_dialog(dialog.collection_id, None)),
                            ..app
                        },
                        app.library_path,
                    ),
                    TaskView::PreviewPurge {
                        key: next_key(app, app.library_path),
                        collection_id: dialog.collection_id,
                    },
                )
            },
            None => (app, TaskView::Idle),
        },
        PurgeMessage::Previewed { key, result } => if !is_current(app, key@) {
            (app, TaskView::Idle)
        } else {
            match result {
                Ok(preview) => (purge_previewed(released(app), preview), TaskView::Idle),
                Err(message) => (noticed(released(app), problem(message@)), TaskView::Idle),
            }
        },
        PurgeMessage::FieldChanged(field) => match app.purge_dialog {
            Some(dialog) => if !is_idle(app) {
                (app, TaskView::Idle)
            } else {
                (AppView { purge_dialog: Some(answered(dialog, field)), ..app }, TaskView::Idle)
            },
            None => (app, TaskView::Idle),
        },
        PurgeMessage::Cancel => if !is_idle(app) {
            (app, TaskView::Idle)
        } else {
            (AppView { purge_dialog: None, ..app }, TaskView::Idle)
        },
        PurgeMessage::Confirm => if !is_idle(app) {
            (app, TaskView::Idle)
        } else {
            match dialog_confirmation(app.purge_dialog) {
                None => (
                    noticed(
                        app,
                        problem(
                            "The exact name, exact fingerprint, and both acknowledgements are required."@,
                        ),
                    ),
                    TaskView::Idle,
                ),
                Some(request) => (
                    requested(noticed(app, None), app.library_path),
                    TaskView::Purge { key: next_key(app, app.library_path), request },
                ),
            }
        },
        PurgeMessage::Purged { key, result } => if !is_current(app, key@) {
            (app, TaskView::Idle)
        } else {
            match result {
                Ok((snapshot, outcome)) => (
                    AppView {
                        snapshot: Some(snapshot),
                        purge_dialog: None,
                        notice: success(outcome_summary(outcome)),
                        ..released(app)
                    },
                    TaskView::Idle,
                ),
                Err(message) => (noticed(released(app), problem(message@)), TaskView::Idle),
            }
        },
    }
}

impl CollectionPurgeDialog {
    /// Takes one answer.
    pub fn answer(&mut self, field: PurgeField)
        ensures
            final(self)@ == answered(old(self)@, field),
    {
        match field {
            PurgeField::Name(name) => {
                self.typed_name = name;
            },
            PurgeField::Fingerprint(fingerprint) => {
                self.typed_fingerprint = fingerprint;
            },
            PurgeField::PayloadOnly(value) => {
                self.payload_only_acknowledged = value;
            },
            PurgeField::ExternalCopies(value) => {
                self.external_copies_acknowledged = value;
            },
        }
    }
}

impl App {
    fn open_purge(&mut self, collection_id: CollectionId) -> (task: Task)
        requires
            draws_number(
                purge_updated(old(self)@, PurgeMessage::Open(collection_id)).1,
            ) ==> old(self)@.next_request_id < u64::MAX,
        ensures
            (final(self)@, task@) == purge_updated(old(self)@, PurgeMessage::Open(collection_id)),
    {
        if self.is_busy() {
            return Task::Idle;
        }
        self.remove_confirmation = None;
        self.collection_editor = None;
        self.schedule_editor = None;
        self.notice = None;
        self.purge_dialog = Some(CollectionPurgeDialog::new(collection_id));
        let path = self.library_path.clone();
        let key = self.begin_request(path);
        Task::PreviewPurge { key, collection_id }
    }

    fn refresh_purge(&mut self) -> (task: Task)
        requires
            draws_number(
                purge_updated(old(self)@, PurgeMessage::Refresh).1,
            ) ==> old(self)@.next_request_id < u64::MAX,
        ensures
            (final(self)@, task@) == purge_updated(old(self)@, PurgeMessage::Refresh),
    {
        if self.is_busy() {
            return Task::Idle;
        }
        let collection_id = match &self.purge_dialog {
            Some(dialog) => dialog.collection_id,
            None => return Task::Idle,
        };
        self.purge_dialog = Some(CollectionPurgeDialog::new(collection_id));
        self.notice = None;
        let path = self.library_path.clone();
        let key = self.begin_request(path);
        Task::PreviewPurge { key, collection_id }
    }

    fn install_purge_preview(&mut self, preview: PurgePreview)
        ensures
            final(self)@ == purge_previewed(old(self)@, preview),
    {
        match self.purge_dialog.take() {
            Some(dialog) => {
                let mut dialog = dialog;
                if dialog.collection_id.same(preview.collection_id) {
                    dialog.install_preview(preview);
                }
                self.purge_dialog = Some(dialog);
            },
            None => {},
        }
    }

    fn confirm_purge(&mut self) -> (task: Task)
        requires
            draws_number(
                purge_updated(old(self)@, PurgeMessage::Confirm).1,
            ) ==> old(self)@.next_request_id < u64::MAX,
        ensures
            (final(self)@, task@) == purge_updated(old(self)@, PurgeMessage::Confirm),
    {
        if self.is_busy() {
            return Task::Idle;
        }
        let request = match &self.purge_dialog {
            Some(dialog) => dialog.confirmed_request(),
            None => None,
        };
        match request {
            Some(request) => {
                self.notice = None;
                let path = self.library_path.clone();
                let key = self.begin_request(path);
                Task::Purge { key, request }
            },
            None => {
                self.report(
                    "The exact name, exact fingerprint, and both acknowledgements are required.".to_owned(),
                );
                Task::Idle
            },
        }
    }

    /// Takes a message on a purge.
    pub fn update_purge(&mut self, message: PurgeMessage) -> (task: Task)
        requires
            draws_number(
                purge_updated(old(self)@, message).1,
            ) ==> old(self)@.next_request_id < u64::MAX,
        ensures
            (final(self)@, task@) == purge_updated(old(self)@, message),
    {
        match message {
            PurgeMessage::Open(collection_id) => self.open_purge(collection_id),
            PurgeMessage::Refresh => self.refresh_purge(),
            PurgeMessage::Previewed { key, result } => {
                if !self.finish_request(&key) {
                    return Task::Idle;
                }
                match result {
                    Ok(preview) => self.install_purge_preview(preview),
                    Err(message) => self.report(message),
                }
                Task::Idle
            },
            PurgeMessage::FieldChanged(field) => {
                if self.is_busy() {
                    return Task::Idle;
                }
                match self.purge_dialog.take() {
                    Some(dialog) => {
                        let mut dialog = dialog;
                        dialog.answer(field);
                        self.purge_dialog = Some(dialog);
                    },
                    None => {},
                }
                Task::Idle
            },
            PurgeMessage::Cancel => {
                if !self.is_busy() {
                    self.purge_dialog = None;
                }
                Task::Idle
            },
            PurgeMessage::Confirm => self.confirm_purge(),
            PurgeMessage::Purged { key, result } => {
                if !self.finish_request(&key) {
                    return Task::Idle;
                }
                match result {
                    Ok((snapshot, outcome)) => {
                        let message = purge_outcome_summary(&outcome);
                        self.snapshot = Some(snapshot);
                        self.purge_dialog = None;
                        self.confirm(message.as_str());
                    },
                    Err(message) => self.report(message),
                }
                Task::Idle
            },
        }
    }
}

/// An answer in a purge dialog sets that answer and leaves every other one.
pub proof fn law_each_answer_changes_itself_alone(form: PurgeDialogView, field: PurgeField)
    ensures
        ({
            let after = answered(form, field);
            &&& field matches PurgeField::Name(value) ==> after.typed_name == value@
            &&& !(field is Name) ==> after.typed_name == form.typed_name
            &&& field matches PurgeField::Fingerprint(value) ==> after.typed_fingerprint == value@
            &&& !(field is Fingerprint) ==> after.typed_fingerprint == form.typed_fingerprint
            &&& field matches PurgeField::PayloadOnly(value) ==> after.payload_only_acknowledged == value
            &&& !(field is PayloadOnly) ==> after.payload_only_acknowledged == form.payload_only_acknowledged
            &&& field matches PurgeField::ExternalCopies(value) ==> after.external_copies_acknowledged == value
            &&& !(field is ExternalCopies) ==> after.external_copies_acknowledged == form.external_copies_acknowledged
        }),
{
}

/// A purge dialog opens for the chosen collection, without any answer and without a preview;
/// refreshing asks again for the same collection and forgets the answers.
pub proof fn law_purge_dialogs_start_unanswered(app: AppView, collection_id: CollectionId)
    requires
        app.active_request is None,
    ensures
        ({
            let (after, task) = purge_updated(app, PurgeMessage::Open(collection_id));
            &&& task matches TaskView::PreviewPurge { key, collection_id: asked } && asked
                == collection_id@ && after.active_request == Some(key)
            &&& after.purge_dialog matches Some(dialog) && dialog.collection_id == collection_id@
                && dialog.preview is None && dialog.typed_name.len() == 0
                && dialog.typed_fingerprint.len() == 0 && !dialog.payload_only_acknowledged
                && !dialog.external_copies_acknowledged
        }),
        app.purge_dialog matches Some(before) ==> {
            let (after, task) = purge_updated(app, PurgeMessage::Refresh);
            &&& task matches TaskView::PreviewPurge { key, collection_id: asked } && asked
                == before.collection_id
            &&& after.purge_dialog matches Some(dialog) && dialog.collection_id
                == before.collection_id && dialog.preview is None && dialog.typed_name.len() == 0
                && dialog.typed_fingerprint.len() == 0 && !dialog.payload_only_acknowledged
                && !dialog.external_copies_acknowledged
        },
        purge_updated(app, PurgeMessage::Cancel).0.purge_dialog is None,
        purge_updated(app, PurgeMessage::Cancel).1 is Idle,
{
}

/// A preview is taken only by the dialog of its own collection, and resets every answer; a
/// finished purge closes the dialog, a failed one leaves it.
pub proof fn law_purge_previews_reset_the_answers(
    app: AppView,
    key: RequestKey,
    preview: Result<PurgePreview, String>,
    result: Result<(DashboardSnapshot, CollectionPurgeOutcome), String>,
)
    requires
        app.active_request matches Some(active) && active.id == key.id && active.path == key.path@
            && key.path@ == trimmed(app.library_path),
    ensures
        ({
            let after = purge_updated(app, PurgeMessage::Previewed { key, result: preview }).0;
            &&& after.active_request is None
            &&& preview matches Ok(shown) ==> (app.purge_dialog matches Some(before) ==> if
                before.collection_id == shown.collection_id@ {
                after.purge_dialog matches Some(dialog) && dialog.preview == Some(shown)
                    && dialog.collection_id == before.collection_id && dialog.typed_name.len() == 0
                    && dialog.typed_fingerprint.len() == 0 && !dialog.payload_only_acknowledged
                    && !dialog.external_copies_acknowledged
            } else {
                after.purge_dialog == app.purge_dialog
            })
            &&& preview matches Err(message) ==> after.purge_dialog == app.purge_dialog && (
            after.notice matches Some(notice) && notice.message == message@ && notice.kind
                == NoticeKind::Error)
        }),
        ({
            let after = purge_updated(app, PurgeMessage::Purged { key, result }).0;
            &&& after.active_request is None
            &&& result matches Ok((snapshot, outcome)) ==> after.purge_dialog is None
                && after.snapshot == Some(snapshot) && (after.notice matches Some(notice)
                && notice.kind == NoticeKind::Success)
            &&& result matches Err(message) ==> after.purge_dialog == app.purge_dialog
                && after.snapshot == app.snapshot && (after.notice matches Some(notice)
                && notice.message == message@ && notice.kind == NoticeKind::Error)
        }),
{
}

/// A purge is asked for only with the exact name and fingerprint of the preview and both
/// acknowledgements, and only of the collection that was previewed.
pub proof fn law_purges_need_every_answer(app: AppView)
    requires
        app.active_request is None,
    ensures
        ({
            let (after, task) = purge_updated(app, PurgeMessage::Confirm);
            &&& task is Purge || task is Idle && (after.notice matches Some(notice) && notice.kind
                == NoticeKind::Error)
            &&& task matches TaskView::Purge { key, request } ==> (
            app.purge_dialog matches Some(dialog) && (dialog.preview matches Some(preview)
                && dialog.typed_name == preview.collection_name@ && dialog.typed_fingerprint
                == preview.fingerprint@ && dialog.payload_only_acknowledged
                && dialog.external_copies_acknowledged && request.collection_id
                == preview.collection_id@ && request.preview_fingerprint == preview.fingerprint@))
        }),
{
}

} // verus!
