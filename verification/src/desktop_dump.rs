//! The bootstrap from a current dump in the desktop application.

use vstd::prelude::*;
use vstd::string::*;

use crate::desktop::{
    draws_number, is_current, is_idle, next_key, noticed, problem, released, requested, success,
    App, AppView, NoticeKind, RequestKey, Task, TaskView,
};
use crate::desktop_library::{showing, Loaded};
use crate::dump_form::{DumpBootstrapForm, DumpBootstrapPreview, DumpFormView};
use crate::snapshot::DashboardSnapshot;
use crate::text::trimmed;

verus! {

/// One field of the bootstrap form.
#[derive(Debug, PartialEq, Eq)]
pub enum DumpField {
    Collection(String),
    IndexUrl(String),
    IndexDigest(String),
    ExpectedDatabase(String),
    MaxIndexBytes(String),
    MaxArtifactBytes(String),
    MaxTotalArtifactBytes(String),
    MaxArtifacts(String),
    MaxElapsedSeconds(String),
    MaxCompressedBytes(String),
    MaxDecompressedBytes(String),
    MaxPages(String),
    MaxPageXmlBytes(String),
    MaxTextBytes(String),
}

/// What concerns the bootstrap from a current dump.
#[derive(Debug, PartialEq, Eq)]
pub enum DumpMessage {
    FieldChanged(DumpField),
    Preview,
    Previewed { key: RequestKey, result: Result<DumpBootstrapPreview, String> },
    Start,
    Finished(Loaded),
}

/// A bootstrap form with one changed field.
pub open spec fn dump_form_with(form: DumpFormView, field: DumpField) -> DumpFormView {
    match field {
        DumpField::Collection(value) => DumpFormView { collection_id: value@, ..form },
        DumpField::IndexUrl(value) => DumpFormView { trusted_index_url: value@, ..form },
        DumpField::IndexDigest(value) => DumpFormView { trusted_index_digest: value@, ..form },
        DumpField::ExpectedDatabase(value) => DumpFormView { expected_database: value@, ..form },
        DumpField::MaxIndexBytes(value) => DumpFormView { max_index_bytes: value@, ..form },
        DumpField::MaxArtifactBytes(value) => DumpFormView { max_artifact_bytes: value@, ..form },
        DumpField::MaxTotalArtifactBytes(value) => DumpFormView {
            max_total_artifact_bytes: value@,
            ..form
        },
        DumpField::MaxArtifacts(value) => DumpFormView { max_artifacts: value@, ..form },
        DumpField::MaxElapsedSeconds(value) => DumpFormView { max_elapsed_seconds: value@, ..form },
        DumpField::MaxCompressedBytes(value) => DumpFormView {
            max_compressed_bytes: value@,
            ..form
        },
        DumpField::MaxDecompressedBytes(value) => DumpFormView {
            max_decompressed_bytes: value@,
            ..form
        },
        DumpField::MaxPages(value) => DumpFormView { max_pages: value@, ..form },
        DumpField::MaxPageXmlBytes(value) => DumpFormView { max_page_xml_bytes: value@, ..form },
        DumpField::MaxTextBytes(value) => DumpFormView { max_text_bytes: value@, ..form },
    }
}

/// How a message on a bootstrap changes the application and what it asks for.
pub open spec fn dump_updated(app: AppView, message: DumpMessage) -> (AppView, TaskView) {
    match message {
        DumpMessage::FieldChanged(field) => if !is_idle(app) {
            (app, TaskView::Idle)
        } else {
            (
                AppView {
                    dump_bootstrap_form: dump_form_with(app.dump_bootstrap_form, field),
                    dump_bootstrap_preview: None,
                    ..app
                },
                TaskView::Idle,
            )
        },
        DumpMessage::Preview => if !is_idle(app) {
            (app, TaskView::Idle)
        } else {
            (
                requested(noticed(app, None), app.library_path),
                TaskView::PreviewDump {
                    key: next_key(app, app.library_path),
                    form: app.dump_bootstrap_form,
                },
            )
        },
        DumpMessage::Previewed { key, result } => if !is_current(app, key@) {
            (app, TaskView::Idle)
        } else {
            match result {
                Ok(preview) => (
                    AppView {
                        dump_bootstrap_preview: Some(preview@),
                        notice: success(
                            "Dump bootstrap preview is ready. Confirm the independent trust identity, scope, limits, and hard budgets before starting."@,
                        ),
                        ..released(app)
                    },
                    TaskView::Idle,
                ),
                Err(message) => (noticed(released(app), problem(message@)), TaskView::Idle),
            }
        },
        DumpMessage::Start => if !is_idle(app) {
            (app, TaskView::Idle)
        } else {
            match app.dump_bootstrap_preview {
                None => (
                    noticed(
                        app,
                        problem("Preview the authenticated dump bootstrap before starting it."@),
                    ),
                    TaskView::Idle,
                ),
                Some(preview) => (
                    requested(noticed(app, None), app.library_path),
                    TaskView::StartDump { key: next_key(app, app.library_path), preview },
                ),
            }
        },
        DumpMessage::Finished(read) => if !is_current(app, read.key@) {
            (app, TaskView::Idle)
        } else {
            match read.result {
                Ok(snapshot) => (
                    AppView {
                        dump_bootstrap_preview: None,
                        notice: success(
                            "Authenticated current-dump bootstrap completed. Its durable import status and checkpoint are shown below."@,
                        ),
                        ..showing(released(app), snapshot)
                    },
                    TaskView::Idle,
                ),
                Err(message) => (noticed(released(app), problem(message@)), TaskView::Idle),
            }
        },
    }
}

impl DumpBootstrapForm {
    /// Takes one changed field.
    pub fn change(&mut self, field: DumpField)
        ensures
            final(self)@ == dump_form_with(old(self)@, field),
    {
        match field {
            DumpField::Collection(value) => {
                self.collection_id = value;
            },
            DumpField::IndexUrl(value) => {
                self.trusted_index_url = value;
            },
            DumpField::IndexDigest(value) => {
                self.trusted_index_digest = value;
            },
            DumpField::ExpectedDatabase(value) => {
                self.expected_database = value;
            },
            DumpField::MaxIndexBytes(value) => {
                self.max_index_bytes = value;
            },
            DumpField::MaxArtifactBytes(value) => {
                self.max_artifact_bytes = value;
            },
            DumpField::MaxTotalArtifactBytes(value) => {
                self.max_total_artifact_bytes = value;
            },
            DumpField::MaxArtifacts(value) => {
                self.max_artifacts = value;
            },
            DumpField::MaxElapsedSeconds(value) => {
                self.max_elapsed_seconds = value;
            },
            DumpField::MaxCompressedBytes(value) => {
                self.max_compressed_bytes = value;
            },
            DumpField::MaxDecompressedBytes(value) => {
                self.max_decompressed_bytes = value;
            },
            DumpField::MaxPages(value) => {
                self.max_pages = value;
            },
            DumpField::MaxPageXmlBytes(value) => {
                self.max_page_xml_bytes = value;
            },
            DumpField::MaxTextBytes(value) => {
                self.max_text_bytes = value;
            },
        }
    }
}

impl App {
    fn start_dump(&mut self) -> (task: Task)
        requires
            draws_number(
                dump_updated(old(self)@, DumpMessage::Start).1,
            ) ==> old(self)@.next_request_id < u64::MAX,
        ensures
            (final(self)@, task@) == dump_updated(old(self)@, DumpMessage::Start),
    {
        if self.is_busy() {
            return Task::Idle;
        }
        let preview = match &self.dump_bootstrap_preview {
            Some(preview) => preview.clone(),
            None => {
                self.report(
                    "Preview the authenticated dump bootstrap before starting it.".to_owned(),
                );
                return Task::Idle;
            },
        };
        self.notice = None;
        let path = self.library_path.clone();
        let key = self.begin_request(path);
        Task::StartDump { key, preview }
    }

    /// Takes a message on a bootstrap.
    pub fn update_dump(&mut self, message: DumpMessage) -> (task: Task)
        requires
            draws_number(
                dump_updated(old(self)@, message).1,
            ) ==> old(self)@.next_request_id < u64::MAX,
        ensures
            (final(self)@, task@) == dump_updated(old(self)@, message),
    {
        match message {
            DumpMessage::FieldChanged(field) => {
                if !self.is_busy() {
                    self.dump_bootstrap_form.change(field);
                    self.dump_bootstrap_preview = None;
                }
                Task::Idle
            },
            DumpMessage::Preview => {
                if self.is_busy() {
                    return Task::Idle;
                }
                self.notice = None;
                let path = self.library_path.clone();
                let key = self.begin_request(path);
                Task::PreviewDump { key, form: self.dump_bootstrap_form.clone() }
            },
            DumpMessage::Previewed { key, result } => {
                if !self.finish_request(&key) {
                    return Task::Idle;
                }
                match result {
                    Ok(preview) => {
                        self.dump_bootstrap_preview = Some(preview);
                        self.confirm(
                            "Dump bootstrap preview is ready. Confirm the independent trust identity, scope, limits, and hard budgets before starting.",
                        );
                    },
                    Err(message) => self.report(message),
                }
                Task::Idle
            },
            DumpMessage::Start => self.start_dump(),
            DumpMessage::Finished(read) => {
                if !self.finish_request(&read.key) {
                    return Task::Idle;
                }
                match read.result {
                    Ok(snapshot) => {
                        self.show(snapshot);
                        self.dump_bootstrap_preview = None;
                        self.confirm(
                            "Authenticated current-dump bootstrap completed. Its durable import status and checkpoint are shown below.",
                        );
                    },
                    Err(message) => self.report(message),
                }
                Task::Idle
            },
        }
    }
}

/// A change of one field of a bootstrap form sets that field and leaves every other one.
pub proof fn law_each_dump_field_changes_itself_alone(form: DumpFormView, field: DumpField)
    ensures
        ({
            let after = dump_form_with(form, field);
            &&& field matches DumpField::Collection(value) ==> after.collection_id == value@
            &&& !(field is Collection) ==> after.collection_id == form.collection_id
            &&& field matches DumpField::IndexUrl(value) ==> after.trusted_index_url == value@
            &&& !(field is IndexUrl) ==> after.trusted_index_url == form.trusted_index_url
            &&& field matches DumpField::IndexDigest(value) ==> after.trusted_index_digest == value@
            &&& !(field is IndexDigest) ==> after.trusted_index_digest == form.trusted_index_digest
            &&& field matches DumpField::ExpectedDatabase(value) ==> after.expected_database == value@
            &&& !(field is ExpectedDatabase) ==> after.expected_database == form.expected_database
            &&& field matches DumpField::MaxIndexBytes(value) ==> after.max_index_bytes == value@
            &&& !(field is MaxIndexBytes) ==> after.max_index_bytes == form.max_index_bytes
            &&& field matches DumpField::MaxArtifactBytes(value) ==> after.max_artifact_bytes == value@
            &&& !(field is MaxArtifactBytes) ==> after.max_artifact_bytes == form.max_artifact_bytes
            &&& field matches DumpField::MaxTotalArtifactBytes(value) ==> after.max_total_artifact_bytes == value@
            &&& !(field is MaxTotalArtifactBytes) ==> after.max_total_artifact_bytes == form.max_total_artifact_bytes
            &&& field matches DumpField::MaxArtifacts(value) ==> after.max_artifacts == value@
            &&& !(field is MaxArtifacts) ==> after.max_artifacts == form.max_artifacts
            &&& field matches DumpField::MaxElapsedSeconds(value) ==> after.max_elapsed_seconds == value@
            &&& !(field is MaxElapsedSeconds) ==> after.max_elapsed_seconds == form.max_elapsed_seconds
            &&& field matches DumpField::MaxCompressedBytes(value) ==> after.max_compressed_bytes == value@
            &&& !(field is MaxCompressedBytes) ==> after.max_compressed_bytes == form.max_compressed_bytes
            &&& field matches DumpField::MaxDecompressedBytes(value) ==> after.max_decompressed_bytes == value@
            &&& !(field is MaxDecompressedBytes) ==> after.max_decompressed_bytes == form.max_decompressed_bytes
            &&& field matches DumpField::MaxPages(value) ==> after.max_pages == value@
            &&& !(field is MaxPages) ==> after.max_pages == form.max_pages
            &&& field matches DumpField::MaxPageXmlBytes(value) ==> after.max_page_xml_bytes == value@
            &&& !(field is MaxPageXmlBytes) ==> after.max_page_xml_bytes == form.max_page_xml_bytes
            &&& field matches DumpField::MaxTextBytes(value) ==> after.max_text_bytes == value@
            &&& !(field is MaxTextBytes) ==> after.max_text_bytes == form.max_text_bytes
        }),
{
}

/// Any change of the form drops the preview, so that only what is shown can be started.
pub proof fn law_bootstraps_start_as_previewed(app: AppView, field: DumpField)
    requires
        app.active_request is None,
    ensures
        ({
            let after = dump_updated(app, DumpMessage::FieldChanged(field)).0;
            after.dump_bootstrap_preview is None && after.dump_bootstrap_form == dump_form_with(
                app.dump_bootstrap_form,
                field,
            )
        }),
        dump_updated(app, DumpMessage::Preview).1 matches TaskView::PreviewDump { key, form } && form
            == app.dump_bootstrap_form && key.path == app.library_path,
        ({
            let (after, task) = dump_updated(app, DumpMessage::Start);
            match app.dump_bootstrap_preview {
                Some(shown) => task matches TaskView::StartDump { key, preview } && preview == shown
                    && key.path == app.library_path && after.active_request == Some(key),
                None => task is Idle && after.active_request is None && (
                after.notice matches Some(notice) && notice.kind == NoticeKind::Error),
            }
        }),
{
}

/// A finished preview is kept for the start, and a finished bootstrap uses it up; a failure of
/// either keeps what there was and tells why.
pub proof fn law_finished_bootstraps_use_up_their_preview(
    app: AppView,
    key: RequestKey,
    preview: Result<DumpBootstrapPreview, String>,
    result: Result<DashboardSnapshot, String>,
)
    requires
        app.active_request matches Some(active) && active.id == key.id && active.path == key.path@
            && key.path@ == trimmed(app.library_path),
    ensures
        ({
            let after = dump_updated(app, DumpMessage::Previewed { key, result: preview }).0;
            &&& after.active_request is None
            &&& preview matches Ok(preview) ==> after.dump_bootstrap_preview == Some(preview@)
            &&& preview matches Err(message) ==> after.dump_bootstrap_preview
                == app.dump_bootstrap_preview && (after.notice matches Some(notice)
                && notice.message == message@ && notice.kind == NoticeKind::Error)
        }),
        ({
            let after = dump_updated(app, DumpMessage::Finished(Loaded { key, result })).0;
            &&& after.active_request is None
            &&& result matches Ok(snapshot) ==> after.dump_bootstrap_preview is None
                && after.snapshot == Some(snapshot) && (after.notice matches Some(notice)
                && notice.kind == NoticeKind::Success)
            &&& result matches Err(message) ==> after.dump_bootstrap_preview
                == app.dump_bootstrap_preview && after.snapshot == app.snapshot && (
            after.notice matches Some(notice) && notice.message == message@ && notice.kind
                == NoticeKind::Error)
        }),
{
}

} // verus!
