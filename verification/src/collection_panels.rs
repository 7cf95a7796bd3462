//! What the desktop application shows of collections and of the forms that change them.

use vstd::prelude::*;
use vstd::string::*;

use crate::desktop::{is_idle, App, CollectionEditor, EditorView};
use crate::desktop_edit::{configuration_of, schedule_of};
use crate::forms::{
    image_policy_form_summary, schedule_value_hint, stated_images, FormView, ScheduleEditor,
    ScheduleEditorView, ScheduleMode, SelectionMode,
};
use crate::labels::{
    format_bytes, image_policy_summary, image_text, schedule_label, schedule_text, size_text,
};
use crate::model::{CollectionId, PreviewView};
use crate::purge_dialog::{purge_shown, PurgePanel};
use crate::snapshot::DashboardSnapshot;
use crate::stored::{CollectionSchedule, StoredCollection, StoredCollectionConfiguration};
use crate::text::{
    decimal, decimal_text, holds_text, is_white_space_spec, law_only_white_space_trims_to_nothing,
    lemma_holds_text, trim, trimmed,
};

verus! {

/// A tracked collection in the list.
#[derive(Debug, PartialEq, Eq)]
pub struct CollectionRow {
    pub collection_id: CollectionId,
    pub name: String,
    pub identity: String,
    pub schedule: String,
    pub images: String,
    pub pages: String,
    /// Whether it can be updated, edited, scheduled and stopped.
    pub enabled: bool,
}

/// Plain view of a tracked collection in the list.
pub struct RowView {
    pub collection_id: u64,
    pub name: Seq<char>,
    pub identity: Seq<char>,
    pub schedule: Seq<char>,
    pub images: Seq<char>,
    pub pages: Seq<char>,
    pub enabled: bool,
}

impl View for CollectionRow {
    type V = RowView;

    open spec fn view(&self) -> RowView {
        RowView {
            collection_id: self.collection_id@,
            name: self.name@,
            identity: self.identity@,
            schedule: self.schedule@,
            images: self.images@,
            pages: self.pages@,
            enabled: self.enabled,
        }
    }
}

/// A stopped collection in the list.
#[derive(Debug, PartialEq, Eq)]
pub struct StoppedRow {
    pub collection_id: CollectionId,
    pub name: String,
    pub identity: String,
    /// Whether the purge of its payloads can be previewed.
    pub enabled: bool,
}

/// Plain view of a stopped collection in the list.
pub struct StoppedView {
    pub collection_id: u64,
    pub name: Seq<char>,
    pub identity: Seq<char>,
    pub enabled: bool,
}

impl View for StoppedRow {
    type V = StoppedView;

    open spec fn view(&self) -> StoppedView {
        StoppedView {
            collection_id: self.collection_id@,
            name: self.name@,
            identity: self.identity@,
            enabled: self.enabled,
        }
    }
}

/// How a tracked collection is listed.
pub open spec fn listed(
    collection: StoredCollection,
    configuration: Option<StoredCollectionConfiguration>,
    schedule: Option<CollectionSchedule>,
    enabled: bool,
) -> RowView {
    RowView {
        collection_id: collection.collection_id@,
        name: collection.name@,
        identity: "Collection "@ + decimal(collection.collection_id@ as nat) + " · wiki "@
            + decimal(collection.wiki_id@ as nat),
        schedule: match schedule {
            Some(schedule) => schedule_text(schedule.cadence@, schedule.paused),
            None => "Manual"@,
        },
        images: match configuration {
            Some(configuration) => image_text(configuration.image_policy@),
            None => "Image policy unavailable"@,
        },
        pages: decimal(collection.page_count as nat) + " pages"@,
        enabled,
    }
}

/// How a stopped collection is listed.
pub open spec fn listed_stopped(collection: StoredCollection, enabled: bool) -> StoppedView {
    StoppedView {
        collection_id: collection.collection_id@,
        name: collection.name@,
        identity: "Collection "@ + decimal(collection.collection_id@ as nat) + " · stopped at "@ + (
        match collection.tombstoned_at {
            Some(timestamp) => decimal(timestamp as nat),
            None => "unknown"@,
        }) + " · audit/history retained"@,
        enabled,
    }
}

/// Lists a tracked collection.
pub fn collection_row(
    collection: &StoredCollection,
    configuration: Option<&StoredCollectionConfiguration>,
    schedule: Option<CollectionSchedule>,
    update_enabled: bool,
) -> (row: CollectionRow)
    ensures
        row@ == listed(
            *collection,
            match configuration {
                Some(configuration) => Some(*configuration),
                None => None,
            },
            schedule,
            update_enabled,
        ),
{
    let mut identity = "Collection ".to_owned();
    identity.append(decimal_text(collection.collection_id.get()).as_str());
    identity.append(" · wiki ");
    identity.append(decimal_text(collection.wiki_id.get()).as_str());
    let mut pages = decimal_text(collection.page_count);
    pages.append(" pages");
    CollectionRow {
        collection_id: collection.collection_id,
        name: collection.name.clone(),
        identity,
        schedule: match schedule {
            Some(schedule) => schedule_label(schedule.cadence, schedule.paused),
            None => "Manual".to_owned(),
        },
        images: match configuration {
            Some(configuration) => image_policy_summary(configuration.image_policy),
            None => "Image policy unavailable".to_owned(),
        },
        pages,
        enabled: update_enabled,
    }
}

/// Lists a stopped collection.
pub fn tombstoned_collection_row(collection: &StoredCollection, enabled: bool) -> (row: StoppedRow)
    ensures
        row@ == listed_stopped(*collection, enabled),
{
    let mut identity = "Collection ".to_owned();
    identity.append(decimal_text(collection.collection_id.get()).as_str());
    identity.append(" · stopped at ");
    match collection.tombstoned_at {
        Some(timestamp) => identity.append(decimal_text(timestamp).as_str()),
        None => identity.append("unknown"),
    }
    identity.append(" · audit/history retained");
    StoppedRow {
        collection_id: collection.collection_id,
        name: collection.name.clone(),
        identity,
        enabled,
    }
}

/// What is asked for in the selection field.
pub open spec fn selection_text(mode: SelectionMode) -> Seq<char> {
    match mode {
        SelectionMode::Titles => "One page title per line"@,
        SelectionMode::TitleList => "Paste a newline-delimited title list"@,
        SelectionMode::Category => "Category:Name"@,
    }
}

/// What is asked for in the selection field.
pub fn selection_hint(mode: SelectionMode) -> (hint: &'static str)
    ensures
        hint@ == selection_text(mode),
{
    match mode {
        SelectionMode::Titles => "One page title per line",
        SelectionMode::TitleList => "Paste a newline-delimited title list",
        SelectionMode::Category => "Category:Name",
    }
}

/// What is asked for in the value field of a schedule.
pub open spec fn schedule_hint(mode: ScheduleMode) -> Seq<char> {
    match mode {
        ScheduleMode::Manual => "No automatic schedule"@,
        ScheduleMode::Interval => "Interval in minutes (1–527040)"@,
        ScheduleMode::DailyUtc => "Daily UTC time (HH:MM)"@,
    }
}

/// The images that a form states, or what to correct.
pub open spec fn form_images(form: FormView) -> Seq<char> {
    match stated_images(form) {
        Ok(policy) => "Configured image policy: "@ + image_text(policy),
        Err(message) => "Thumbnail limits are invalid: "@ + message,
    }
}

/// The size that a preview predicts.
pub open spec fn predicted_size(bytes: Option<u64>) -> Seq<char> {
    match bytes {
        Some(bytes) => size_text(bytes),
        None => "source bytes unknown until capture"@,
    }
}

/// What a preview counted.
pub open spec fn preview_counts(preview: PreviewView) -> Seq<char> {
    decimal(preview.members.len()) + " pages, "@ + decimal(preview.missing_titles.len())
        + " missing titles, "@ + predicted_size(preview.predicted_canonical_bytes)
}

fn counts_text(preview: &crate::model::CollectionSelectionPreview) -> (s: String)
    ensures
        s@ == preview_counts(preview@),
{
    let mut s = decimal_text(preview.members.len() as u64);
    s.append(" pages, ");
    s.append(decimal_text(preview.missing_titles.len() as u64).as_str());
    s.append(" missing titles, ");
    match preview.predicted_canonical_bytes {
        Some(bytes) => s.append(format_bytes(bytes).as_str()),
        None => s.append("source bytes unknown until capture"),
    }
    s
}

/// The editor of a collection as it is shown.
#[derive(Debug, PartialEq, Eq)]
pub struct EditPanel {
    pub title: String,
    pub source: String,
    pub selection_hint: String,
    pub images: String,
    pub schedule_hint: String,
    pub preview_summary: String,
    pub preview_enabled: bool,
    pub save_enabled: bool,
}

/// Plain view of a shown editor.
pub struct EditPanelView {
    pub title: Seq<char>,
    pub source: Seq<char>,
    pub selection_hint: Seq<char>,
    pub images: Seq<char>,
    pub schedule_hint: Seq<char>,
    pub preview_summary: Seq<char>,
    pub preview_enabled: bool,
    pub save_enabled: bool,
}

impl View for EditPanel {
    type V = EditPanelView;

    open spec fn view(&self) -> EditPanelView {
        EditPanelView {
            title: self.title@,
            source: self.source@,
            selection_hint: self.selection_hint@,
            images: self.images@,
            schedule_hint: self.schedule_hint@,
            preview_summary: self.preview_summary@,
            preview_enabled: self.preview_enabled,
            save_enabled: self.save_enabled,
        }
    }
}

/// How an editor is shown; an edit can be saved only as it was previewed.
pub open spec fn edit_panel(editor: EditorView, enabled: bool) -> EditPanelView {
    EditPanelView {
        title: "Edit collection "@ + decimal(editor.collection_id as nat),
        source: "Source is fixed for this collection: "@ + editor.form.language_code + " ("@
            + editor.form.api_endpoint + ")"@,
        selection_hint: selection_text(editor.form.selection_mode),
        images: form_images(editor.form),
        schedule_hint: schedule_hint(editor.form.schedule_mode),
        preview_summary: match editor.preview {
            Some(preview) => "Complete replacement preview: "@ + preview_counts(preview) + "."@,
            None => "A fresh full preview is required; no edit has been committed."@,
        },
        preview_enabled: enabled,
        save_enabled: enabled && editor.preview is Some,
    }
}

/// Shows the editor of a collection.
pub fn collection_edit_view(editor: &CollectionEditor, enabled: bool) -> (panel: EditPanel)
    ensures
        panel@ == edit_panel(editor@, enabled),
{
    let form = &editor.form;
    let mut title = "Edit collection ".to_owned();
    title.append(decimal_text(editor.collection_id.get()).as_str());
    let mut source = "Source is fixed for this collection: ".to_owned();
    source.append(form.language_code.as_str());
    source.append(" (");
    source.append(form.api_endpoint.as_str());
    source.append(")");
    let preview_summary = match &editor.preview {
        Some(preview) => {
            let mut s = "Complete replacement preview: ".to_owned();
            s.append(counts_text(preview).as_str());
            s.append(".");
            s
        },
        None => "A fresh full preview is required; no edit has been committed.".to_owned(),
    };
    EditPanel {
        title,
        source,
        selection_hint: selection_hint(form.selection_mode).to_owned(),
        images: image_policy_form_summary(form),
        schedule_hint: schedule_value_hint(form.schedule_mode).to_owned(),
        preview_summary,
        preview_enabled: enabled,
        save_enabled: enabled && editor.preview.is_some(),
    }
}

/// The schedule editor as it is shown.
#[derive(Debug, PartialEq, Eq)]
pub struct SchedulePanel {
    pub title: String,
    pub value_hint: String,
    pub save_enabled: bool,
}

/// Plain view of a shown schedule editor.
pub struct SchedulePanelView {
    pub title: Seq<char>,
    pub value_hint: Seq<char>,
    pub save_enabled: bool,
}

impl View for SchedulePanel {
    type V = SchedulePanelView;

    open spec fn view(&self) -> SchedulePanelView {
        SchedulePanelView {
            title: self.title@,
            value_hint: self.value_hint@,
            save_enabled: self.save_enabled,
        }
    }
}

/// How a schedule editor is shown.
pub open spec fn schedule_panel(editor: ScheduleEditorView, enabled: bool) -> SchedulePanelView {
    SchedulePanelView {
        title: "Schedule collection "@ + decimal(editor.collection_id as nat),
        value_hint: schedule_hint(editor.mode),
        save_enabled: enabled,
    }
}

fn schedule_view(editor: &ScheduleEditor, enabled: bool) -> (panel: SchedulePanel)
    ensures
        panel@ == schedule_panel(editor@, enabled),
{
    let mut title = "Schedule collection ".to_owned();
    title.append(decimal_text(editor.collection_id.get()).as_str());
    SchedulePanel {
        title,
        value_hint: schedule_value_hint(editor.mode).to_owned(),
        save_enabled: enabled,
    }
}

/// The form of a new collection as it is shown.
#[derive(Debug, PartialEq, Eq)]
pub struct CreationPanel {
    pub selection_hint: String,
    pub images: String,
    pub schedule_hint: String,
    pub preview_summary: String,
    pub preview_enabled: bool,
    pub create_enabled: bool,
}

/// Plain view of a shown creation form.
pub struct CreationPanelView {
    pub selection_hint: Seq<char>,
    pub images: Seq<char>,
    pub schedule_hint: Seq<char>,
    pub preview_summary: Seq<char>,
    pub preview_enabled: bool,
    pub create_enabled: bool,
}

impl View for CreationPanel {
    type V = CreationPanelView;

    open spec fn view(&self) -> CreationPanelView {
        CreationPanelView {
            selection_hint: self.selection_hint@,
            images: self.images@,
            schedule_hint: self.schedule_hint@,
            preview_summary: self.preview_summary@,
            preview_enabled: self.preview_enabled,
            create_enabled: self.create_enabled,
        }
    }
}

/// A form names a collection, a source and a selection.
pub open spec fn is_filled(form: FormView) -> bool {
    &&& trimmed(form.name).len() > 0
    &&& trimmed(form.language_code).len() > 0
    &&& trimmed(form.api_endpoint).len() > 0
    &&& trimmed(form.selection).len() > 0
}

/// How the form of a new collection is shown; it can be created only as it was previewed.
pub open spec fn creation_panel(
    form: FormView,
    preview: Option<PreviewView>,
    enabled: bool,
) -> CreationPanelView {
    CreationPanelView {
        selection_hint: selection_text(form.selection_mode),
        images: form_images(form),
        schedule_hint: schedule_hint(form.schedule_mode),
        preview_summary: match preview {
            Some(preview) => "Ready to commit: "@ + preview_counts(preview)
                + ". Hard budgets are enforced before checkpoint advancement."@,
            None => "Preview is required before any collection is created or downloaded."@,
        },
        preview_enabled: enabled && is_filled(form),
        create_enabled: enabled && is_filled(form) && preview is Some,
    }
}

fn is_blank(text: &str) -> (b: bool)
    ensures
        b == (trimmed(text@).len() == 0),
{
    trim(text).as_str().unicode_len() == 0
}

/// Everything that is shown of collections.
#[derive(Debug, PartialEq, Eq)]
pub struct CollectionsPanel {
    pub rows: Vec<CollectionRow>,
    pub stopped: Vec<StoppedRow>,
    pub editor: Option<EditPanel>,
    /// The question whether a collection shall be stopped.
    pub removal: Option<String>,
    pub purge: Option<PurgePanel>,
    pub schedule: Option<SchedulePanel>,
    pub creation: CreationPanel,
    /// Whether a removal can be confirmed.
    pub removal_enabled: bool,
}

/// The name of a tracked collection, looked for from `i` on.
pub open spec fn name_of(collections: Seq<StoredCollection>, collection_id: u64, i: int) -> Seq<char>
    decreases collections.len() - i,
{
    if i < 0 || i >= collections.len() {
        "this collection"@
    } else if collections[i].collection_id@ == collection_id {
        collections[i].name@
    } else {
        name_of(collections, collection_id, i + 1)
    }
}

/// The question whether a collection shall be stopped.
pub open spec fn removal_question(
    snapshot: DashboardSnapshot,
    confirmation: Option<u64>,
) -> Option<Seq<char>> {
    match confirmation {
        Some(collection_id) => Some(
            "Stop tracking "@ + name_of(snapshot.collections@, collection_id, 0) + "?"@,
        ),
        None => None,
    }
}

/// Every tracked collection is listed in order, with its schedule and configuration.
pub open spec fn rows_shown(
    snapshot: DashboardSnapshot,
    enabled: bool,
    rows: Seq<CollectionRow>,
) -> bool {
    &&& rows.len() == snapshot.collections@.len()
    &&& forall|i: int|
        0 <= i < rows.len() ==> (#[trigger] rows[i])@ == listed(
            snapshot.collections@[i],
            configuration_of(
                snapshot.collection_configurations@,
                snapshot.collections@[i].collection_id@,
                0,
            ),
            schedule_of(snapshot.schedules@, snapshot.collections@[i].collection_id@, 0),
            enabled,
        )
}

/// Every stopped collection is listed in order.
pub open spec fn stopped_shown(
    snapshot: DashboardSnapshot,
    enabled: bool,
    rows: Seq<StoppedRow>,
) -> bool {
    &&& rows.len() == snapshot.tombstoned_collections@.len()
    &&& forall|i: int|
        0 <= i < rows.len() ==> (#[trigger] rows[i])@ == listed_stopped(
            snapshot.tombstoned_collections@[i],
            enabled,
        )
}

impl DashboardSnapshot {
    fn collection_rows(&self, enabled: bool) -> (rows: Vec<CollectionRow>)
        ensures
            rows_shown(*self, enabled, rows@),
    {
        let mut rows: Vec<CollectionRow> = Vec::new();
        let mut i: usize = 0;
        while i < self.collections.len()
            invariant
                i == rows@.len(),
                i <= self.collections@.len(),
                forall|k: int|
                    0 <= k < i ==> (#[trigger] rows@[k])@ == listed(
                        self.collections@[k],
                        configuration_of(
                            self.collection_configurations@,
                            self.collections@[k].collection_id@,
                            0,
                        ),
                        schedule_of(self.schedules@, self.collections@[k].collection_id@, 0),
                        enabled,
                    ),
            decreases self.collections@.len() - i,
        {
            let collection = &self.collections[i];
            let schedule = self.schedule(collection.collection_id);
            let configuration = self.configuration(collection.collection_id);
            rows.push(collection_row(collection, configuration, schedule, enabled));
            i = i + 1;
        }
        rows
    }

    fn stopped_rows(&self, enabled: bool) -> (rows: Vec<StoppedRow>)
        ensures
            stopped_shown(*self, enabled, rows@),
    {
        let mut rows: Vec<StoppedRow> = Vec::new();
        let mut i: usize = 0;
        while i < self.tombstoned_collections.len()
            invariant
                i == rows@.len(),
                i <= self.tombstoned_collections@.len(),
                forall|k: int|
                    0 <= k < i ==> (#[trigger] rows@[k])@ == listed_stopped(
                        self.tombstoned_collections@[k],
                        enabled,
                    ),
            decreases self.tombstoned_collections@.len() - i,
        {
            rows.push(tombstoned_collection_row(&self.tombstoned_collections[i], enabled));
            i = i + 1;
        }
        rows
    }

    fn collection_name(&self, collection_id: CollectionId) -> (name: String)
        ensures
            name@ == name_of(self.collections@, collection_id@, 0),
    {
        let mut i: usize = 0;
        while i < self.collections.len()
            invariant
                i <= self.collections@.len(),
                name_of(self.collections@, collection_id@, i as int) == name_of(
                    self.collections@,
                    collection_id@,
                    0,
                ),
            decreases self.collections@.len() - i,
        {
            if self.collections[i].collection_id.same(collection_id) {
                return self.collections[i].name.clone();
            }
            i = i + 1;
        }
        "this collection".to_owned()
    }
}

impl App {
    fn creation_view(&self) -> (panel: CreationPanel)
        ensures
            panel@ == creation_panel(
                self@.collection_form,
                self@.selection_preview,
                is_idle(self@),
            ),
    {
        let form = &self.collection_form;
        let preview_enabled: bool = !self.is_busy() && !is_blank(form.name.as_str()) && !is_blank(
            form.language_code.as_str(),
        ) && !is_blank(form.api_endpoint.as_str()) && !is_blank(form.selection.as_str());
        let preview_summary = match &self.selection_preview {
            Some(preview) => {
                let mut s = "Ready to commit: ".to_owned();
                s.append(counts_text(preview).as_str());
                s.append(". Hard budgets are enforced before checkpoint advancement.");
                s
            },
            None => "Preview is required before any collection is created or downloaded.".to_owned(),
        };
        CreationPanel {
            selection_hint: selection_hint(form.selection_mode).to_owned(),
            images: image_policy_form_summary(form),
            schedule_hint: schedule_value_hint(form.schedule_mode).to_owned(),
            preview_summary,
            preview_enabled,
            create_enabled: preview_enabled && self.selection_preview.is_some(),
        }
    }

    /// Shows the collections of a library and the forms that change them.
    pub fn collections_view(&self, snapshot: &DashboardSnapshot) -> (panel: CollectionsPanel)
        ensures
            rows_shown(*snapshot, is_idle(self@), panel.rows@),
            stopped_shown(*snapshot, is_idle(self@), panel.stopped@),
            match panel.editor {
                Some(shown) => self@.collection_editor is Some && shown@ == edit_panel(
                    self@.collection_editor->0,
                    is_idle(self@),
                ),
                None => self@.collection_editor is None,
            },
            match panel.removal {
                Some(question) => removal_question(*snapshot, self@.remove_confirmation) == Some(
                    question@,
                ),
                None => removal_question(*snapshot, self@.remove_confirmation) is None,
            },
            panel.removal_enabled == is_idle(self@),
            match panel.purge {
                Some(shown) => self@.purge_dialog is Some && purge_shown(
                    self@.purge_dialog->0,
                    is_idle(self@),
                    shown,
                ),
                None => self@.purge_dialog is None,
            },
            match panel.schedule {
                Some(shown) => self@.schedule_editor is Some && shown@ == schedule_panel(
                    self@.schedule_editor->0,
                    is_idle(self@),
                ),
                None => self@.schedule_editor is None,
            },
            panel.creation@ == creation_panel(
                self@.collection_form,
                self@.selection_preview,
                is_idle(self@),
            ),
    {
        let enabled: bool = !self.is_busy();
        let editor = match &self.collection_editor {
            Some(editor) => Some(collection_edit_view(editor, enabled)),
            None => None,
        };
        let removal = match self.remove_confirmation {
            Some(collection_id) => {
                let mut question = "Stop tracking ".to_owned();
                question.append(snapshot.collection_name(collection_id).as_str());
                question.append("?");
                Some(question)
            },
            None => None,
        };
        let purge = match &self.purge_dialog {
            Some(dialog) => Some(dialog.collection_purge_view(enabled)),
            None => None,
        };
        let schedule = match &self.schedule_editor {
            Some(editor) => Some(schedule_view(editor, enabled)),
            None => None,
        };
        CollectionsPanel {
            rows: snapshot.collection_rows(enabled),
            stopped: snapshot.stopped_rows(enabled),
            editor,
            removal,
            purge,
            schedule,
            creation: self.creation_view(),
            removal_enabled: enabled,
        }
    }
}

proof fn lemma_configuration_of(
    configurations: Seq<StoredCollectionConfiguration>,
    collection_id: u64,
    i: int,
)
    requires
        0 <= i <= configurations.len(),
    ensures
        match configuration_of(configurations, collection_id, i) {
            Some(configuration) => configuration.collection_id@ == collection_id
                && configurations.contains(configuration),
            None => forall|k: int|
                i <= k < configurations.len() ==> (#[trigger] configurations[k]).collection_id@
                    != collection_id,
        },
    decreases configurations.len() - i,
{
    if i < configurations.len() && configurations[i].collection_id@ != collection_id {
        lemma_configuration_of(configurations, collection_id, i + 1);
    }
}

proof fn lemma_schedule_of(schedules: Seq<CollectionSchedule>, collection_id: u64, i: int)
    requires
        0 <= i <= schedules.len(),
    ensures
        match schedule_of(schedules, collection_id, i) {
            Some(schedule) => schedule.collection_id@ == collection_id && schedules.contains(
                schedule,
            ),
            None => forall|k: int|
                i <= k < schedules.len() ==> (#[trigger] schedules[k]).collection_id@
                    != collection_id,
        },
    decreases schedules.len() - i,
{
    if i < schedules.len() && schedules[i].collection_id@ != collection_id {
        lemma_schedule_of(schedules, collection_id, i + 1);
    }
}

/// A collection is listed under its own name and number, with the schedule and the images that
/// it has, and can be acted on exactly where that is allowed.
pub proof fn law_rows_show_their_collection(
    collection: StoredCollection,
    configuration: Option<&StoredCollectionConfiguration>,
    schedule: Option<CollectionSchedule>,
    enabled: bool,
    row: CollectionRow,
    stopped: StoppedRow,
)
    requires
        call_ensures(collection_row, (&collection, configuration, schedule, enabled), row),
        call_ensures(tombstoned_collection_row, (&collection, enabled), stopped),
    ensures
        row.collection_id@ == collection.collection_id@ && stopped.collection_id@
            == collection.collection_id@,
        row.name@ == collection.name@ && stopped.name@ == collection.name@,
        row.enabled == enabled && stopped.enabled == enabled,
        row.identity@ == "Collection "@ + decimal(collection.collection_id@ as nat) + " · wiki "@
            + decimal(collection.wiki_id@ as nat),
        row.pages@ == decimal(collection.page_count as nat) + " pages"@,
        schedule is None ==> row.schedule@ == "Manual"@,
        configuration is None ==> row.images@ == "Image policy unavailable"@,
        schedule matches Some(schedule) ==> row.schedule@ == schedule_text(
            schedule.cadence@,
            schedule.paused,
        ),
        configuration matches Some(configuration) ==> row.images@ == image_text(
            configuration.image_policy@,
        ),
        stopped.identity@ == "Collection "@ + decimal(collection.collection_id@ as nat)
            + " · stopped at "@ + (match collection.tombstoned_at {
            Some(timestamp) => decimal(timestamp as nat),
            None => "unknown"@,
        }) + " · audit/history retained"@,
{
    assert(row@.collection_id == row.collection_id@);
    assert(stopped@.collection_id == stopped.collection_id@);
}

/// Every tracked and every stopped collection is listed in its place; nothing can be done to
/// any while something runs. A forms' panel is there exactly while its form is.
pub proof fn law_collections_are_all_listed(
    app: App,
    snapshot: DashboardSnapshot,
    panel: CollectionsPanel,
)
    requires
        call_ensures(App::collections_view, (&app, &snapshot), panel),
    ensures
        panel.rows@.len() == snapshot.collections@.len(),
        panel.stopped@.len() == snapshot.tombstoned_collections@.len(),
        forall|i: int|
            0 <= i < panel.rows@.len() ==> (#[trigger] panel.rows@[i]).collection_id@
                == snapshot.collections@[i].collection_id@ && panel.rows@[i].name@
                == snapshot.collections@[i].name@ && (panel.rows@[i].enabled
                <==> app.active_request is None),
        forall|i: int|
            0 <= i < panel.stopped@.len() ==> (#[trigger] panel.stopped@[i]).collection_id@
                == snapshot.tombstoned_collections@[i].collection_id@ && (panel.stopped@[i].enabled
                <==> app.active_request is None),
        panel.removal_enabled <==> app.active_request is None,
        panel.editor is Some <==> app.collection_editor is Some,
        panel.removal is Some <==> app.remove_confirmation is Some,
        panel.purge is Some <==> app.purge_dialog is Some,
        panel.schedule is Some <==> app.schedule_editor is Some,
        panel.schedule matches Some(shown) ==> (shown.save_enabled <==> app.active_request is None),
{
    assert forall|i: int| 0 <= i < panel.rows@.len() implies (
    #[trigger] panel.rows@[i]).collection_id@ == snapshot.collections@[i].collection_id@
        && panel.rows@[i].name@ == snapshot.collections@[i].name@ && (panel.rows@[i].enabled
        <==> app.active_request is None) by {
        let shown = panel.rows@[i]@;
        assert(shown.collection_id == panel.rows@[i].collection_id@);
        assert(shown.name == panel.rows@[i].name@);
    }
    assert forall|i: int| 0 <= i < panel.stopped@.len() implies (
    #[trigger] panel.stopped@[i]).collection_id@
        == snapshot.tombstoned_collections@[i].collection_id@ && (panel.stopped@[i].enabled
        <==> app.active_request is None) by {
        let shown = panel.stopped@[i]@;
        assert(shown.collection_id == panel.stopped@[i].collection_id@);
    }
    if let Some(shown) = panel.schedule {
        assert(shown@.save_enabled == shown.save_enabled);
    }
}

/// The schedule and the images in a row are those of the very collection in it, where the
/// library has them.
pub proof fn law_rows_are_of_one_collection(
    app: App,
    snapshot: DashboardSnapshot,
    panel: CollectionsPanel,
    i: int,
)
    requires
        call_ensures(App::collections_view, (&app, &snapshot), panel),
        0 <= i < snapshot.collections@.len(),
    ensures
        ({
            let id = snapshot.collections@[i].collection_id@;
            &&& panel.rows@[i].schedule@ == "Manual"@ || exists|schedule: CollectionSchedule|
                snapshot.schedules@.contains(schedule) && schedule.collection_id@ == id
                    && panel.rows@[i].schedule@ == #[trigger] schedule_text(
                    schedule.cadence@,
                    schedule.paused,
                )
            &&& panel.rows@[i].images@ == "Image policy unavailable"@ || exists|
                configuration: StoredCollectionConfiguration,
            | #[trigger]
                snapshot.collection_configurations@.contains(configuration)
                    && configuration.collection_id@ == id && panel.rows@[i].images@ == image_text(
                    configuration.image_policy@,
                )
            &&& (forall|k: int|
                0 <= k < snapshot.schedules@.len() ==> (
                #[trigger] snapshot.schedules@[k]).collection_id@ != id)
                ==> panel.rows@[i].schedule@ == "Manual"@
        }),
{
    let id = snapshot.collections@[i].collection_id@;
    lemma_configuration_of(snapshot.collection_configurations@, id, 0);
    lemma_schedule_of(snapshot.schedules@, id, 0);
    let shown = panel.rows@[i]@;
    assert(shown.schedule == panel.rows@[i].schedule@);
    assert(shown.images == panel.rows@[i].images@);
    if let Some(schedule) = schedule_of(snapshot.schedules@, id, 0) {
        assert(snapshot.schedules@.contains(schedule));
    }
    if let Some(configuration) = configuration_of(snapshot.collection_configurations@, id, 0) {
        assert(snapshot.collection_configurations@.contains(configuration));
    }
}

/// An edit can be saved exactly once it was previewed and while nothing runs; what is shown is of
/// the collection under edit.
pub proof fn law_only_previewed_edits_can_be_saved(
    editor: CollectionEditor,
    enabled: bool,
    panel: EditPanel,
)
    requires
        call_ensures(collection_edit_view, (&editor, enabled), panel),
    ensures
        panel.preview_enabled == enabled,
        panel.save_enabled <==> enabled && editor.preview is Some,
        panel.title@ == "Edit collection "@ + decimal(editor.collection_id@ as nat),
        panel.source@ == "Source is fixed for this collection: "@ + editor.form.language_code@
            + " ("@ + editor.form.api_endpoint@ + ")"@,
        editor.preview is None ==> panel.preview_summary@
            == "A fresh full preview is required; no edit has been committed."@,
        editor.preview matches Some(preview) ==> holds_text(
            panel.preview_summary@,
            decimal(preview.members@.len()) + " pages, "@ + decimal(preview.missing_titles@.len())
                + " missing titles, "@,
        ),
{
    assert(panel@.save_enabled == panel.save_enabled);
    if let Some(preview) = editor.preview {
        let start = "Complete replacement preview: "@;
        let pages = decimal(preview.members@.len());
        let missing = decimal(preview.missing_titles@.len());
        let counted = pages + " pages, "@ + missing + " missing titles, "@;
        let size = predicted_size(preview.predicted_canonical_bytes);
        assert(preview@.members.len() == preview.members@.len());
        assert(preview@.missing_titles.len() == preview.missing_titles@.len());
        lemma_holds_text(start, counted, size + "."@);
        assert(start + counted + (size + "."@) =~= panel.preview_summary@);
    }
}

/// A collection can be previewed exactly when its form names it, its source and its pages while
/// nothing runs, and created exactly when it was previewed besides.
pub proof fn law_only_previewed_collections_can_be_created(
    app: App,
    snapshot: DashboardSnapshot,
    panel: CollectionsPanel,
)
    requires
        call_ensures(App::collections_view, (&app, &snapshot), panel),
    ensures
        panel.creation.preview_enabled <==> {
            &&& app.active_request is None
            &&& exists|i: int|
                0 <= i < app.collection_form.name@.len() && !is_white_space_spec(
                    #[trigger] app.collection_form.name@[i],
                )
            &&& exists|i: int|
                0 <= i < app.collection_form.language_code@.len() && !is_white_space_spec(
                    #[trigger] app.collection_form.language_code@[i],
                )
            &&& exists|i: int|
                0 <= i < app.collection_form.api_endpoint@.len() && !is_white_space_spec(
                    #[trigger] app.collection_form.api_endpoint@[i],
                )
            &&& exists|i: int|
                0 <= i < app.collection_form.selection@.len() && !is_white_space_spec(
                    #[trigger] app.collection_form.selection@[i],
                )
        },
        panel.creation.create_enabled <==> panel.creation.preview_enabled && app.selection_preview
            is Some,
{
    assert(panel.creation@.preview_enabled == panel.creation.preview_enabled);
    assert(panel.creation@.create_enabled == panel.creation.create_enabled);
    law_only_white_space_trims_to_nothing(app.collection_form.name@);
    law_only_white_space_trims_to_nothing(app.collection_form.language_code@);
    law_only_white_space_trims_to_nothing(app.collection_form.api_endpoint@);
    law_only_white_space_trims_to_nothing(app.collection_form.selection@);
}

/// Each kind of selection asks for its own text.
pub proof fn law_selections_ask_for_their_text(mode: SelectionMode, hint: &'static str)
    requires
        call_ensures(selection_hint, (mode,), hint),
    ensures
        mode is Titles ==> hint@ == "One page title per line"@,
        mode is TitleList ==> hint@ == "Paste a newline-delimited title list"@,
        mode is Category ==> hint@ == "Category:Name"@,
{
}

/// A removal asks by the name of the first collection with its number, and without a name where
/// no listed collection has it.
pub proof fn law_removals_ask_by_name(collections: Seq<StoredCollection>, collection_id: u64, i: int)
    requires
        0 <= i <= collections.len(),
        forall|j: int| 0 <= j < i ==> (#[trigger] collections[j]).collection_id@ != collection_id,
        i < collections.len() ==> collections[i].collection_id@ == collection_id,
    ensures
        name_of(collections, collection_id, 0) == if i < collections.len() {
            collections[i].name@
        } else {
            "this collection"@
        },
{
    lemma_names_before(collections, collection_id, i, 0);
}

proof fn lemma_names_before(
    collections: Seq<StoredCollection>,
    collection_id: u64,
    i: int,
    from: int,
)
    requires
        0 <= from <= i <= collections.len(),
        forall|j: int| 0 <= j < i ==> (#[trigger] collections[j]).collection_id@ != collection_id,
    ensures
        name_of(collections, collection_id, from) == name_of(collections, collection_id, i),
    decreases i - from,
{
    if from < i {
        assert(collections[from].collection_id@ != collection_id);
        lemma_names_before(collections, collection_id, i, from + 1);
    }
}

} // verus!
