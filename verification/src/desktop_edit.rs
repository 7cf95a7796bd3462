//! Editing and stopping a collection in the desktop application.

use vstd::prelude::*;
use vstd::string::*;

use crate::desktop::{
    draws_number, is_current, is_idle, next_key, noticed, problem, released, requested, success,
    App, AppView, CollectionEditor, EditorView, NoticeKind, PreviewRequestView, RequestKey, Task,
    TaskView,
};
use crate::desktop_create::{
    current_policy, decides_scope, stated_policies, titles_view, with_field, FormField,
};
use crate::desktop_library::Loaded;
use crate::forms::{
    edited_configuration, settings_of, stated_budget, stated_history, stated_images, stated_rule,
    stated_schedule, CollectionForm, Stated,
};
use crate::model::{
    BudgetView, CollectionId, CollectionSelectionPreview, HistoryView, ImageView, TitleSelection,
    WikiId,
};
use crate::snapshot::DashboardSnapshot;
use crate::stored::{
    CollectionSchedule, SettingsView, StoredCollectionConfiguration, StoredWiki,
};
use crate::tasks::{EditCollectionRequest, EditView, PreviewCollectionRequest};
use crate::text::{decimal, decimal_text, trim, trimmed};

verus! {

/// What concerns a tracked collection.
#[derive(Debug, PartialEq, Eq)]
pub enum EditMessage {
    Edit(CollectionId),
    CancelEdit,
    FieldChanged(FormField),
    /// Preview the edit; `titles` is what its selection states as a title list, and
    /// `generation` is the collection's generation in the library.
    Preview { titles: Result<TitleSelection, String>, generation: Result<u64, String> },
    Previewed { key: RequestKey, result: Result<CollectionSelectionPreview, String> },
    Save,
    Saved(Loaded),
    PreviewRemove(CollectionId),
    CancelRemove,
    ConfirmRemove,
    Removed(Loaded),
}

/// The first configuration of a collection, counted from `i`.
pub open spec fn configuration_of(
    configurations: Seq<StoredCollectionConfiguration>,
    collection_id: u64,
    i: int,
) -> Option<StoredCollectionConfiguration>
    decreases configurations.len() - i,
{
    if i < 0 || i >= configurations.len() {
        None
    } else if configurations[i].collection_id@ == collection_id {
        Some(configurations[i])
    } else {
        configuration_of(configurations, collection_id, i + 1)
    }
}

/// The first source with an identity, counted from `i`.
pub open spec fn wiki_of(wikis: Seq<StoredWiki>, wiki_id: u64, i: int) -> Option<StoredWiki>
    decreases wikis.len() - i,
{
    if i < 0 || i >= wikis.len() {
        None
    } else if wikis[i].wiki_id@ == wiki_id {
        Some(wikis[i])
    } else {
        wiki_of(wikis, wiki_id, i + 1)
    }
}

/// The first schedule of a collection, counted from `i`.
pub open spec fn schedule_of(
    schedules: Seq<CollectionSchedule>,
    collection_id: u64,
    i: int,
) -> Option<CollectionSchedule>
    decreases schedules.len() - i,
{
    if i < 0 || i >= schedules.len() {
        None
    } else if schedules[i].collection_id@ == collection_id {
        Some(schedules[i])
    } else {
        schedule_of(schedules, collection_id, i + 1)
    }
}

impl DashboardSnapshot {
    /// The configuration of a collection.
    pub fn configuration(&self, collection_id: CollectionId) -> (found: Option<
        &StoredCollectionConfiguration,
    >)
        ensures
            match found {
                Some(configuration) => configuration_of(
                    self.collection_configurations@,
                    collection_id@,
                    0,
                ) == Some(*configuration),
                None => configuration_of(self.collection_configurations@, collection_id@, 0)
                    is None,
            },
    {
        let mut i: usize = 0;
        while i < self.collection_configurations.len()
            invariant
                i <= self.collection_configurations@.len(),
                configuration_of(self.collection_configurations@, collection_id@, i as int)
                    == configuration_of(self.collection_configurations@, collection_id@, 0),
            decreases self.collection_configurations@.len() - i,
        {
            if self.collection_configurations[i].collection_id.same(collection_id) {
                return Some(&self.collection_configurations[i]);
            }
            i = i + 1;
        }
        None
    }

    /// The source with an identity.
    pub fn wiki(&self, wiki_id: WikiId) -> (found: Option<&StoredWiki>)
        ensures
            match found {
                Some(wiki) => wiki_of(self.wikis@, wiki_id@, 0) == Some(*wiki),
                None => wiki_of(self.wikis@, wiki_id@, 0) is None,
            },
    {
        let mut i: usize = 0;
        while i < self.wikis.len()
            invariant
                i <= self.wikis@.len(),
                wiki_of(self.wikis@, wiki_id@, i as int) == wiki_of(self.wikis@, wiki_id@, 0),
            decreases self.wikis@.len() - i,
        {
            if self.wikis[i].wiki_id.get() == wiki_id.get() {
                return Some(&self.wikis[i]);
            }
            i = i + 1;
        }
        None
    }

    /// The schedule of a collection.
    pub fn schedule(&self, collection_id: CollectionId) -> (found: Option<CollectionSchedule>)
        ensures
            found == schedule_of(self.schedules@, collection_id@, 0),
    {
        let mut i: usize = 0;
        while i < self.schedules.len()
            invariant
                i <= self.schedules@.len(),
                schedule_of(self.schedules@, collection_id@, i as int) == schedule_of(
                    self.schedules@,
                    collection_id@,
                    0,
                ),
            decreases self.schedules@.len() - i,
        {
            if self.schedules[i].collection_id.same(collection_id) {
                return Some(self.schedules[i]);
            }
            i = i + 1;
        }
        None
    }
}

/// The editor of a collection, or why it cannot be edited.
pub open spec fn opened_editor(snapshot: DashboardSnapshot, collection_id: u64) -> Result<
    EditorView,
    Seq<char>,
> {
    match configuration_of(snapshot.collection_configurations@, collection_id, 0) {
        None => Err("Collection configuration is unavailable."@),
        Some(configuration) => if configuration@.rule is WholeMainNamespace {
            Err("Collection configuration is unavailable."@)
        } else {
            match wiki_of(snapshot.wikis@, configuration.wiki_id@, 0) {
                None => Err("Collection source is unavailable."@),
                Some(wiki) => Ok(
                    EditorView {
                        collection_id,
                        expected_generation: configuration.generation,
                        form: edited_configuration(
                            configuration@,
                            wiki@,
                            settings_of(schedule_of(snapshot.schedules@, collection_id, 0)),
                        ),
                        preview: None,
                    },
                ),
            }
        },
    }
}

fn open_editor(snapshot: &DashboardSnapshot, collection_id: CollectionId) -> (r: Result<
    CollectionEditor,
    String,
>)
    ensures
        match r {
            Ok(editor) => opened_editor(*snapshot, collection_id@) == Ok::<EditorView, Seq<char>>(
                editor@,
            ),
            Err(message) => opened_editor(*snapshot, collection_id@) == Err::<
                EditorView,
                Seq<char>,
            >(message@),
        },
{
    let configuration = match snapshot.configuration(collection_id) {
        Some(configuration) => configuration,
        None => return Err("Collection configuration is unavailable.".to_owned()),
    };
    if let crate::model::CollectionRule::WholeMainNamespace = &configuration.rule {
        return Err("Collection configuration is unavailable.".to_owned());
    }
    let wiki = match snapshot.wiki(configuration.wiki_id) {
        Some(wiki) => wiki,
        None => return Err("Collection source is unavailable.".to_owned()),
    };
    let schedule = snapshot.schedule(collection_id);
    Ok(
        CollectionEditor {
            collection_id,
            expected_generation: configuration.generation,
            form: CollectionForm::from_configuration(configuration, wiki, schedule),
            preview: None,
        },
    )
}

/// An editor with one changed field; where a collection comes from cannot be edited.
pub open spec fn editor_with(editor: EditorView, field: FormField) -> EditorView {
    if field is Language || field is Endpoint {
        editor
    } else {
        EditorView {
            form: with_field(editor.form, field),
            preview: if decides_scope(field) {
                None
            } else {
                editor.preview
            },
            ..editor
        }
    }
}

/// What a person is told of an edit's preview.
pub open spec fn edit_preview_notice(preview: CollectionSelectionPreview) -> Seq<char> {
    "Edit preview complete: "@ + decimal(preview.members@.len()) + " resolved page(s), "@ + decimal(
        preview.missing_titles@.len(),
    ) + " missing title(s). No configuration has changed yet."@
}

/// The request that saves an edit, or why it cannot be saved.
pub open spec fn edit_request(app: AppView, editor: EditorView) -> Result<EditView, Seq<char>> {
    match editor.preview {
        None => Err("Preview the complete edit before saving."@),
        Some(preview) => {
            let configuration = match app.snapshot {
                Some(snapshot) => configuration_of(
                    snapshot.collection_configurations@,
                    editor.collection_id,
                    0,
                ),
                None => None,
            };
            match configuration {
                None => Err("Collection configuration is unavailable."@),
                Some(configuration) => match stated_policies(editor.form) {
                    Err(message) => Err(message),
                    Ok(policies) => Ok(
                        EditView {
                            library_path: app.library_path,
                            collection_id: editor.collection_id,
                            expected_generation: editor.expected_generation,
                            wiki_id: configuration.wiki_id@,
                            name: trimmed(editor.form.name),
                            preview,
                            history_policy: policies.history,
                            budget: policies.budget,
                            removal_policy: editor.form.removal_policy,
                            image_policy: policies.images,
                            schedule: policies.schedule,
                        },
                    ),
                },
            }
        },
    }
}

/// How opening an editor changes the application.
pub open spec fn edit_opened(app: AppView, collection_id: u64) -> (AppView, TaskView) {
    if !is_idle(app) {
        (app, TaskView::Idle)
    } else {
        match app.snapshot {
            None => (app, TaskView::Idle),
            Some(snapshot) => match opened_editor(snapshot, collection_id) {
                Err(message) => (noticed(app, problem(message)), TaskView::Idle),
                Ok(editor) => (
                    AppView {
                        collection_editor: Some(editor),
                        schedule_editor: None,
                        remove_confirmation: None,
                        notice: success(
                            "Edit loaded. Preview the complete replacement scope before saving."@,
                        ),
                        ..app
                    },
                    TaskView::Idle,
                ),
            },
        }
    }
}

/// How the request for an edit's preview changes the application and what it asks for.
pub open spec fn edit_preview_requested(
    app: AppView,
    titles: Stated<Seq<Seq<char>>>,
    generation: Stated<u64>,
) -> (AppView, TaskView) {
    match app.collection_editor {
        Some(editor) => if !is_idle(app) {
            (app, TaskView::Idle)
        } else {
            match stated_rule(editor.form, titles) {
                Err(message) => (noticed(app, problem(message)), TaskView::Idle),
                Ok(rule) => match generation {
                    Err(message) => (noticed(app, problem(message)), TaskView::Idle),
                    Ok(generation) => (
                        requested(
                            AppView {
                                collection_editor: Some(
                                    EditorView { expected_generation: generation, ..editor },
                                ),
                                notice: None,
                                ..app
                            },
                            app.library_path,
                        ),
                        TaskView::PreviewEdit {
                            key: next_key(app, app.library_path),
                            request: PreviewRequestView {
                                api_endpoint: editor.form.api_endpoint,
                                network_policy: current_policy(app),
                                rule,
                            },
                        },
                    ),
                },
            }
        },
        None => (app, TaskView::Idle),
    }
}

/// How the request to save an edit changes the application and what it asks for.
pub open spec fn edit_requested(app: AppView) -> (AppView, TaskView) {
    match app.collection_editor {
        Some(editor) => if !is_idle(app) {
            (app, TaskView::Idle)
        } else {
            match edit_request(app, editor) {
                Err(message) => (noticed(app, problem(message)), TaskView::Idle),
                Ok(request) => (
                    requested(noticed(app, None), app.library_path),
                    TaskView::EditCollection { key: next_key(app, app.library_path), request },
                ),
            }
        },
        None => (app, TaskView::Idle),
    }
}

/// How a message on a tracked collection changes the application and what it asks for.
pub open spec fn edit_updated(app: AppView, message: EditMessage) -> (AppView, TaskView) {
    match message {
        EditMessage::Edit(collection_id) => edit_opened(app, collection_id@),
        EditMessage::CancelEdit => if !is_idle(app) {
            (app, TaskView::Idle)
        } else {
            (AppView { collection_editor: None, ..app }, TaskView::Idle)
        },
        EditMessage::FieldChanged(field) => match app.collection_editor {
            Some(editor) => if !is_idle(app) {
                (app, TaskView::Idle)
            } else {
                (
                    AppView { collection_editor: Some(editor_with(editor, field)), ..app },
                    TaskView::Idle,
                )
            },
            None => (app, TaskView::Idle),
        },
        EditMessage::Preview { titles, generation } => edit_preview_requested(
            app,
            titles_view(titles),
            match generation {
                Ok(generation) => Ok(generation),
                Err(message) => Err(message@),
            },
        ),
        EditMessage::Previewed { key, result } => if !is_current(app, key@) {
            (app, TaskView::Idle)
        } else {
            match result {
                Ok(preview) => (
                    AppView {
                        collection_editor: match app.collection_editor {
                            Some(editor) => Some(EditorView { preview: Some(preview@), ..editor }),
                            None => None,
                        },
                        notice: success(edit_preview_notice(preview)),
                        ..released(app)
                    },
                    TaskView::Idle,
                ),
                Err(message) => (noticed(released(app), problem(message@)), TaskView::Idle),
            }
        },
        EditMessage::Save => edit_requested(app),
        EditMessage::Saved(read) => if !is_current(app, read.key@) {
            (app, TaskView::Idle)
        } else {
            match read.result {
                Ok(snapshot) => (
                    AppView {
                        snapshot: Some(snapshot),
                        collection_editor: None,
                        notice: success(
                            "The previewed collection configuration and schedule were saved. Use Update to capture newly selected revisions."@,
                        ),
                        ..released(app)
                    },
                    TaskView::Idle,
                ),
                Err(message) => (noticed(released(app), problem(message@)), TaskView::Idle),
            }
        },
        EditMessage::PreviewRemove(collection_id) => if !is_idle(app) {
            (app, TaskView::Idle)
        } else {
            (
                AppView {
                    collection_editor: None,
                    schedule_editor: None,
                    remove_confirmation: Some(collection_id@),
                    purge_dialog: None,
                    ..app
                },
                TaskView::Idle,
            )
        },
        EditMessage::CancelRemove => if !is_idle(app) {
            (app, TaskView::Idle)
        } else {
            (AppView { remove_confirmation: None, ..app }, TaskView::Idle)
        },
        EditMessage::ConfirmRemove => match app.remove_confirmation {
            Some(collection_id) => if !is_idle(app) {
                (app, TaskView::Idle)
            } else {
                (
                    requested(noticed(app, None), app.library_path),
                    TaskView::RemoveCollection {
                        key: next_key(app, app.library_path),
                        collection_id,
                    },
                )
            },
            None => (app, TaskView::Idle),
        },
        EditMessage::Removed(read) => if !is_current(app, read.key@) {
            (app, TaskView::Idle)
        } else {
            match read.result {
                Ok(snapshot) => (
                    AppView {
                        snapshot: Some(snapshot),
                        remove_confirmation: None,
                        notice: success(
                            "Tracking stopped. Captured revisions, historical runs, manifests, and integrity evidence were retained; no article data was purged."@,
                        ),
                        ..released(app)
                    },
                    TaskView::Idle,
                ),
                Err(message) => (noticed(released(app), problem(message@)), TaskView::Idle),
            }
        },
    }
}

impl App {
    fn edit_collection(&mut self, collection_id: CollectionId) -> (task: Task)
        ensures
            (final(self)@, task@) == edit_opened(old(self)@, collection_id@),
    {
        if self.is_busy() {
            return Task::Idle;
        }
        let opened = match &self.snapshot {
            Some(snapshot) => open_editor(snapshot, collection_id),
            None => return Task::Idle,
        };
        match opened {
            Ok(editor) => {
                self.collection_editor = Some(editor);
                self.schedule_editor = None;
                self.remove_confirmation = None;
                self.confirm("Edit loaded. Preview the complete replacement scope before saving.");
            },
            Err(message) => self.report(message),
        }
        Task::Idle
    }

    fn change_editor(&mut self, field: FormField)
        ensures
            final(self)@ == (match old(self)@.collection_editor {
                Some(editor) => AppView {
                    collection_editor: Some(editor_with(editor, field)),
                    ..old(self)@
                },
                None => old(self)@,
            }),
    {
        match self.collection_editor.take() {
            Some(editor) => {
                let mut editor = editor;
                match field {
                    FormField::Language(_) | FormField::Endpoint(_) => {},
                    field => {
                        if field.changes_scope() {
                            editor.preview = None;
                        }
                        editor.form.change(field);
                    },
                }
                self.collection_editor = Some(editor);
            },
            None => {},
        }
    }

    fn preview_edit(
        &mut self,
        titles: Result<TitleSelection, String>,
        generation: Result<u64, String>,
    ) -> (task: Task)
        requires
            draws_number(
                edit_preview_requested(
                old(self)@,
                titles_view(titles),
                match generation {
                    Ok(generation) => Ok(generation),
                    Err(message) => Err(message@),
                },
            ).1,
            ) ==> old(self)@.next_request_id < u64::MAX,
        ensures
            (final(self)@, task@) == edit_preview_requested(
                old(self)@,
                titles_view(titles),
                match generation {
                    Ok(generation) => Ok(generation),
                    Err(message) => Err(message@),
                },
            ),
    {
        if self.is_busy() {
            return Task::Idle;
        }
        let (rule, api_endpoint) = match &self.collection_editor {
            Some(editor) => (editor.form.rule(titles), editor.form.api_endpoint.clone()),
            None => return Task::Idle,
        };
        let rule = match rule {
            Ok(rule) => rule,
            Err(message) => {
                self.report(message);
                return Task::Idle;
            },
        };
        let generation: u64 = match generation {
            Ok(generation) => generation,
            Err(message) => {
                self.report(message);
                return Task::Idle;
            },
        };
        let request = PreviewCollectionRequest {
            api_endpoint,
            network_policy: self.current_policy(),
            rule,
        };
        match self.collection_editor.take() {
            Some(editor) => {
                let mut editor = editor;
                editor.expected_generation = generation;
                self.collection_editor = Some(editor);
            },
            None => {},
        }
        self.notice = None;
        let path = self.library_path.clone();
        let key = self.begin_request(path);
        Task::PreviewEdit { key, request }
    }

    fn edit_request(&self, editor: &CollectionEditor) -> (r: Result<EditCollectionRequest, String>)
        ensures
            match r {
                Ok(request) => edit_request(self@, editor@) == Ok::<EditView, Seq<char>>(request@),
                Err(message) => edit_request(self@, editor@) == Err::<EditView, Seq<char>>(
                    message@,
                ),
            },
    {
        let preview = match &editor.preview {
            Some(preview) => preview.clone(),
            None => return Err("Preview the complete edit before saving.".to_owned()),
        };
        let found = match &self.snapshot {
            Some(snapshot) => snapshot.configuration(editor.collection_id),
            None => None,
        };
        let wiki_id = match found {
            Some(configuration) => configuration.wiki_id,
            None => return Err("Collection configuration is unavailable.".to_owned()),
        };
        let history_policy = editor.form.history_policy()?;
        let budget = editor.form.budget()?;
        let image_policy = editor.form.image_policy()?;
        let schedule = editor.form.schedule()?;
        Ok(
            EditCollectionRequest {
                library_path: self.library_path.clone(),
                collection_id: editor.collection_id,
                expected_generation: editor.expected_generation,
                wiki_id,
                name: trim(editor.form.name.as_str()),
                preview,
                history_policy,
                budget,
                removal_policy: editor.form.removal_policy,
                image_policy,
                schedule,
            },
        )
    }

    fn save_edit(&mut self) -> (task: Task)
        requires
            draws_number(
                edit_requested(old(self)@).1,
            ) ==> old(self)@.next_request_id < u64::MAX,
        ensures
            (final(self)@, task@) == edit_requested(old(self)@),
    {
        if self.is_busy() {
            return Task::Idle;
        }
        let request = match &self.collection_editor {
            Some(editor) => self.edit_request(editor),
            None => return Task::Idle,
        };
        match request {
            Ok(request) => {
                self.notice = None;
                let path = self.library_path.clone();
                let key = self.begin_request(path);
                Task::EditCollection { key, request }
            },
            Err(message) => {
                self.report(message);
                Task::Idle
            },
        }
    }

    /// Takes a message on a tracked collection.
    #[verifier::rlimit(40)]
    pub fn update_edit(&mut self, message: EditMessage) -> (task: Task)
        requires
            draws_number(
                edit_updated(old(self)@, message).1,
            ) ==> old(self)@.next_request_id < u64::MAX,
        ensures
            (final(self)@, task@) == edit_updated(old(self)@, message),
    {
        match message {
            EditMessage::Edit(collection_id) => self.edit_collection(collection_id),
            EditMessage::CancelEdit => {
                if !self.is_busy() {
                    self.collection_editor = None;
                }
                Task::Idle
            },
            EditMessage::FieldChanged(field) => {
                if !self.is_busy() {
                    self.change_editor(field);
                }
                Task::Idle
            },
            EditMessage::Preview { titles, generation } => self.preview_edit(titles, generation),
            EditMessage::Previewed { key, result } => {
                if !self.finish_request(&key) {
                    return Task::Idle;
                }
                match result {
                    Ok(preview) => {
                        let mut message = "Edit preview complete: ".to_owned();
                        message.append(decimal_text(preview.members.len() as u64).as_str());
                        message.append(" resolved page(s), ");
                        message.append(decimal_text(preview.missing_titles.len() as u64).as_str());
                        message.append(" missing title(s). No configuration has changed yet.");
                        match self.collection_editor.take() {
                            Some(editor) => {
                                let mut editor = editor;
                                editor.preview = Some(preview);
                                self.collection_editor = Some(editor);
                            },
                            None => {},
                        }
                        self.confirm(message.as_str());
                    },
                    Err(message) => self.report(message),
                }
                Task::Idle
            },
            EditMessage::Save => self.save_edit(),
            EditMessage::Saved(read) => {
                if !self.finish_request(&read.key) {
                    return Task::Idle;
                }
                match read.result {
                    Ok(snapshot) => {
                        self.snapshot = Some(snapshot);
                        self.collection_editor = None;
                        self.confirm(
                            "The previewed collection configuration and schedule were saved. Use Update to capture newly selected revisions.",
                        );
                    },
                    Err(message) => self.report(message),
                }
                Task::Idle
            },
            EditMessage::PreviewRemove(collection_id) => {
                if !self.is_busy() {
                    self.collection_editor = None;
                    self.schedule_editor = None;
                    self.remove_confirmation = Some(collection_id);
                    self.purge_dialog = None;
                }
                Task::Idle
            },
            EditMessage::CancelRemove => {
                if !self.is_busy() {
                    self.remove_confirmation = None;
                }
                Task::Idle
            },
            EditMessage::ConfirmRemove => {
                if self.is_busy() {
                    return Task::Idle;
                }
                match self.remove_confirmation {
                    Some(collection_id) => {
                        self.notice = None;
                        let path = self.library_path.clone();
                        let key = self.begin_request(path);
                        Task::RemoveCollection { key, collection_id }
                    },
                    None => Task::Idle,
                }
            },
            EditMessage::Removed(read) => {
                if !self.finish_request(&read.key) {
                    return Task::Idle;
                }
                match read.result {
                    Ok(snapshot) => {
                        self.snapshot = Some(snapshot);
                        self.remove_confirmation = None;
                        self.confirm(
                            "Tracking stopped. Captured revisions, historical runs, manifests, and integrity evidence were retained; no article data was purged.",
                        );
                    },
                    Err(message) => self.report(message),
                }
                Task::Idle
            },
        }
    }
}

proof fn lemma_configuration_found(
    configurations: Seq<StoredCollectionConfiguration>,
    collection_id: u64,
    i: int,
)
    requires
        0 <= i <= configurations.len(),
    ensures
        match configuration_of(configurations, collection_id, i) {
            Some(configuration) => configuration.collection_id@ == collection_id
                && configurations.contains(configuration),
            None => forall|k: int|
                i <= k < configurations.len() ==> (#[trigger] configurations[k]).collection_id@
                    != collection_id,
        },
    decreases configurations.len() - i,
{
    if i < configurations.len() && configurations[i].collection_id@ != collection_id {
        lemma_configuration_found(configurations, collection_id, i + 1);
    }
}

proof fn lemma_wiki_found(wikis: Seq<StoredWiki>, wiki_id: u64, i: int)
    requires
        0 <= i <= wikis.len(),
    ensures
        match wiki_of(wikis, wiki_id, i) {
            Some(wiki) => wiki.wiki_id@ == wiki_id && wikis.contains(wiki),
            None => forall|k: int|
                i <= k < wikis.len() ==> (#[trigger] wikis[k]).wiki_id@ != wiki_id,
        },
    decreases wikis.len() - i,
{
    if i < wikis.len() && wikis[i].wiki_id@ != wiki_id {
        lemma_wiki_found(wikis, wiki_id, i + 1);
    }
}

proof fn lemma_schedule_found(schedules: Seq<CollectionSchedule>, collection_id: u64, i: int)
    requires
        0 <= i <= schedules.len(),
    ensures
        match schedule_of(schedules, collection_id, i) {
            Some(schedule) => schedule.collection_id@ == collection_id && schedules.contains(
                schedule,
            ),
            None => forall|k: int|
                i <= k < schedules.len() ==> (#[trigger] schedules[k]).collection_id@
                    != collection_id,
        },
    decreases schedules.len() - i,
{
    if i < schedules.len() && schedules[i].collection_id@ != collection_id {
        lemma_schedule_found(schedules, collection_id, i + 1);
    }
}

/// Looking something up in a library finds one of its own with the wanted identity, or tells
/// that there is none.
pub proof fn law_lookups_find_their_own(
    snapshot: DashboardSnapshot,
    collection_id: CollectionId,
    wiki_id: WikiId,
    configuration: Option<&StoredCollectionConfiguration>,
    wiki: Option<&StoredWiki>,
    schedule: Option<CollectionSchedule>,
)
    requires
        call_ensures(DashboardSnapshot::configuration, (&snapshot, collection_id), configuration),
        call_ensures(DashboardSnapshot::wiki, (&snapshot, wiki_id), wiki),
        call_ensures(DashboardSnapshot::schedule, (&snapshot, collection_id), schedule),
    ensures
        configuration matches Some(found) ==> found.collection_id@ == collection_id@
            && snapshot.collection_configurations@.contains(*found),
        configuration is None ==> forall|k: int|
            0 <= k < snapshot.collection_configurations@.len() ==> (
            #[trigger] snapshot.collection_configurations@[k]).collection_id@ != collection_id@,
        wiki matches Some(found) ==> found.wiki_id@ == wiki_id@ && snapshot.wikis@.contains(*found),
        wiki is None ==> forall|k: int|
            0 <= k < snapshot.wikis@.len() ==> (#[trigger] snapshot.wikis@[k]).wiki_id@ != wiki_id@,
        schedule matches Some(found) ==> found.collection_id@ == collection_id@
            && snapshot.schedules@.contains(found),
        schedule is None ==> forall|k: int|
            0 <= k < snapshot.schedules@.len() ==> (#[trigger] snapshot.schedules@[k]).collection_id@
                != collection_id@,
{
    lemma_configuration_found(snapshot.collection_configurations@, collection_id@, 0);
    lemma_wiki_found(snapshot.wikis@, wiki_id@, 0);
    lemma_schedule_found(snapshot.schedules@, collection_id@, 0);
}

/// An opened editor is of the chosen collection, with the name and generation that the library
/// has of it and with its own source, and starts without a preview; a whole edition cannot be
/// edited.
pub proof fn law_editors_open_their_own_collection(
    app: AppView,
    collection_id: CollectionId,
)
    requires
        app.active_request is None,
        app.snapshot is Some,
    ensures
        ({
            let (after, task) = edit_updated(app, EditMessage::Edit(collection_id));
            let snapshot = app.snapshot->0;
            let opened = after.collection_editor != app.collection_editor;
            &&& task is Idle
            &&& after.collection_editor matches Some(editor) ==> (opened ==> {
                &&& editor.collection_id == collection_id@
                &&& editor.preview is None
                &&& exists|configuration: StoredCollectionConfiguration, wiki: StoredWiki|
                    #[trigger] snapshot.collection_configurations@.contains(configuration)
                        && #[trigger] snapshot.wikis@.contains(wiki)
                        && configuration.collection_id@ == collection_id@ && wiki.wiki_id@
                        == configuration.wiki_id@ && editor.expected_generation
                        == configuration.generation && editor.form.name == configuration.name@
                        && editor.form.api_endpoint == wiki.api_endpoint@
                        && editor.form.language_code == wiki.language_code@ && !(
                    configuration@.rule is WholeMainNamespace)
                &&& after.remove_confirmation is None && after.schedule_editor is None
            })
            &&& opened || (after.notice matches Some(notice) && (notice.kind == NoticeKind::Error
                || after.collection_editor is Some))
        }),
{
    let snapshot = app.snapshot->0;
    lemma_configuration_found(snapshot.collection_configurations@, collection_id@, 0);
    if let Some(configuration) = configuration_of(
        snapshot.collection_configurations@,
        collection_id@,
        0,
    ) {
        lemma_wiki_found(snapshot.wikis@, configuration.wiki_id@, 0);
        if let Some(wiki) = wiki_of(snapshot.wikis@, configuration.wiki_id@, 0) {
            assert(snapshot.collection_configurations@.contains(configuration));
            assert(snapshot.wikis@.contains(wiki));
        }
    }
}

/// Where a collection comes from cannot be edited. A change of its pages drops the preview, any
/// other change keeps it, and which collection is edited never changes.
pub proof fn law_edits_keep_their_source(app: AppView, field: FormField)
    requires
        app.active_request is None,
        app.collection_editor is Some,
    ensures
        ({
            let before = app.collection_editor->0;
            let after = edit_updated(app, EditMessage::FieldChanged(field)).0;
            &&& after.collection_editor matches Some(editor) && editor.collection_id
                == before.collection_id && editor.expected_generation
                == before.expected_generation && editor.form.language_code
                == before.form.language_code && editor.form.api_endpoint
                == before.form.api_endpoint && (if field is SelectionMode || field is Selection
                || field is CategoryDepth {
                editor.preview is None
            } else {
                editor.preview == before.preview
            }) && (!(field is Language || field is Endpoint) ==> editor.form == with_field(
                before.form,
                field,
            ))
        }),
{
}

/// The preview of an edit is asked of the collection's own source for the stated rule, and the
/// edit expects the generation that was read for it.
pub proof fn law_edit_previews_are_asked_as_stated(
    app: AppView,
    titles: Result<TitleSelection, String>,
    generation: Result<u64, String>,
)
    requires
        app.active_request is None,
        app.collection_editor is Some,
    ensures
        ({
            let editor = app.collection_editor->0;
            let (after, task) = edit_updated(app, EditMessage::Preview { titles, generation });
            &&& task is PreviewEdit <==> stated_rule(editor.form, titles_view(titles)) is Ok
                && generation is Ok
            &&& task matches TaskView::PreviewEdit { key, request } ==> {
                &&& request.api_endpoint == editor.form.api_endpoint
                &&& request.rule == stated_rule(editor.form, titles_view(titles))->Ok_0
                &&& app.snapshot matches Some(snapshot) ==> request.network_policy
                    == snapshot.network_policy@
                &&& after.collection_editor matches Some(kept) && kept.expected_generation
                    == generation->Ok_0 && kept.collection_id == editor.collection_id
                    && kept.form == editor.form
                &&& after.active_request == Some(key)
            }
        }),
{
}

/// An edit is saved with the previewed pages, at the collection's own wiki and expected
/// generation, under the name and with each policy as stated.
pub proof fn law_edits_are_saved_as_stated(app: AppView)
    requires
        app.active_request is None,
        app.collection_editor is Some,
    ensures
        ({
            let editor = app.collection_editor->0;
            let form = editor.form;
            let (after, task) = edit_updated(app, EditMessage::Save);
            &&& task is EditCollection || task is Idle && (after.notice matches Some(notice)
                && notice.kind == NoticeKind::Error)
            &&& editor.preview is None ==> task is Idle
            &&& task matches TaskView::EditCollection { key, request } ==> {
                &&& request.collection_id == editor.collection_id
                &&& request.expected_generation == editor.expected_generation
                &&& editor.preview == Some(request.preview)
                &&& request.name == trimmed(form.name)
                &&& request.removal_policy == form.removal_policy
                &&& stated_history(form) == Ok::<HistoryView, Seq<char>>(request.history_policy)
                &&& stated_budget(form) == Ok::<BudgetView, Seq<char>>(request.budget)
                &&& stated_images(form) == Ok::<ImageView, Seq<char>>(request.image_policy)
                &&& stated_schedule(
                    form.schedule_mode,
                    form.schedule_value,
                    form.schedule_jitter_minutes,
                    form.schedule_paused,
                ) == Ok::<SettingsView, Seq<char>>(request.schedule)
                &&& exists|configuration: StoredCollectionConfiguration| #[trigger]
                    app.snapshot->0.collection_configurations@.contains(configuration)
                        && configuration.collection_id@ == editor.collection_id
                        && configuration.wiki_id@ == request.wiki_id
            }
        }),
{
    if let Some(snapshot) = app.snapshot {
        lemma_configuration_found(
            snapshot.collection_configurations@,
            app.collection_editor->0.collection_id,
            0,
        );
    }
}

/// A removal is asked for only of the collection that was named for it; cancelling forgets it,
/// and a finished one is not asked for again.
pub proof fn law_removals_are_of_the_named_collection(
    app: AppView,
    collection_id: CollectionId,
)
    requires
        app.active_request is None,
    ensures
        edit_updated(app, EditMessage::PreviewRemove(collection_id)).0.remove_confirmation == Some(
            collection_id@,
        ),
        edit_updated(app, EditMessage::PreviewRemove(collection_id)).1 is Idle,
        edit_updated(app, EditMessage::CancelRemove).0.remove_confirmation is None,
        edit_updated(app, EditMessage::CancelRemove).1 is Idle,
        edit_updated(app, EditMessage::CancelEdit).0.collection_editor is None,
        ({
            let task = edit_updated(app, EditMessage::ConfirmRemove).1;
            match app.remove_confirmation {
                Some(named) => task matches TaskView::RemoveCollection { key, collection_id }
                    && collection_id == named && key.path == app.library_path,
                None => task is Idle,
            }
        }),
{
}

/// What an edit, its preview or a removal brought is shown, or why it failed; the editor closes
/// once it is saved and stays open when it is not.
pub proof fn law_finished_edits_close_their_editor(
    app: AppView,
    key: RequestKey,
    preview: Result<CollectionSelectionPreview, String>,
    result: Result<DashboardSnapshot, String>,
)
    requires
        app.active_request matches Some(active) && active.id == key.id && active.path == key.path@
            && key.path@ == trimmed(app.library_path),
    ensures
        ({
            let after = edit_updated(app, EditMessage::Previewed { key, result: preview }).0;
            &&& after.active_request is None
            &&& preview matches Ok(preview) ==> (app.collection_editor matches Some(before) ==> (
            after.collection_editor matches Some(editor) && editor.preview == Some(preview@)
                && editor.collection_id == before.collection_id && editor.form == before.form))
            &&& preview is Err ==> after.collection_editor == app.collection_editor && (
            after.notice matches Some(notice) && notice.kind == NoticeKind::Error)
        }),
        ({
            let after = edit_updated(app, EditMessage::Saved(Loaded { key, result })).0;
            &&& after.active_request is None
            &&& result matches Ok(snapshot) ==> after.collection_editor is None && after.snapshot
                == Some(snapshot)
            &&& result matches Err(message) ==> after.collection_editor == app.collection_editor
                && after.snapshot == app.snapshot && (after.notice matches Some(notice)
                && notice.message == message@ && notice.kind == NoticeKind::Error)
        }),
        ({
            let after = edit_updated(app, EditMessage::Removed(Loaded { key, result })).0;
            &&& after.active_request is None
            &&& result matches Ok(snapshot) ==> after.remove_confirmation is None && after.snapshot
                == Some(snapshot)
            &&& result matches Err(message) ==> after.snapshot == app.snapshot && (
            after.notice matches Some(notice) && notice.message == message@ && notice.kind
                == NoticeKind::Error)
        }),
{
}

} // verus!
