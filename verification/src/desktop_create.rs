//! Stating, previewing and creating a collection in the desktop application.

use vstd::prelude::*;
use vstd::string::*;

use crate::creation::{CreateCollectionRequest, CreateView};
use crate::desktop::{
    draws_number, is_current, is_idle, next_key, noticed, problem, released, requested, success,
    App, AppView, NoticeKind, PreviewRequestView, RequestKey, Task, TaskView,
};
use crate::desktop_library::{showing, Loaded};
use crate::forms::{
    stated_budget, stated_history, stated_images, stated_rule, stated_schedule, CollectionForm,
    FormView, HistoryMode, ImageMode, ScheduleMode, SelectionMode, Stated,
};
use crate::model::{
    BudgetView, CollectionId, CollectionRemovalPolicy, CollectionSelectionPreview, HistoryView,
    ImageView, NetworkTransferPolicy, NetworkView, PreviewView, TitleSelection,
};
use crate::snapshot::DashboardSnapshot;
use crate::stored::SettingsView;
use crate::tasks::PreviewCollectionRequest;
use crate::text::{decimal, decimal_text, trim, trimmed};

verus! {

/// One changed field of a collection form.
#[derive(Debug, PartialEq, Eq)]
pub enum FormField {
    Name(String),
    Language(String),
    Endpoint(String),
    SelectionMode(SelectionMode),
    Selection(String),
    CategoryDepth(String),
    HistoryMode(HistoryMode),
    HistoryValue(String),
    MaximumPages(String),
    MaximumBytes(String),
    RemovalPolicy(CollectionRemovalPolicy),
    ImageMode(ImageMode),
    ThumbnailEdge(String),
    ThumbnailCount(String),
    ThumbnailBytes(String),
    ScheduleMode(ScheduleMode),
    ScheduleValue(String),
    ScheduleJitter(String),
    SchedulePaused(bool),
}

/// A form with one changed field.
pub open spec fn with_field(form: FormView, field: FormField) -> FormView {
    match field {
        FormField::Name(value) => FormView { name: value@, ..form },
        FormField::Language(value) => FormView { language_code: value@, ..form },
        FormField::Endpoint(value) => FormView { api_endpoint: value@, ..form },
        FormField::SelectionMode(value) => FormView { selection_mode: value, ..form },
        FormField::Selection(value) => FormView { selection: value@, ..form },
        FormField::CategoryDepth(value) => FormView { category_depth: value@, ..form },
        FormField::HistoryMode(value) => FormView { history_mode: value, ..form },
        FormField::HistoryValue(value) => FormView { history_value: value@, ..form },
        FormField::MaximumPages(value) => FormView { maximum_pages: value@, ..form },
        FormField::MaximumBytes(value) => FormView { maximum_bytes: value@, ..form },
        FormField::RemovalPolicy(value) => FormView { removal_policy: value, ..form },
        FormField::ImageMode(value) => FormView { image_mode: value, ..form },
        FormField::ThumbnailEdge(value) => FormView { thumbnail_max_edge_pixels: value@, ..form },
        FormField::ThumbnailCount(value) => FormView {
            thumbnail_max_images_per_revision: value@,
            ..form
        },
        FormField::ThumbnailBytes(value) => FormView {
            thumbnail_max_bytes_per_image: value@,
            ..form
        },
        FormField::ScheduleMode(value) => FormView { schedule_mode: value, ..form },
        FormField::ScheduleValue(value) => FormView { schedule_value: value@, ..form },
        FormField::ScheduleJitter(value) => FormView { schedule_jitter_minutes: value@, ..form },
        FormField::SchedulePaused(value) => FormView { schedule_paused: value, ..form },
    }
}

/// Whether a field decides which pages a collection holds.
pub open spec fn decides_scope(field: FormField) -> bool {
    field is SelectionMode || field is Selection || field is CategoryDepth
}

/// Whether a field decides what a new collection was previewed as.
pub open spec fn decides_preview(field: FormField) -> bool {
    decides_scope(field) || field is Name || field is Language || field is Endpoint
}

impl CollectionForm {
    /// Changes one field.
    pub fn change(&mut self, field: FormField)
        ensures
            final(self)@ == with_field(old(self)@, field),
    {
        match field {
            FormField::Name(value) => self.name = value,
            FormField::Language(value) => self.language_code = value,
            FormField::Endpoint(value) => self.api_endpoint = value,
            FormField::SelectionMode(value) => self.selection_mode = value,
            FormField::Selection(value) => self.selection = value,
            FormField::CategoryDepth(value) => self.category_depth = value,
            FormField::HistoryMode(value) => self.history_mode = value,
            FormField::HistoryValue(value) => self.history_value = value,
            FormField::MaximumPages(value) => self.maximum_pages = value,
            FormField::MaximumBytes(value) => self.maximum_bytes = value,
            FormField::RemovalPolicy(value) => self.removal_policy = value,
            FormField::ImageMode(value) => self.image_mode = value,
            FormField::ThumbnailEdge(value) => self.thumbnail_max_edge_pixels = value,
            FormField::ThumbnailCount(value) => self.thumbnail_max_images_per_revision = value,
            FormField::ThumbnailBytes(value) => self.thumbnail_max_bytes_per_image = value,
            FormField::ScheduleMode(value) => self.schedule_mode = value,
            FormField::ScheduleValue(value) => self.schedule_value = value,
            FormField::ScheduleJitter(value) => self.schedule_jitter_minutes = value,
            FormField::SchedulePaused(value) => self.schedule_paused = value,
        }
    }
}

impl FormField {
    /// Tells whether this field decides which pages a collection holds.
    pub fn changes_scope(&self) -> (b: bool)
        ensures
            b == decides_scope(*self),
    {
        match self {
            FormField::SelectionMode(_) | FormField::Selection(_) | FormField::CategoryDepth(_) =>
                true,
            _ => false,
        }
    }

    /// Tells whether this field decides what a new collection was previewed as.
    pub fn changes_preview(&self) -> (b: bool)
        ensures
            b == decides_preview(*self),
    {
        match self {
            FormField::Name(_) | FormField::Language(_) | FormField::Endpoint(_) => true,
            _ => self.changes_scope(),
        }
    }
}

/// What concerns a new collection.
#[derive(Debug, PartialEq, Eq)]
pub enum CreateMessage {
    FieldChanged(FormField),
    /// Preview the form; `titles` is what its selection states as a title list.
    Preview { titles: Result<TitleSelection, String> },
    Previewed { key: RequestKey, result: Result<CollectionSelectionPreview, String> },
    Create,
    Created(Loaded),
    Update(CollectionId),
    Updated(Loaded),
}

/// A title list as plain data.
pub open spec fn titles_view(titles: Result<TitleSelection, String>) -> Stated<Seq<Seq<char>>> {
    match titles {
        Ok(titles) => Ok(titles@),
        Err(message) => Err(message@),
    }
}

/// The network policy under which previews run.
pub open spec fn current_policy(app: AppView) -> NetworkView {
    match app.snapshot {
        Some(snapshot) => snapshot.network_policy@,
        None => NetworkView {
            max_concurrent_requests: 4,
            max_download_bytes_per_second: None,
            avoid_metered_networks: false,
        },
    }
}

/// What a person is told of a preview.
pub open spec fn preview_notice(preview: CollectionSelectionPreview) -> Seq<char> {
    "Preview complete: "@ + decimal(preview.members@.len()) + " resolved page(s), "@ + decimal(
        preview.missing_titles@.len(),
    )
        + " missing title(s). Review the estimate and policies before creating."@
}

/// Everything that a form states beside its scope, or the first correction.
pub struct PoliciesView {
    pub history: HistoryView,
    pub budget: BudgetView,
    pub images: ImageView,
    pub schedule: SettingsView,
}

/// The policies that a form states.
pub open spec fn stated_policies(form: FormView) -> Stated<PoliciesView> {
    match stated_history(form) {
        Err(message) => Err(message),
        Ok(history) => match stated_budget(form) {
            Err(message) => Err(message),
            Ok(budget) => match stated_images(form) {
                Err(message) => Err(message),
                Ok(images) => match stated_schedule(
                    form.schedule_mode,
                    form.schedule_value,
                    form.schedule_jitter_minutes,
                    form.schedule_paused,
                ) {
                    Err(message) => Err(message),
                    Ok(schedule) => Ok(PoliciesView { history, budget, images, schedule }),
                },
            },
        },
    }
}

/// The request that creates the stated and previewed collection.
pub open spec fn creation_request(
    app: AppView,
    preview: PreviewView,
    policies: PoliciesView,
) -> CreateView {
    CreateView {
        library_path: app.library_path,
        name: trimmed(app.collection_form.name),
        language_code: trimmed(app.collection_form.language_code),
        api_endpoint: trimmed(app.collection_form.api_endpoint),
        preview,
        history_policy: policies.history,
        budget: policies.budget,
        removal_policy: app.collection_form.removal_policy,
        image_policy: policies.images,
        schedule: policies.schedule,
    }
}

/// How the request for a preview changes the application and what it asks for.
pub open spec fn preview_requested(app: AppView, titles: Stated<Seq<Seq<char>>>) -> (
    AppView,
    TaskView,
) {
    if !is_idle(app) {
        (app, TaskView::Idle)
    } else {
        match stated_rule(app.collection_form, titles) {
            Err(message) => (noticed(app, problem(message)), TaskView::Idle),
            Ok(rule) => (
                requested(noticed(app, None), app.library_path),
                TaskView::PreviewCollection {
                    key: next_key(app, app.library_path),
                    request: PreviewRequestView {
                        api_endpoint: trimmed(app.collection_form.api_endpoint),
                        network_policy: current_policy(app),
                        rule,
                    },
                },
            ),
        }
    }
}

/// How the request for a collection changes the application and what it asks for.
pub open spec fn creation_requested(app: AppView) -> (AppView, TaskView) {
    if !is_idle(app) {
        (app, TaskView::Idle)
    } else {
        match app.selection_preview {
            None => (
                noticed(app, problem("Preview the collection before creating it."@)),
                TaskView::Idle,
            ),
            Some(preview) => match stated_policies(app.collection_form) {
                Err(message) => (noticed(app, problem(message)), TaskView::Idle),
                Ok(policies) => (
                    requested(noticed(app, None), app.library_path),
                    TaskView::CreateCollection {
                        key: next_key(app, app.library_path),
                        request: creation_request(app, preview, policies),
                    },
                ),
            },
        }
    }
}

/// How a message on a new collection changes the application and what it asks for.
pub open spec fn create_updated(app: AppView, message: CreateMessage) -> (AppView, TaskView) {
    match message {
        CreateMessage::FieldChanged(field) => if !is_idle(app) {
            (app, TaskView::Idle)
        } else {
            (
                AppView {
                    collection_form: with_field(app.collection_form, field),
                    selection_preview: if decides_preview(field) {
                        None
                    } else {
                        app.selection_preview
                    },
                    ..app
                },
                TaskView::Idle,
            )
        },
        CreateMessage::Preview { titles } => preview_requested(app, titles_view(titles)),
        CreateMessage::Previewed { key, result } => if !is_current(app, key@) {
            (app, TaskView::Idle)
        } else {
            match result {
                Ok(preview) => (
                    AppView {
                        selection_preview: Some(preview@),
                        notice: success(preview_notice(preview)),
                        ..released(app)
                    },
                    TaskView::Idle,
                ),
                Err(message) => (noticed(released(app), problem(message@)), TaskView::Idle),
            }
        },
        CreateMessage::Create => creation_requested(app),
        CreateMessage::Created(read) => if !is_current(app, read.key@) {
            (app, TaskView::Idle)
        } else {
            match read.result {
                Ok(snapshot) => (
                    AppView {
                        collection_form: FormView {
                            name: Seq::empty(),
                            selection: Seq::empty(),
                            ..app.collection_form
                        },
                        selection_preview: None,
                        notice: success(
                            "Collection created and synchronized. It is ready in the offline reader."@,
                        ),
                        ..showing(released(app), snapshot)
                    },
                    TaskView::Idle,
                ),
                Err(message) => (noticed(released(app), problem(message@)), TaskView::Idle),
            }
        },
        CreateMessage::Update(collection_id) => if !is_idle(app) {
            (app, TaskView::Idle)
        } else {
            (
                requested(noticed(app, None), app.library_path),
                TaskView::UpdateCollection {
                    key: next_key(app, app.library_path),
                    collection_id: collection_id@,
                },
            )
        },
        CreateMessage::Updated(read) => if !is_current(app, read.key@) {
            (app, TaskView::Idle)
        } else {
            match read.result {
                Ok(snapshot) => (
                    noticed(
                        showing(released(app), snapshot),
                        success(
                            "Collection update completed; every discovered intermediate revision is durable."@,
                        ),
                    ),
                    TaskView::Idle,
                ),
                Err(message) => (noticed(released(app), problem(message@)), TaskView::Idle),
            }
        },
    }
}

impl App {
    /// The network policy under which previews run.
    pub fn current_policy(&self) -> (policy: NetworkTransferPolicy)
        ensures
            policy@ == current_policy(self@),
    {
        match &self.snapshot {
            Some(snapshot) => snapshot.network_policy,
            None => NetworkTransferPolicy::default(),
        }
    }

    fn creation_request(&self, preview: CollectionSelectionPreview) -> (r: Result<
        CreateCollectionRequest,
        String,
    >)
        ensures
            match r {
                Ok(request) => stated_policies(self@.collection_form) is Ok && request@
                    == creation_request(
                    self@,
                    preview@,
                    stated_policies(self@.collection_form)->Ok_0,
                ),
                Err(message) => stated_policies(self@.collection_form) == Err::<
                    PoliciesView,
                    Seq<char>,
                >(message@),
            },
    {
        let history_policy = self.collection_form.history_policy()?;
        let budget = self.collection_form.budget()?;
        let image_policy = self.collection_form.image_policy()?;
        let schedule = self.collection_form.schedule()?;
        Ok(
            CreateCollectionRequest {
                library_path: self.library_path.clone(),
                name: trim(self.collection_form.name.as_str()),
                language_code: trim(self.collection_form.language_code.as_str()),
                api_endpoint: trim(self.collection_form.api_endpoint.as_str()),
                preview,
                history_policy,
                budget,
                removal_policy: self.collection_form.removal_policy,
                image_policy,
                schedule,
            },
        )
    }

    fn preview_collection(&mut self, titles: Result<TitleSelection, String>) -> (task: Task)
        requires
            draws_number(
                preview_requested(old(self)@, titles_view(titles)).1,
            ) ==> old(self)@.next_request_id < u64::MAX,
        ensures
            (final(self)@, task@) == preview_requested(old(self)@, titles_view(titles)),
    {
        if self.is_busy() {
            return Task::Idle;
        }
        self.notice = None;
        let rule = match self.collection_form.rule(titles) {
            Ok(rule) => rule,
            Err(message) => {
                self.report(message);
                return Task::Idle;
            },
        };
        let request = PreviewCollectionRequest {
            api_endpoint: trim(self.collection_form.api_endpoint.as_str()),
            network_policy: self.current_policy(),
            rule,
        };
        let path = self.library_path.clone();
        let key = self.begin_request(path);
        Task::PreviewCollection { key, request }
    }

    fn create_collection(&mut self) -> (task: Task)
        requires
            draws_number(
                creation_requested(old(self)@).1,
            ) ==> old(self)@.next_request_id < u64::MAX,
        ensures
            (final(self)@, task@) == creation_requested(old(self)@),
    {
        if self.is_busy() {
            return Task::Idle;
        }
        self.notice = None;
        let preview = match &self.selection_preview {
            Some(preview) => preview.clone(),
            None => {
                self.report("Preview the collection before creating it.".to_owned());
                return Task::Idle;
            },
        };
        let request = match self.creation_request(preview) {
            Ok(request) => request,
            Err(message) => {
                self.report(message);
                return Task::Idle;
            },
        };
        let path = self.library_path.clone();
        let key = self.begin_request(path);
        Task::CreateCollection { key, request }
    }

    /// Takes a message on a new collection.
    pub fn update_creation(&mut self, message: CreateMessage) -> (task: Task)
        requires
            draws_number(
                create_updated(old(self)@, message).1,
            ) ==> old(self)@.next_request_id < u64::MAX,
        ensures
            (final(self)@, task@) == create_updated(old(self)@, message),
    {
        match message {
            CreateMessage::FieldChanged(field) => {
                if self.is_busy() {
                    return Task::Idle;
                }
                if field.changes_preview() {
                    self.selection_preview = None;
                }
                self.collection_form.change(field);
                Task::Idle
            },
            CreateMessage::Preview { titles } => self.preview_collection(titles),
            CreateMessage::Previewed { key, result } => {
                if !self.finish_request(&key) {
                    return Task::Idle;
                }
                match result {
                    Ok(preview) => {
                        let mut message = "Preview complete: ".to_owned();
                        message.append(decimal_text(preview.members.len() as u64).as_str());
                        message.append(" resolved page(s), ");
                        message.append(decimal_text(preview.missing_titles.len() as u64).as_str());
                        message.append(
                            " missing title(s). Review the estimate and policies before creating.",
                        );
                        self.confirm(message.as_str());
                        self.selection_preview = Some(preview);
                    },
                    Err(message) => self.report(message),
                }
                Task::Idle
            },
            CreateMessage::Create => self.create_collection(),
            CreateMessage::Created(read) => {
                if !self.finish_request(&read.key) {
                    return Task::Idle;
                }
                match read.result {
                    Ok(snapshot) => {
                        self.show(snapshot);
                        self.collection_form.name = String::new();
                        self.collection_form.selection = String::new();
                        self.selection_preview = None;
                        self.confirm(
                            "Collection created and synchronized. It is ready in the offline reader.",
                        );
                    },
                    Err(message) => self.report(message),
                }
                Task::Idle
            },
            CreateMessage::Update(collection_id) => {
                if self.is_busy() {
                    return Task::Idle;
                }
                self.notice = None;
                let path = self.library_path.clone();
                let key = self.begin_request(path);
                Task::UpdateCollection { key, collection_id }
            },
            CreateMessage::Updated(read) => {
                if !self.finish_request(&read.key) {
                    return Task::Idle;
                }
                match read.result {
                    Ok(snapshot) => {
                        self.show(snapshot);
                        self.confirm(
                            "Collection update completed; every discovered intermediate revision is durable.",
                        );
                    },
                    Err(message) => self.report(message),
                }
                Task::Idle
            },
        }
    }
}

/// A change of one field of a collection form sets that field and leaves every other one.
pub proof fn law_each_field_changes_itself_alone(form: FormView, field: FormField)
    ensures
        ({
            let after = with_field(form, field);
            &&& field matches FormField::Name(value) ==> after.name == value@
            &&& !(field is Name) ==> after.name == form.name
            &&& field matches FormField::Language(value) ==> after.language_code == value@
            &&& !(field is Language) ==> after.language_code == form.language_code
            &&& field matches FormField::Endpoint(value) ==> after.api_endpoint == value@
            &&& !(field is Endpoint) ==> after.api_endpoint == form.api_endpoint
            &&& field matches FormField::SelectionMode(value) ==> after.selection_mode == value
            &&& !(field is SelectionMode) ==> after.selection_mode == form.selection_mode
            &&& field matches FormField::Selection(value) ==> after.selection == value@
            &&& !(field is Selection) ==> after.selection == form.selection
            &&& field matches FormField::CategoryDepth(value) ==> after.category_depth == value@
            &&& !(field is CategoryDepth) ==> after.category_depth == form.category_depth
            &&& field matches FormField::HistoryMode(value) ==> after.history_mode == value
            &&& !(field is HistoryMode) ==> after.history_mode == form.history_mode
            &&& field matches FormField::HistoryValue(value) ==> after.history_value == value@
            &&& !(field is HistoryValue) ==> after.history_value == form.history_value
            &&& field matches FormField::MaximumPages(value) ==> after.maximum_pages == value@
            &&& !(field is MaximumPages) ==> after.maximum_pages == form.maximum_pages
            &&& field matches FormField::MaximumBytes(value) ==> after.maximum_bytes == value@
            &&& !(field is MaximumBytes) ==> after.maximum_bytes == form.maximum_bytes
            &&& field matches FormField::RemovalPolicy(value) ==> after.removal_policy == value
            &&& !(field is RemovalPolicy) ==> after.removal_policy == form.removal_policy
            &&& field matches FormField::ImageMode(value) ==> after.image_mode == value
            &&& !(field is ImageMode) ==> after.image_mode == form.image_mode
            &&& field matches FormField::ThumbnailEdge(value) ==> after.thumbnail_max_edge_pixels == value@
            &&& !(field is ThumbnailEdge) ==> after.thumbnail_max_edge_pixels == form.thumbnail_max_edge_pixels
            &&& field matches FormField::ThumbnailCount(value) ==> after.thumbnail_max_images_per_revision == value@
            &&& !(field is ThumbnailCount) ==> after.thumbnail_max_images_per_revision == form.thumbnail_max_images_per_revision
            &&& field matches FormField::ThumbnailBytes(value) ==> after.thumbnail_max_bytes_per_image == value@
            &&& !(field is ThumbnailBytes) ==> after.thumbnail_max_bytes_per_image == form.thumbnail_max_bytes_per_image
            &&& field matches FormField::ScheduleMode(value) ==> after.schedule_mode == value
            &&& !(field is ScheduleMode) ==> after.schedule_mode == form.schedule_mode
            &&& field matches FormField::ScheduleValue(value) ==> after.schedule_value == value@
            &&& !(field is ScheduleValue) ==> after.schedule_value == form.schedule_value
            &&& field matches FormField::ScheduleJitter(value) ==> after.schedule_jitter_minutes == value@
            &&& !(field is ScheduleJitter) ==> after.schedule_jitter_minutes == form.schedule_jitter_minutes
            &&& field matches FormField::SchedulePaused(value) ==> after.schedule_paused == value
            &&& !(field is SchedulePaused) ==> after.schedule_paused == form.schedule_paused
        }),
{
}

/// Whatever names the collection or its source, or decides its pages, drops the preview; nothing
/// else does.
pub proof fn law_previews_are_of_what_is_shown(app: AppView, field: FormField)
    requires
        app.active_request is None,
    ensures
        ({
            let (after, task) = create_updated(app, CreateMessage::FieldChanged(field));
            let named = field is Name || field is Language || field is Endpoint;
            let selected = field is SelectionMode || field is Selection || field is CategoryDepth;
            &&& task is Idle
            &&& named || selected ==> after.selection_preview is None
            &&& !(named || selected) ==> after.selection_preview == app.selection_preview
            &&& after.collection_form == with_field(app.collection_form, field)
        }),
{
}

/// A preview is asked for at the stated source, for the stated rule, under the policy of the
/// open library; a form that states no rule is only told what to correct.
pub proof fn law_previews_are_asked_as_stated(
    app: AppView,
    titles: Result<TitleSelection, String>,
)
    requires
        app.active_request is None,
    ensures
        ({
            let (after, task) = create_updated(app, CreateMessage::Preview { titles });
            match stated_rule(app.collection_form, titles_view(titles)) {
                Ok(rule) => task matches TaskView::PreviewCollection { key, request }
                    && request.rule == rule && request.api_endpoint == trimmed(
                    app.collection_form.api_endpoint,
                ) && (app.snapshot matches Some(snapshot) ==> request.network_policy
                    == snapshot.network_policy@) && after.active_request == Some(key),
                Err(message) => task is Idle && after.active_request is None && (
                after.notice matches Some(notice) && notice.message == message && notice.kind
                    == NoticeKind::Error),
            }
        }),
{
}

/// A collection is asked for exactly when it was previewed and every policy of its form can be
/// read, with the preview and with each policy as stated.
pub proof fn law_collections_are_asked_as_stated(app: AppView)
    requires
        app.active_request is None,
    ensures
        ({
            let (after, task) = create_updated(app, CreateMessage::Create);
            let form = app.collection_form;
            let schedule = stated_schedule(
                form.schedule_mode,
                form.schedule_value,
                form.schedule_jitter_minutes,
                form.schedule_paused,
            );
            &&& task is CreateCollection <==> app.selection_preview is Some && stated_history(form)
                is Ok && stated_budget(form) is Ok && stated_images(form) is Ok && schedule is Ok
            &&& task is CreateCollection || task is Idle && (after.notice matches Some(notice)
                && notice.kind == NoticeKind::Error)
            &&& task matches TaskView::CreateCollection { key, request } ==> {
                &&& Some(request.preview) == app.selection_preview
                &&& request.library_path == app.library_path && key.path == app.library_path
                &&& request.name == trimmed(form.name)
                &&& request.language_code == trimmed(form.language_code)
                &&& request.api_endpoint == trimmed(form.api_endpoint)
                &&& request.removal_policy == form.removal_policy
                &&& request.history_policy == stated_history(form)->Ok_0
                &&& request.budget == stated_budget(form)->Ok_0
                &&& request.image_policy == stated_images(form)->Ok_0
                &&& request.schedule == schedule->Ok_0
            }
        }),
{
}

/// A finished preview is kept; a created collection clears its name, its selection and its
/// preview from the form, and a failure keeps them all.
pub proof fn law_finished_creations_clear_the_form(
    app: AppView,
    key: RequestKey,
    preview: Result<CollectionSelectionPreview, String>,
    result: Result<DashboardSnapshot, String>,
)
    requires
        app.active_request matches Some(active) && active.id == key.id && active.path == key.path@
            && key.path@ == trimmed(app.library_path),
    ensures
        ({
            let after = create_updated(app, CreateMessage::Previewed { key, result: preview }).0;
            &&& after.active_request is None
            &&& preview matches Ok(preview) ==> after.selection_preview == Some(preview@) && (
            after.notice matches Some(notice) && notice.kind == NoticeKind::Success)
            &&& preview matches Err(message) ==> after.selection_preview == app.selection_preview
                && (after.notice matches Some(notice) && notice.message == message@ && notice.kind
                == NoticeKind::Error)
        }),
        ({
            let after = create_updated(app, CreateMessage::Created(Loaded { key, result })).0;
            &&& after.active_request is None
            &&& result matches Ok(snapshot) ==> after.snapshot == Some(snapshot)
                && after.collection_form.name.len() == 0 && after.collection_form.selection.len()
                == 0 && after.selection_preview is None && after.collection_form.api_endpoint
                == app.collection_form.api_endpoint && (after.notice matches Some(notice)
                && notice.kind == NoticeKind::Success)
            &&& result matches Err(message) ==> after.snapshot == app.snapshot
                && after.collection_form == app.collection_form && after.selection_preview
                == app.selection_preview && (after.notice matches Some(notice) && notice.message
                == message@ && notice.kind == NoticeKind::Error)
        }),
        ({
            let after = create_updated(app, CreateMessage::Updated(Loaded { key, result })).0;
            &&& after.active_request is None
            &&& result matches Ok(snapshot) ==> after.snapshot == Some(snapshot) && (
            after.notice matches Some(notice) && notice.kind == NoticeKind::Success)
            &&& result matches Err(message) ==> after.snapshot == app.snapshot && (
            after.notice matches Some(notice) && notice.message == message@ && notice.kind
                == NoticeKind::Error)
        }),
{
}

/// An update is asked of the very collection that was chosen.
pub proof fn law_updates_are_of_the_chosen_collection(app: AppView, collection_id: CollectionId)
    requires
        app.active_request is None,
    ensures
        create_updated(
            app,
            CreateMessage::Update(collection_id),
        ).1 matches TaskView::UpdateCollection { key, collection_id: asked } && asked
            == collection_id@ && key.path == app.library_path,
{
}

/// A collection is created under the stored network policy, and before any is known under four
/// requests at a time on every network without a limit on the rate.
pub proof fn law_creation_uses_the_stored_policy(app: App, policy: NetworkTransferPolicy)
    requires
        call_ensures(App::current_policy, (&app,), policy),
    ensures
        app@.snapshot matches Some(snapshot) ==> policy@ == snapshot.network_policy@,
        app@.snapshot is None ==> policy@.max_concurrent_requests == 4
            && policy@.max_download_bytes_per_second is None && !policy@.avoid_metered_networks,
{
}

} // verus!
