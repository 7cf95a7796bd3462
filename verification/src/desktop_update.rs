//! How the desktop application takes a message, and what holds of every message.

use vstd::prelude::*;

use crate::desktop::{
    draws_number, is_current, is_idle, task_key, App, AppView, KeyView, Task, TaskView,
};
use crate::desktop_create::{create_updated, decides_preview, decides_scope, CreateMessage};
use crate::desktop_dump::{dump_updated, DumpMessage};
use crate::desktop_edit::{edit_opened, edit_requested, edit_updated, EditMessage};
use crate::desktop_library::{library_updated, LibraryMessage};
use crate::desktop_policy::{policy_updated, PolicyMessage};
use crate::desktop_purge::{purge_updated, PurgeMessage};
use crate::desktop_trust::{trust_updated, TrustMessage};
use crate::purge_dialog::confirmed;

verus! {

/// What people and background work tell the application.
#[derive(Debug, PartialEq, Eq)]
pub enum Message {
    Library(LibraryMessage),
    Create(CreateMessage),
    Edit(EditMessage),
    Purge(PurgeMessage),
    Policy(PolicyMessage),
    Dump(DumpMessage),
    Trust(TrustMessage),
}

/// How a message changes the application and what it asks for.
pub open spec fn updated(app: AppView, message: Message) -> (AppView, TaskView) {
    match message {
        Message::Library(message) => library_updated(app, message),
        Message::Create(message) => create_updated(app, message),
        Message::Edit(message) => edit_updated(app, message),
        Message::Purge(message) => purge_updated(app, message),
        Message::Policy(message) => policy_updated(app, message),
        Message::Dump(message) => dump_updated(app, message),
        Message::Trust(message) => trust_updated(app, message),
    }
}

impl App {
    /// Takes a message.
    pub fn update(&mut self, message: Message) -> (task: Task)
        requires
            draws_number(updated(old(self)@, message).1) ==> old(self)@.next_request_id < u64::MAX,
        ensures
            (final(self)@, task@) == updated(old(self)@, message),
    {
        match message {
            Message::Library(message) => self.update_library(message),
            Message::Create(message) => self.update_creation(message),
            Message::Edit(message) => self.update_edit(message),
            Message::Purge(message) => self.update_purge(message),
            Message::Policy(message) => self.update_policy(message),
            Message::Dump(message) => self.update_dump(message),
            Message::Trust(message) => self.update_trust(message),
        }
    }
}

/// The request whose result a message brings, where it brings one.
pub open spec fn result_key(message: Message) -> Option<KeyView> {
    match message {
        Message::Library(LibraryMessage::Loaded(read)) => Some(read.key@),
        Message::Create(CreateMessage::Previewed { key, result }) => Some(key@),
        Message::Create(CreateMessage::Created(read)) => Some(read.key@),
        Message::Create(CreateMessage::Updated(read)) => Some(read.key@),
        Message::Edit(EditMessage::Previewed { key, result }) => Some(key@),
        Message::Edit(EditMessage::Saved(read)) => Some(read.key@),
        Message::Edit(EditMessage::Removed(read)) => Some(read.key@),
        Message::Purge(PurgeMessage::Previewed { key, result }) => Some(key@),
        Message::Purge(PurgeMessage::Purged { key, result }) => Some(key@),
        Message::Policy(PolicyMessage::ScheduleSaved(read)) => Some(read.key@),
        Message::Policy(PolicyMessage::NetworkPolicySaved(read)) => Some(read.key@),
        Message::Dump(DumpMessage::Previewed { key, result }) => Some(key@),
        Message::Dump(DumpMessage::Finished(read)) => Some(read.key@),
        Message::Trust(TrustMessage::SigningKeyGenerated { key, result }) => Some(key@),
        Message::Trust(TrustMessage::SigningKeyValidated { key, result }) => Some(key@),
        Message::Trust(TrustMessage::TrustedHeadRefreshed { key, result }) => Some(key@),
        Message::Trust(TrustMessage::VerificationFinished { key, result }) => Some(key@),
        Message::Trust(TrustMessage::ReaderStarted { key, result }) => Some(key@),
        _ => None,
    }
}

/// Every identifier that was drawn lies below the next one.
pub open spec fn is_numbered(app: AppView) -> bool {
    &&& app.active_request matches Some(key) ==> key.id < app.next_request_id
    &&& app.latest_probe_id < app.next_request_id
}

/// A step keeps the discipline of requests: while one runs no other one starts and only its
/// own result ends it, and one that starts is the next one and has its work.
pub open spec fn keeps_order(app: AppView, key: Option<KeyView>, step: (AppView, TaskView)) -> bool {
    let (after, task) = step;
    &&& !is_idle(app) ==> {
        &&& task_key(task) is None
        &&& !(task is Probe)
        &&& after.next_request_id == app.next_request_id
        &&& after.active_request == app.active_request || {
            &&& is_idle(after)
            &&& key is Some
            &&& is_current(app, key->0)
        }
    }
    &&& is_idle(app) ==> {
        &&& after.active_request == task_key(task)
        &&& task_key(task) matches Some(started) ==> started.id == app.next_request_id
    }
    &&& after.latest_probe_id == app.latest_probe_id || after.latest_probe_id
        == app.next_request_id
    &&& after.next_request_id == if draws_number(task) {
        (app.next_request_id + 1) as u64
    } else {
        app.next_request_id
    }
    &&& after.latest_probe_id != app.latest_probe_id ==> task is Probe
}

/// A step takes no stale result, and it leaves the library path alone while a request goes
/// on.
pub open spec fn keeps_library(
    app: AppView,
    key: Option<KeyView>,
    step: (AppView, TaskView),
) -> bool {
    &&& key is Some && !is_current(app, key->0) ==> step == (app, TaskView::Idle)
    &&& !is_idle(app) && !is_idle(step.0) ==> step.0.library_path == app.library_path
}

/// What a step asks for was previewed and confirmed before.
pub open spec fn was_previewed(app: AppView, task: TaskView) -> bool {
    match task {
        TaskView::CreateCollection { key, request } => {
            &&& app.selection_preview is Some
            &&& request.preview == app.selection_preview->0
        },
        TaskView::EditCollection { key, request } => {
            &&& app.collection_editor is Some
            &&& app.collection_editor->0.preview == Some(request.preview)
            &&& request.expected_generation == app.collection_editor->0.expected_generation
        },
        TaskView::Purge { key, request } => {
            &&& app.purge_dialog is Some
            &&& confirmed(app.purge_dialog->0)
        },
        TaskView::StartDump { key, preview } => app.dump_bootstrap_preview == Some(preview),
        TaskView::RemoveCollection { key, collection_id } => app.remove_confirmation == Some(
            collection_id,
        ),
        TaskView::Load { key, create } => create ==> app.privacy_acknowledged,
        _ => true,
    }
}

proof fn lemma_library_steps(app: AppView, message: LibraryMessage)
    ensures
        keeps_order(app, result_key(Message::Library(message)), library_updated(app, message)),
        keeps_library(app, result_key(Message::Library(message)), library_updated(app, message)),
        was_previewed(app, library_updated(app, message).1),
{
}

proof fn lemma_create_steps(app: AppView, message: CreateMessage)
    ensures
        keeps_order(app, result_key(Message::Create(message)), create_updated(app, message)),
        keeps_library(app, result_key(Message::Create(message)), create_updated(app, message)),
        was_previewed(app, create_updated(app, message).1),
{
}

proof fn lemma_edit_request_step(app: AppView)
    ensures
        keeps_order(app, None, edit_requested(app)),
        keeps_library(app, None, edit_requested(app)),
        was_previewed(app, edit_requested(app).1),
{
}

proof fn lemma_edit_opened_step(app: AppView, collection_id: u64)
    ensures
        keeps_order(app, None, edit_opened(app, collection_id)),
        keeps_library(app, None, edit_opened(app, collection_id)),
        was_previewed(app, edit_opened(app, collection_id).1),
{
}

proof fn lemma_edit_steps(app: AppView, message: EditMessage)
    ensures
        keeps_order(app, result_key(Message::Edit(message)), edit_updated(app, message)),
        keeps_library(app, result_key(Message::Edit(message)), edit_updated(app, message)),
        was_previewed(app, edit_updated(app, message).1),
{
    match message {
        EditMessage::Edit(collection_id) => lemma_edit_opened_step(app, collection_id@),
        EditMessage::Save => lemma_edit_request_step(app),
        _ => {},
    }
}

proof fn lemma_purge_steps(app: AppView, message: PurgeMessage)
    ensures
        keeps_order(app, result_key(Message::Purge(message)), purge_updated(app, message)),
        keeps_library(app, result_key(Message::Purge(message)), purge_updated(app, message)),
        was_previewed(app, purge_updated(app, message).1),
{
}

proof fn lemma_policy_steps(app: AppView, message: PolicyMessage)
    ensures
        keeps_order(app, result_key(Message::Policy(message)), policy_updated(app, message)),
        keeps_library(app, result_key(Message::Policy(message)), policy_updated(app, message)),
        was_previewed(app, policy_updated(app, message).1),
{
}

proof fn lemma_dump_steps(app: AppView, message: DumpMessage)
    ensures
        keeps_order(app, result_key(Message::Dump(message)), dump_updated(app, message)),
        keeps_library(app, result_key(Message::Dump(message)), dump_updated(app, message)),
        was_previewed(app, dump_updated(app, message).1),
{
}

proof fn lemma_trust_steps(app: AppView, message: TrustMessage)
    ensures
        keeps_order(app, result_key(Message::Trust(message)), trust_updated(app, message)),
        keeps_library(app, result_key(Message::Trust(message)), trust_updated(app, message)),
        was_previewed(app, trust_updated(app, message).1),
{
}

proof fn lemma_steps(app: AppView, message: Message)
    ensures
        keeps_order(app, result_key(message), updated(app, message)),
        keeps_library(app, result_key(message), updated(app, message)),
        was_previewed(app, updated(app, message).1),
{
    match message {
        Message::Library(message) => lemma_library_steps(app, message),
        Message::Create(message) => lemma_create_steps(app, message),
        Message::Edit(message) => lemma_edit_steps(app, message),
        Message::Purge(message) => lemma_purge_steps(app, message),
        Message::Policy(message) => lemma_policy_steps(app, message),
        Message::Dump(message) => lemma_dump_steps(app, message),
        Message::Trust(message) => lemma_trust_steps(app, message),
    }
}

/// A result that does not belong to the request that runs for the shown library changes
/// nothing and starts nothing.
pub proof fn law_stale_results_change_nothing(app: AppView, message: Message)
    requires
        result_key(message) matches Some(key) && !is_current(app, key),
    ensures
        updated(app, message) == (app, TaskView::Idle),
{
    lemma_steps(app, message);
}

/// While a request runs no other one starts: the request stays as it is or its own result
/// ends it, and no background work for the library is asked for.
pub proof fn law_one_request_runs_at_a_time(app: AppView, message: Message)
    requires
        !is_idle(app),
    ensures
        task_key(updated(app, message).1) is None,
        !(updated(app, message).1 is Probe),
        updated(app, message).0.next_request_id == app.next_request_id,
        updated(app, message).0.active_request == app.active_request || {
            &&& is_idle(updated(app, message).0)
            &&& result_key(message) matches Some(key)
            &&& is_current(app, key)
        },
{
    lemma_steps(app, message);
}

/// What a person does that has to wait while work runs. Results of work do not wait, nor do
/// the look at a path, the acknowledgement of privacy, the choice of a tab, and the reader
/// that already runs.
pub open spec fn waits_for_work(app: AppView, message: Message) -> bool {
    match message {
        Message::Library(LibraryMessage::PathProbed { .. }) => false,
        Message::Library(LibraryMessage::PrivacyAcknowledged(_)) => false,
        Message::Library(LibraryMessage::SelectTab(_)) => false,
        Message::Trust(TrustMessage::BrowserOpened { .. }) => false,
        Message::Trust(TrustMessage::OpenReader) => app.reader is None,
        _ => result_key(message) is None,
    }
}

/// While work runs, what a person does changes nothing and starts nothing.
pub proof fn law_actions_wait_for_work(app: AppView, message: Message)
    requires
        !is_idle(app),
        waits_for_work(app, message),
    ensures
        updated(app, message) == (app, TaskView::Idle),
{
}

/// A request runs exactly where background work for it was asked for, and it is the next
/// one.
pub proof fn law_requests_and_work_go_together(app: AppView, message: Message)
    requires
        is_idle(app),
    ensures
        updated(app, message).0.active_request == task_key(updated(app, message).1),
        task_key(updated(app, message).1) matches Some(key) ==> key.id == app.next_request_id,
{
    lemma_steps(app, message);
}

/// Identifiers are never drawn twice.
pub proof fn law_identifiers_are_not_reused(app: AppView, message: Message)
    requires
        is_numbered(app),
        draws_number(updated(app, message).1) ==> app.next_request_id < u64::MAX,
    ensures
        is_numbered(updated(app, message).0),
        app.next_request_id <= updated(app, message).0.next_request_id,
        task_key(updated(app, message).1) matches Some(key) ==> key.id >= app.next_request_id
            && key.id < updated(app, message).0.next_request_id,
{
    lemma_steps(app, message);
}

/// The library path cannot change while a request goes on.
pub proof fn law_path_is_fixed_during_work(app: AppView, message: Message)
    requires
        !is_idle(app),
        !is_idle(updated(app, message).0),
    ensures
        updated(app, message).0.library_path == app.library_path,
{
    lemma_steps(app, message);
}

/// A change of what is selected drops the preview that was made of it.
pub proof fn law_changed_scope_drops_its_preview(app: AppView, message: Message)
    requires
        is_idle(app),
    ensures
        message matches Message::Create(CreateMessage::FieldChanged(field)) ==> (decides_preview(
            field,
        ) ==> updated(app, message).0.selection_preview is None),
        message matches Message::Edit(EditMessage::FieldChanged(field)) ==> (decides_scope(field)
            ==> (updated(app, message).0.collection_editor matches Some(editor) ==> editor.preview
            is None)),
        message matches Message::Dump(DumpMessage::FieldChanged(field)) ==> updated(
            app,
            message,
        ).0.dump_bootstrap_preview is None,
{
}

/// Nothing durable is asked for without its preview and its confirmations: a collection is
/// created or edited only as it was previewed, a purge needs a confirmed dialog, a bootstrap
/// its preview, a removal its confirmation, and a new library the acknowledgement of privacy.
pub proof fn law_durable_work_was_previewed(app: AppView, message: Message)
    ensures
        was_previewed(app, updated(app, message).1),
{
    lemma_steps(app, message);
}

} // verus!
