//! Signing keys, verification and the offline reader in the desktop application.

use vstd::prelude::*;
use vstd::string::*;

use crate::anchors::{artifact_path, explicit_artifact_path, ArtifactProbe};
use crate::desktop::{
    draws_number, is_current, is_idle, next_key, noticed, problem, released, requested, success,
    App, AppView, FullVerificationReport, NoticeKind, NoticeView, RequestKey, Task, TaskView, VerificationKind,
    VerificationState, VerificationView,
};
use crate::text::trimmed;

verus! {

/// What concerns keys, verification and the reader. A message that needs a file outside the
/// library brings what the filesystem tells of it.
#[derive(Debug, PartialEq, Eq)]
pub enum TrustMessage {
    SigningKeyPathChanged(String),
    TrustedHeadPathChanged(String),
    GenerateSigningKey(ArtifactProbe),
    SigningKeyGenerated { key: RequestKey, result: Result<String, String> },
    ValidateSigningKey(ArtifactProbe),
    SigningKeyValidated { key: RequestKey, result: Result<String, String> },
    RefreshTrustedHead { signing_key: ArtifactProbe, trusted_head: ArtifactProbe },
    TrustedHeadRefreshed {
        key: RequestKey,
        result: Result<(FullVerificationReport, String), String>,
    },
    VerifyFull,
    VerifyTrustedHead(ArtifactProbe),
    VerificationFinished { key: RequestKey, result: Result<FullVerificationReport, String> },
    OpenReader,
    /// The reader runs at an address, or could not be started.
    ReaderStarted { key: RequestKey, result: Result<String, String> },
    /// The browser was asked to show the reader.
    BrowserOpened { url: String, started: bool, result: Result<(), String> },
}

/// What artifacts are called.
pub const SIGNING_KEY_LABEL: &'static str = "Signing key";

pub const TRUSTED_HEAD_LABEL: &'static str = "Trusted-head anchor";

/// The notice of a result that tells its own story.
pub open spec fn told(result: Result<String, String>) -> Option<NoticeView> {
    match result {
        Ok(summary) => success(summary@),
        Err(message) => problem(message@),
    }
}

/// The notice after the browser was asked to show the reader.
pub open spec fn browser_notice(url: Seq<char>, started: bool, result: Result<(), String>) -> Option<
    NoticeView,
> {
    match result {
        Ok(()) => if started {
            success("Offline reader is running at "@ + url)
        } else {
            success("Opened the local offline reader."@)
        },
        Err(error) => if started {
            problem(
                "Reader is running at "@ + url + ", but the browser could not be opened: "@
                    + error@,
            )
        } else {
            problem(error@)
        },
    }
}

/// How the request to refresh the trusted head changes the application.
pub open spec fn refresh_requested(
    app: AppView,
    signing_key: ArtifactProbe,
    trusted_head: ArtifactProbe,
) -> (AppView, TaskView) {
    if !is_idle(app) {
        (app, TaskView::Idle)
    } else {
        match artifact_path(app.signing_key_path, SIGNING_KEY_LABEL@, signing_key) {
            Err(message) => (noticed(app, problem(message)), TaskView::Idle),
            Ok(signing_key_path) => match artifact_path(
                app.trusted_head_path,
                TRUSTED_HEAD_LABEL@,
                trusted_head,
            ) {
                Err(message) => (noticed(app, problem(message)), TaskView::Idle),
                Ok(trusted_head_path) => (
                    requested(
                        AppView {
                            verification: VerificationView::Running(
                                VerificationKind::AnchorRefresh,
                            ),
                            notice: None,
                            ..app
                        },
                        app.library_path,
                    ),
                    TaskView::RefreshTrustedHead {
                        key: next_key(app, app.library_path),
                        signing_key_path,
                        trusted_head_path,
                    },
                ),
            },
        }
    }
}

/// How the request to show the reader changes the application.
pub open spec fn reader_requested(app: AppView) -> (AppView, TaskView) {
    match app.reader {
        Some(url) => (app, TaskView::OpenBrowser { url, started: false }),
        None => if !is_idle(app) {
            (app, TaskView::Idle)
        } else {
            (
                requested(app, app.library_path),
                TaskView::StartReader(next_key(app, app.library_path)),
            )
        },
    }
}

/// How a message on trust changes the application and what it asks for.
pub open spec fn trust_updated(app: AppView, message: TrustMessage) -> (AppView, TaskView) {
    match message {
        TrustMessage::SigningKeyPathChanged(path) => if !is_idle(app) {
            (app, TaskView::Idle)
        } else {
            (AppView { signing_key_path: path@, ..app }, TaskView::Idle)
        },
        TrustMessage::TrustedHeadPathChanged(path) => if !is_idle(app) {
            (app, TaskView::Idle)
        } else {
            (AppView { trusted_head_path: path@, ..app }, TaskView::Idle)
        },
        TrustMessage::GenerateSigningKey(probe) => if !is_idle(app) {
            (app, TaskView::Idle)
        } else {
            match artifact_path(app.signing_key_path, SIGNING_KEY_LABEL@, probe) {
                Err(message) => (noticed(app, problem(message)), TaskView::Idle),
                Ok(path) => (
                    requested(noticed(app, None), app.library_path),
                    TaskView::GenerateSigningKey { key: next_key(app, app.library_path), path },
                ),
            }
        },
        TrustMessage::SigningKeyGenerated { key, result } => if !is_current(app, key@) {
            (app, TaskView::Idle)
        } else {
            (noticed(released(app), told(result)), TaskView::Idle)
        },
        TrustMessage::ValidateSigningKey(probe) => if !is_idle(app) {
            (app, TaskView::Idle)
        } else {
            match artifact_path(app.signing_key_path, SIGNING_KEY_LABEL@, probe) {
                Err(message) => (noticed(app, problem(message)), TaskView::Idle),
                Ok(path) => (
                    requested(noticed(app, None), app.library_path),
                    TaskView::ValidateSigningKey { key: next_key(app, app.library_path), path },
                ),
            }
        },
        TrustMessage::SigningKeyValidated { key, result } => if !is_current(app, key@) {
            (app, TaskView::Idle)
        } else {
            (noticed(released(app), told(result)), TaskView::Idle)
        },
        TrustMessage::RefreshTrustedHead { signing_key, trusted_head } => refresh_requested(
            app,
            signing_key,
            trusted_head,
        ),
        TrustMessage::TrustedHeadRefreshed { key, result } => if !is_current(app, key@) {
            (app, TaskView::Idle)
        } else {
            match result {
                Ok((report, summary)) => (
                    AppView {
                        verification: VerificationView::Complete(report),
                        notice: success(summary@),
                        ..released(app)
                    },
                    TaskView::Idle,
                ),
                Err(message) => (
                    AppView {
                        verification: VerificationView::Failed(message@),
                        notice: problem(message@),
                        ..released(app)
                    },
                    TaskView::Idle,
                ),
            }
        },
        TrustMessage::VerifyFull => if !is_idle(app) {
            (app, TaskView::Idle)
        } else {
            (
                requested(
                    AppView {
                        verification: VerificationView::Running(VerificationKind::Local),
                        notice: None,
                        ..app
                    },
                    app.library_path,
                ),
                TaskView::Verify(next_key(app, app.library_path)),
            )
        },
        TrustMessage::VerifyTrustedHead(probe) => if !is_idle(app) {
            (app, TaskView::Idle)
        } else {
            match artifact_path(app.trusted_head_path, TRUSTED_HEAD_LABEL@, probe) {
                Err(message) => (noticed(app, problem(message)), TaskView::Idle),
                Ok(path) => (
                    requested(
                        AppView {
                            verification: VerificationView::Running(VerificationKind::TrustedHead),
                            notice: None,
                            ..app
                        },
                        app.library_path,
                    ),
                    TaskView::VerifyTrustedHead { key: next_key(app, app.library_path), path },
                ),
            }
        },
        TrustMessage::VerificationFinished { key, result } => if !is_current(app, key@) {
            (app, TaskView::Idle)
        } else {
            (
                AppView {
                    verification: match result {
                        Ok(report) => VerificationView::Complete(report),
                        Err(message) => VerificationView::Failed(message@),
                    },
                    ..released(app)
                },
                TaskView::Idle,
            )
        },
        TrustMessage::OpenReader => reader_requested(app),
        TrustMessage::ReaderStarted { key, result } => if !is_current(app, key@) {
            (app, TaskView::Idle)
        } else {
            match result {
                Ok(url) => (
                    AppView { reader: Some(url@), ..released(app) },
                    TaskView::OpenBrowser { url: url@, started: true },
                ),
                Err(message) => (noticed(released(app), problem(message@)), TaskView::Idle),
            }
        },
        TrustMessage::BrowserOpened { url, started, result } => (
            noticed(app, browser_notice(url@, started, result)),
            TaskView::Idle,
        ),
    }
}

impl App {
    fn generate_signing_key(&mut self, probe: ArtifactProbe) -> (task: Task)
        requires
            draws_number(
                trust_updated(
                old(self)@,
                TrustMessage::GenerateSigningKey(probe),
            ).1,
            ) ==> old(self)@.next_request_id < u64::MAX,
        ensures
            (final(self)@, task@) == trust_updated(
                old(self)@,
                TrustMessage::GenerateSigningKey(probe),
            ),
    {
        if self.is_busy() {
            return Task::Idle;
        }
        match explicit_artifact_path(self.signing_key_path.as_str(), SIGNING_KEY_LABEL, probe) {
            Ok(path) => {
                self.notice = None;
                let library = self.library_path.clone();
                let key = self.begin_request(library);
                Task::GenerateSigningKey { key, path }
            },
            Err(message) => {
                self.report(message);
                Task::Idle
            },
        }
    }

    fn validate_signing_key(&mut self, probe: ArtifactProbe) -> (task: Task)
        requires
            draws_number(
                trust_updated(
                old(self)@,
                TrustMessage::ValidateSigningKey(probe),
            ).1,
            ) ==> old(self)@.next_request_id < u64::MAX,
        ensures
            (final(self)@, task@) == trust_updated(
                old(self)@,
                TrustMessage::ValidateSigningKey(probe),
            ),
    {
        if self.is_busy() {
            return Task::Idle;
        }
        match explicit_artifact_path(self.signing_key_path.as_str(), SIGNING_KEY_LABEL, probe) {
            Ok(path) => {
                self.notice = None;
                let library = self.library_path.clone();
                let key = self.begin_request(library);
                Task::ValidateSigningKey { key, path }
            },
            Err(message) => {
                self.report(message);
                Task::Idle
            },
        }
    }

    fn refresh_trusted_head(
        &mut self,
        signing_key: ArtifactProbe,
        trusted_head: ArtifactProbe,
    ) -> (task: Task)
        requires
            draws_number(
                refresh_requested(old(self)@, signing_key, trusted_head).1,
            ) ==> old(self)@.next_request_id < u64::MAX,
        ensures
            (final(self)@, task@) == refresh_requested(old(self)@, signing_key, trusted_head),
    {
        if self.is_busy() {
            return Task::Idle;
        }
        let signing_key_path = match explicit_artifact_path(
            self.signing_key_path.as_str(),
            SIGNING_KEY_LABEL,
            signing_key,
        ) {
            Ok(path) => path,
            Err(message) => {
                self.report(message);
                return Task::Idle;
            },
        };
        let trusted_head_path = match explicit_artifact_path(
            self.trusted_head_path.as_str(),
            TRUSTED_HEAD_LABEL,
            trusted_head,
        ) {
            Ok(path) => path,
            Err(message) => {
                self.report(message);
                return Task::Idle;
            },
        };
        self.verification = VerificationState::Running(VerificationKind::AnchorRefresh);
        self.notice = None;
        let library = self.library_path.clone();
        let key = self.begin_request(library);
        Task::RefreshTrustedHead { key, signing_key_path, trusted_head_path }
    }

    fn verify_trusted_head(&mut self, probe: ArtifactProbe) -> (task: Task)
        requires
            draws_number(
                trust_updated(
                old(self)@,
                TrustMessage::VerifyTrustedHead(probe),
            ).1,
            ) ==> old(self)@.next_request_id < u64::MAX,
        ensures
            (final(self)@, task@) == trust_updated(
                old(self)@,
                TrustMessage::VerifyTrustedHead(probe),
            ),
    {
        if self.is_busy() {
            return Task::Idle;
        }
        match explicit_artifact_path(self.trusted_head_path.as_str(), TRUSTED_HEAD_LABEL, probe) {
            Ok(path) => {
                self.verification = VerificationState::Running(VerificationKind::TrustedHead);
                self.notice = None;
                let library = self.library_path.clone();
                let key = self.begin_request(library);
                Task::VerifyTrustedHead { key, path }
            },
            Err(message) => {
                self.report(message);
                Task::Idle
            },
        }
    }

    fn tell(&mut self, result: Result<String, String>)
        ensures
            final(self)@ == noticed(old(self)@, told(result)),
    {
        match result {
            Ok(summary) => self.confirm(summary.as_str()),
            Err(message) => self.report(message),
        }
    }

    fn open_reader(&mut self) -> (task: Task)
        requires
            draws_number(
                reader_requested(old(self)@).1,
            ) ==> old(self)@.next_request_id < u64::MAX,
        ensures
            (final(self)@, task@) == reader_requested(old(self)@),
    {
        if let Some(url) = &self.reader {
            return Task::OpenBrowser { url: url.clone(), started: false };
        }
        if self.is_busy() {
            return Task::Idle;
        }
        let library = self.library_path.clone();
        let key = self.begin_request(library);
        Task::StartReader(key)
    }

    fn browser_opened(&mut self, url: String, started: bool, result: Result<(), String>)
        ensures
            final(self)@ == noticed(old(self)@, browser_notice(url@, started, result)),
    {
        match result {
            Ok(()) => {
                if started {
                    let mut message = "Offline reader is running at ".to_owned();
                    message.append(url.as_str());
                    self.confirm(message.as_str());
                } else {
                    self.confirm("Opened the local offline reader.");
                }
            },
            Err(error) => {
                if started {
                    let mut message = "Reader is running at ".to_owned();
                    message.append(url.as_str());
                    message.append(", but the browser could not be opened: ");
                    message.append(error.as_str());
                    self.report(message);
                } else {
                    self.report(error);
                }
            },
        }
    }

    /// Takes a message on trust.
    #[verifier::rlimit(60)]
    pub fn update_trust(&mut self, message: TrustMessage) -> (task: Task)
        requires
            draws_number(
                trust_updated(old(self)@, message).1,
            ) ==> old(self)@.next_request_id < u64::MAX,
        ensures
            (final(self)@, task@) == trust_updated(old(self)@, message),
    {
        match message {
            TrustMessage::SigningKeyPathChanged(path) => {
                if !self.is_busy() {
                    self.signing_key_path = path;
                }
                Task::Idle
            },
            TrustMessage::TrustedHeadPathChanged(path) => {
                if !self.is_busy() {
                    self.trusted_head_path = path;
                }
                Task::Idle
            },
            TrustMessage::GenerateSigningKey(probe) => self.generate_signing_key(probe),
            TrustMessage::SigningKeyGenerated { key, result } => {
                if self.finish_request(&key) {
                    self.tell(result);
                }
                Task::Idle
            },
            TrustMessage::ValidateSigningKey(probe) => self.validate_signing_key(probe),
            TrustMessage::SigningKeyValidated { key, result } => {
                if self.finish_request(&key) {
                    self.tell(result);
                }
                Task::Idle
            },
            TrustMessage::RefreshTrustedHead {
                signing_key,
                trusted_head,
            } => self.refresh_trusted_head(signing_key, trusted_head),
            TrustMessage::TrustedHeadRefreshed { key, result } => {
                if !self.finish_request(&key) {
                    return Task::Idle;
                }
                match result {
                    Ok((report, summary)) => {
                        self.verification = VerificationState::Complete(report);
                        self.confirm(summary.as_str());
                    },
                    Err(message) => {
                        self.verification = VerificationState::Failed(message.clone());
                        self.report(message);
                    },
                }
                Task::Idle
            },
            TrustMessage::VerifyFull => {
                if self.is_busy() {
                    return Task::Idle;
                }
                self.verification = VerificationState::Running(VerificationKind::Local);
                self.notice = None;
                let library = self.library_path.clone();
                let key = self.begin_request(library);
                Task::Verify(key)
            },
            TrustMessage::VerifyTrustedHead(probe) => self.verify_trusted_head(probe),
            TrustMessage::VerificationFinished { key, result } => {
                if !self.finish_request(&key) {
                    return Task::Idle;
                }
                self.verification =
                match result {
                    Ok(report) => VerificationState::Complete(report),
                    Err(message) => VerificationState::Failed(message),
                };
                Task::Idle
            },
            TrustMessage::OpenReader => self.open_reader(),
            TrustMessage::ReaderStarted { key, result } => {
                if !self.finish_request(&key) {
                    return Task::Idle;
                }
                match result {
                    Ok(url) => {
                        self.reader = Some(url.clone());
                        Task::OpenBrowser { url, started: true }
                    },
                    Err(message) => {
                        self.report(message);
                        Task::Idle
                    },
                }
            },
            TrustMessage::BrowserOpened { url, started, result } => {
                self.browser_opened(url, started, result);
                Task::Idle
            },
        }
    }
}

/// Work with a key or an anchor is asked for exactly where its stated path resolves outside the
/// library, with that very path; otherwise the reason is told.
pub proof fn law_key_work_uses_the_stated_paths(app: AppView, probe: ArtifactProbe, other: ArtifactProbe)
    requires
        app.active_request is None,
    ensures
        ({
            let key_path = artifact_path(app.signing_key_path, "Signing key"@, probe);
            let head_path = artifact_path(app.trusted_head_path, "Trusted-head anchor"@, other);
            let generated = trust_updated(app, TrustMessage::GenerateSigningKey(probe)).1;
            let validated = trust_updated(app, TrustMessage::ValidateSigningKey(probe)).1;
            let compared = trust_updated(app, TrustMessage::VerifyTrustedHead(other)).1;
            let refreshed = trust_updated(
                app,
                TrustMessage::RefreshTrustedHead { signing_key: probe, trusted_head: other },
            ).1;
            &&& key_path matches Ok(path) ==> (generated matches TaskView::GenerateSigningKey {
                key,
                path: asked,
            } && asked == path)
            &&& key_path matches Ok(path) ==> (validated matches TaskView::ValidateSigningKey {
                key,
                path: asked,
            } && asked == path)
            &&& key_path is Err ==> generated is Idle && validated is Idle && refreshed is Idle
            &&& head_path matches Ok(path) ==> (compared matches TaskView::VerifyTrustedHead {
                key,
                path: asked,
            } && asked == path)
            &&& head_path is Err ==> compared is Idle && refreshed is Idle
            &&& key_path is Ok && head_path is Ok ==> (
            refreshed matches TaskView::RefreshTrustedHead {
                key,
                signing_key_path,
                trusted_head_path,
            } && signing_key_path == key_path->Ok_0 && trusted_head_path == head_path->Ok_0)
        }),
{
}

/// A verification shows as running, of its own kind, from the moment it is asked for, and as
/// what it came to when it ends.
pub proof fn law_verifications_show_what_they_came_to(
    app: AppView,
    idle: AppView,
    key: RequestKey,
    result: Result<FullVerificationReport, String>,
    refreshed: Result<(FullVerificationReport, String), String>,
)
    requires
        idle.active_request is None,
        app.active_request matches Some(active) && active.id == key.id && active.path == key.path@
            && key.path@ == trimmed(app.library_path),
    ensures
        ({
            let (after, task) = trust_updated(idle, TrustMessage::VerifyFull);
            &&& task matches TaskView::Verify(asked) && after.active_request == Some(asked)
            &&& after.verification == VerificationView::Running(VerificationKind::Local)
        }),
        ({
            let after = trust_updated(app, TrustMessage::VerificationFinished { key, result }).0;
            &&& after.active_request is None
            &&& result matches Ok(report) ==> after.verification == VerificationView::Complete(
                report,
            )
            &&& result matches Err(message) ==> after.verification == VerificationView::Failed(
                message@,
            )
        }),
        ({
            let after = trust_updated(
                app,
                TrustMessage::TrustedHeadRefreshed { key, result: refreshed },
            ).0;
            &&& after.active_request is None
            &&& refreshed matches Ok((report, summary)) ==> after.verification
                == VerificationView::Complete(report) && (after.notice matches Some(notice)
                && notice.message == summary@ && notice.kind == NoticeKind::Success)
            &&& refreshed matches Err(message) ==> after.verification == VerificationView::Failed(
                message@,
            ) && (after.notice matches Some(notice) && notice.message == message@ && notice.kind
                == NoticeKind::Error)
        }),
{
}

/// Key work tells its own story, as a success or as a problem.
pub proof fn law_key_work_tells_its_story(
    app: AppView,
    key: RequestKey,
    result: Result<String, String>,
)
    requires
        app.active_request matches Some(active) && active.id == key.id && active.path == key.path@
            && key.path@ == trimmed(app.library_path),
    ensures
        ({
            let generated = trust_updated(
                app,
                TrustMessage::SigningKeyGenerated { key, result },
            ).0.notice;
            let validated = trust_updated(
                app,
                TrustMessage::SigningKeyValidated { key, result },
            ).0.notice;
            &&& result matches Ok(summary) ==> generated == Some(
                NoticeView { message: summary@, kind: NoticeKind::Success },
            )
            &&& result matches Err(message) ==> generated == Some(
                NoticeView { message: message@, kind: NoticeKind::Error },
            )
            &&& validated == generated
        }),
{
}

/// A reader that runs is shown and never started twice; one that was started is shown at its
/// address, and what the browser said is told.
pub proof fn law_one_reader_runs(
    app: AppView,
    key: RequestKey,
    result: Result<String, String>,
    url: String,
    started: bool,
    opened: Result<(), String>,
)
    ensures
        ({
            let (after, task) = trust_updated(app, TrustMessage::OpenReader);
            match app.reader {
                Some(address) => task == (TaskView::OpenBrowser { url: address, started: false })
                    && after == app,
                None => if app.active_request is None {
                    task matches TaskView::StartReader(asked) && after.active_request == Some(asked)
                } else {
                    task is Idle
                },
            }
        }),
        app.active_request matches Some(active) ==> (active.id == key.id && active.path == key.path@
            && key.path@ == trimmed(app.library_path) ==> {
            let (after, task) = trust_updated(app, TrustMessage::ReaderStarted { key, result });
            &&& after.active_request is None
            &&& result matches Ok(address) ==> after.reader == Some(address@) && task == (
            TaskView::OpenBrowser { url: address@, started: true })
            &&& result is Err ==> after.reader == app.reader && task is Idle
        }),
        ({
            let after = trust_updated(
                app,
                TrustMessage::BrowserOpened { url, started, result: opened },
            ).0;
            after.notice matches Some(notice) && (notice.kind == NoticeKind::Success <==> opened
                is Ok) && after.reader == app.reader && after.active_request == app.active_request
        }),
{
}

/// A changed path replaces that path alone, while nothing runs.
pub proof fn law_artifact_paths_are_kept_apart(app: AppView, path: String)
    requires
        app.active_request is None,
    ensures
        ({
            let key = trust_updated(app, TrustMessage::SigningKeyPathChanged(path)).0;
            let head = trust_updated(app, TrustMessage::TrustedHeadPathChanged(path)).0;
            &&& key.signing_key_path == path@ && key.trusted_head_path == app.trusted_head_path
            &&& head.trusted_head_path == path@ && head.signing_key_path == app.signing_key_path
        }),
{
}

} // verus!
