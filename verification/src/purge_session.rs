//! The order in which purges are recovered, authorized and drained.
//!
//! A session decides which store operation comes next; its caller performs the operation
//! and hands the result back. Unfinished purges are always completed, oldest first, before
//! a new one is authorized.

use vstd::prelude::*;
use vstd::string::*;

use crate::error::{failure, FailureView, OperationError};
use crate::purge::{
    acknowledged, decode_purge_request, purge_request_decoding, require_acknowledgements,
    CollectionPurgeOutcome, CollectionPurgeRequest, PurgeCleanupProgress, PurgeRequestView,
};
use crate::text::{decimal, decimal_text, same_text};

verus! {

/// Largest page of unfinished purges read at once.
pub const RECOVERY_PAGE_SIZE: u32 = 1_000;

/// What one cleanup advance achieved.
#[derive(Clone, Copy, Debug, PartialEq, Eq, Structural)]
pub enum PurgeCleanupStep {
    Prepared,
    WholePackReady,
    ReplacementRequired,
    ReplacementReady,
    AuthorizedAbsenceCommitted,
    FilesRetired,
    Completed,
    AlreadyComplete,
}

/// What an authorized purge was asked for, as its manifest records it.
#[derive(Debug, PartialEq, Eq)]
pub struct PurgeManifest {
    pub collection_id: u64,
    pub collection_name: String,
    pub preview_fingerprint: String,
}

/// Plain view of a manifest.
pub struct ManifestView {
    pub collection_id: u64,
    pub collection_name: Seq<char>,
    pub preview_fingerprint: Seq<char>,
}

impl View for PurgeManifest {
    type V = ManifestView;

    open spec fn view(&self) -> ManifestView {
        ManifestView {
            collection_id: self.collection_id,
            collection_name: self.collection_name@,
            preview_fingerprint: self.preview_fingerprint@,
        }
    }
}

/// Result of one store operation.
#[derive(Debug, PartialEq, Eq)]
pub enum PurgeEvent {
    /// The identifiers of unfinished purges, oldest first.
    Unfinished(Vec<u64>),
    /// The manifest of the purge that was asked for.
    Manifest(PurgeManifest),
    /// One cleanup advance of the purge that was asked for.
    Resumed { step: PurgeCleanupStep, progress: PurgeCleanupProgress },
    /// The progress of the purge that was asked for.
    Progress(PurgeCleanupProgress),
    /// The identifier of the purge that was authorized.
    Authorized { purge_id: u64 },
    /// The store operation failed.
    Failed(String),
}

/// Plain view of an event.
pub enum PurgeEventView {
    Unfinished(Seq<u64>),
    Manifest(ManifestView),
    Resumed { step: PurgeCleanupStep, progress: PurgeCleanupProgress },
    Progress(PurgeCleanupProgress),
    Authorized { purge_id: u64 },
    Failed(Seq<char>),
}

impl View for PurgeEvent {
    type V = PurgeEventView;

    open spec fn view(&self) -> PurgeEventView {
        match self {
            PurgeEvent::Unfinished(ids) => PurgeEventView::Unfinished(ids@),
            PurgeEvent::Manifest(manifest) => PurgeEventView::Manifest(manifest@),
            PurgeEvent::Resumed { step, progress } => PurgeEventView::Resumed {
                step: *step,
                progress: *progress,
            },
            PurgeEvent::Progress(progress) => PurgeEventView::Progress(*progress),
            PurgeEvent::Authorized { purge_id } => PurgeEventView::Authorized {
                purge_id: *purge_id,
            },
            PurgeEvent::Failed(message) => PurgeEventView::Failed(message@),
        }
    }
}

/// What the store is asked next.
#[derive(Debug, PartialEq, Eq)]
pub enum PurgeAction {
    /// Read a page of unfinished purges.
    ReadUnfinished,
    /// Read the manifest of a purge.
    ReadManifest { purge_id: u64 },
    /// Advance the cleanup of a purge by one step.
    Resume { purge_id: u64 },
    /// Read the progress of a purge.
    ReadProgress { purge_id: u64 },
    /// Authorize the requested purge.
    Authorize,
    /// Every unfinished purge was completed.
    Recovered { completed: u64 },
    /// The requested purge was completed.
    Purged(CollectionPurgeOutcome),
    /// The session ends with a failure.
    Fail(OperationError),
}

/// Plain view of an action.
pub enum PurgeActionView {
    ReadUnfinished,
    ReadManifest { purge_id: u64 },
    Resume { purge_id: u64 },
    ReadProgress { purge_id: u64 },
    Authorize,
    Recovered { completed: u64 },
    Purged(CollectionPurgeOutcome),
    Fail(FailureView),
}

impl View for PurgeAction {
    type V = PurgeActionView;

    open spec fn view(&self) -> PurgeActionView {
        match self {
            PurgeAction::ReadUnfinished => PurgeActionView::ReadUnfinished,
            PurgeAction::ReadManifest { purge_id } => PurgeActionView::ReadManifest {
                purge_id: *purge_id,
            },
            PurgeAction::Resume { purge_id } => PurgeActionView::Resume { purge_id: *purge_id },
            PurgeAction::ReadProgress { purge_id } => PurgeActionView::ReadProgress {
                purge_id: *purge_id,
            },
            PurgeAction::Authorize => PurgeActionView::Authorize,
            PurgeAction::Recovered { completed } => PurgeActionView::Recovered {
                completed: *completed,
            },
            PurgeAction::Purged(outcome) => PurgeActionView::Purged(*outcome),
            PurgeAction::Fail(error) => PurgeActionView::Fail(error@),
        }
    }
}

/// What a session waits for.
#[derive(Clone, Copy, Debug, PartialEq, Eq, Structural)]
pub enum PurgePhase {
    /// A page of unfinished purges.
    Inventory,
    /// The manifest of the current unfinished purge.
    Manifest,
    /// A cleanup advance of the current unfinished purge.
    Draining,
    /// The progress of the unfinished purge that matched the request.
    Progress,
    /// The authorization of the requested purge.
    Authorizing,
    /// A cleanup advance of the requested purge.
    DrainingRequested { purge_id: u64 },
    /// Nothing more.
    Ended,
}

/// One recovery, or one requested purge after a recovery.
#[derive(Debug, PartialEq, Eq)]
pub struct PurgeSession {
    pub request: Option<CollectionPurgeRequest>,
    pub phase: PurgePhase,
    pub queue: Vec<u64>,
    pub position: usize,
    pub completed: u64,
    pub matching: Option<u64>,
}

/// Plain view of a session.
pub struct SessionView {
    pub request: Option<PurgeRequestView>,
    pub phase: PurgePhase,
    pub queue: Seq<u64>,
    pub position: int,
    pub completed: u64,
    pub matching: Option<u64>,
}

impl View for PurgeSession {
    type V = SessionView;

    open spec fn view(&self) -> SessionView {
        SessionView {
            request: match self.request {
                Some(request) => Some(request@),
                None => None,
            },
            phase: self.phase,
            queue: self.queue@,
            position: self.position as int,
            completed: self.completed,
            matching: self.matching,
        }
    }
}

/// While an unfinished purge is handled, the position names it.
pub open spec fn session_valid(session: SessionView) -> bool {
    session.phase is Manifest || session.phase is Draining ==> 0 <= session.position
        < session.queue.len()
}

/// The event that a phase waits for, or a failure.
pub open spec fn event_expected(session: SessionView, event: PurgeEventView) -> bool {
    event is Failed && !(session.phase is Ended) || match session.phase {
        PurgePhase::Inventory => event is Unfinished,
        PurgePhase::Manifest => event is Manifest,
        PurgePhase::Draining => event is Resumed,
        PurgePhase::Progress => event is Progress,
        PurgePhase::Authorizing => event is Authorized,
        PurgePhase::DrainingRequested { purge_id } => event is Resumed,
        PurgePhase::Ended => false,
    }
}

/// The manifest records exactly what the request asks for.
pub open spec fn manifest_matches(request: PurgeRequestView, manifest: ManifestView) -> bool {
    &&& manifest.collection_id == request.collection_id
    &&& manifest.collection_name == request.collection_name
    &&& manifest.preview_fingerprint == request.preview_fingerprint
}

pub open spec fn paused_message(purge_id: u64) -> Seq<char> {
    "collection purge "@ + decimal(purge_id as nat) + " paused safely for shutdown"@
}

pub open spec fn replacement_message(purge_id: u64) -> Seq<char> {
    "collection purge "@ + decimal(purge_id as nat)
        + " requires mixed-pack replacement support; startup and conflicting mutations fail closed"@
}

pub open spec fn session_failed(session: SessionView, message: Seq<char>) -> (
    SessionView,
    PurgeActionView,
) {
    (
        SessionView { phase: PurgePhase::Ended, ..session },
        PurgeActionView::Fail(failure(message)),
    )
}

/// Draining stops for shutdown before each cleanup advance.
pub open spec fn drain(session: SessionView, purge_id: u64, phase: PurgePhase, shutdown: bool) -> (
    SessionView,
    PurgeActionView,
) {
    if shutdown {
        session_failed(session, paused_message(purge_id))
    } else {
        (SessionView { phase, ..session }, PurgeActionView::Resume { purge_id })
    }
}

/// Begins the unfinished purge at the position of the session.
pub open spec fn begin_unfinished(session: SessionView, shutdown: bool) -> (
    SessionView,
    PurgeActionView,
) {
    let purge_id = session.queue[session.position];
    if session.request is Some {
        (
            SessionView { phase: PurgePhase::Manifest, ..session },
            PurgeActionView::ReadManifest { purge_id },
        )
    } else {
        drain(session, purge_id, PurgePhase::Draining, shutdown)
    }
}

/// What follows when nothing is unfinished any more.
pub open spec fn inventory_empty(session: SessionView) -> (SessionView, PurgeActionView) {
    if session.matching is Some {
        (
            SessionView { phase: PurgePhase::Progress, ..session },
            PurgeActionView::ReadProgress { purge_id: session.matching->0 },
        )
    } else if session.request is Some {
        (SessionView { phase: PurgePhase::Authorizing, ..session }, PurgeActionView::Authorize)
    } else {
        (
            SessionView { phase: PurgePhase::Ended, ..session },
            PurgeActionView::Recovered { completed: session.completed },
        )
    }
}

/// What follows the completion of one unfinished purge.
pub open spec fn next_unfinished(session: SessionView, shutdown: bool) -> (
    SessionView,
    PurgeActionView,
) {
    let counted = SessionView {
        completed: if session.completed < u64::MAX {
            (session.completed + 1) as u64
        } else {
            u64::MAX
        },
        position: session.position + 1,
        ..session
    };
    if counted.position < counted.queue.len() {
        begin_unfinished(counted, shutdown)
    } else {
        (
            SessionView { phase: PurgePhase::Inventory, ..counted },
            PurgeActionView::ReadUnfinished,
        )
    }
}

/// The cleanup has come to its end.
pub open spec fn step_completes(step: PurgeCleanupStep) -> bool {
    step is Completed || step is AlreadyComplete
}

/// The next state and action of a session.
pub open spec fn session_step(session: SessionView, event: PurgeEventView, shutdown: bool) -> (
    SessionView,
    PurgeActionView,
) {
    match event {
        PurgeEventView::Failed(message) => session_failed(session, message),
        PurgeEventView::Unfinished(ids) => if ids.len() == 0 {
            inventory_empty(session)
        } else {
            begin_unfinished(SessionView { queue: ids, position: 0, ..session }, shutdown)
        },
        PurgeEventView::Manifest(manifest) => {
            let purge_id = session.queue[session.position];
            let noted = if session.request is Some && manifest_matches(
                session.request->0,
                manifest,
            ) {
                SessionView { matching: Some(purge_id), ..session }
            } else {
                session
            };
            drain(noted, purge_id, PurgePhase::Draining, shutdown)
        },
        PurgeEventView::Resumed { step, progress } => match session.phase {
            PurgePhase::DrainingRequested { purge_id } => if step_completes(step) {
                (
                    SessionView { phase: PurgePhase::Ended, ..session },
                    PurgeActionView::Purged(CollectionPurgeOutcome { purge_id, progress }),
                )
            } else if step is ReplacementRequired {
                session_failed(session, replacement_message(purge_id))
            } else {
                drain(session, purge_id, session.phase, shutdown)
            },
            _ => {
                let purge_id = session.queue[session.position];
                if step_completes(step) {
                    next_unfinished(session, shutdown)
                } else if step is ReplacementRequired {
                    session_failed(session, replacement_message(purge_id))
                } else {
                    drain(session, purge_id, session.phase, shutdown)
                }
            },
        },
        PurgeEventView::Progress(progress) => (
            SessionView { phase: PurgePhase::Ended, ..session },
            PurgeActionView::Purged(
                CollectionPurgeOutcome { purge_id: progress.purge_id, progress },
            ),
        ),
        PurgeEventView::Authorized { purge_id } => drain(
            session,
            purge_id,
            PurgePhase::DrainingRequested { purge_id },
            shutdown,
        ),
    }
}

fn purge_message(purge_id: u64, rest: &str) -> (message: String)
    ensures
        message@ == "collection purge "@ + decimal(purge_id as nat) + rest@,
{
    String::from_str("collection purge ").concat(decimal_text(purge_id).as_str()).concat(rest)
}

impl PurgeSession {
    /// A session that completes every unfinished purge.
    pub fn recover_unfinished_purges() -> (session: PurgeSession)
        ensures
            session@ == (SessionView {
                request: None,
                phase: PurgePhase::Inventory,
                queue: Seq::empty(),
                position: 0,
                completed: 0,
                matching: None,
            }),
    {
        PurgeSession {
            request: None,
            phase: PurgePhase::Inventory,
            queue: Vec::new(),
            position: 0,
            completed: 0,
            matching: None,
        }
    }

    /// A session for a requested purge, which must be acknowledged in both respects.
    pub fn execute_collection_purge(payload: &[u8], shutdown: bool) -> (r: Result<
        PurgeSession,
        OperationError,
    >)
        ensures
            match purge_request_decoding(payload@) {
                Err(message) => r is Err && r->Err_0@ == failure(message),
                Ok(request) => if !acknowledged(request) {
                    r is Err && r->Err_0@ == failure(
                        "collection purge requires separate payload-only/audit-retention and external-copy acknowledgements"@,
                    )
                } else if shutdown {
                    r is Err && r->Err_0@ == failure(
                        "collection purge cancelled before authorization"@,
                    )
                } else {
                    r is Ok && r->Ok_0@ == (SessionView {
                        request: Some(request),
                        phase: PurgePhase::Inventory,
                        queue: Seq::empty(),
                        position: 0,
                        completed: 0,
                        matching: None,
                    })
                },
            },
    {
        let request = decode_purge_request(payload)?;
        require_acknowledgements(&request)?;
        if shutdown {
            return Err(OperationError::failed("collection purge cancelled before authorization"));
        }
        Ok(
            PurgeSession {
                request: Some(request),
                phase: PurgePhase::Inventory,
                queue: Vec::new(),
                position: 0,
                completed: 0,
                matching: None,
            },
        )
    }

    fn fail(&mut self, message: &str) -> (action: PurgeAction)
        ensures
            (final(self)@, action@) == session_failed(old(self)@, message@),
    {
        self.phase = PurgePhase::Ended;
        PurgeAction::Fail(OperationError::failed(message))
    }

    fn drain(&mut self, purge_id: u64, phase: PurgePhase, shutdown: bool) -> (action: PurgeAction)
        ensures
            (final(self)@, action@) == drain(old(self)@, purge_id, phase, shutdown),
    {
        if shutdown {
            let message = purge_message(purge_id, " paused safely for shutdown");
            self.fail(message.as_str())
        } else {
            self.phase = phase;
            PurgeAction::Resume { purge_id }
        }
    }

    fn begin_unfinished(&mut self, shutdown: bool) -> (action: PurgeAction)
        requires
            old(self).position < old(self).queue@.len(),
        ensures
            (final(self)@, action@) == begin_unfinished(old(self)@, shutdown),
    {
        let purge_id: u64 = self.queue[self.position];
        if self.request.is_some() {
            self.phase = PurgePhase::Manifest;
            PurgeAction::ReadManifest { purge_id }
        } else {
            self.drain(purge_id, PurgePhase::Draining, shutdown)
        }
    }

    fn after_unfinished(&mut self, shutdown: bool) -> (action: PurgeAction)
        requires
            old(self).position < old(self).queue@.len(),
        ensures
            (final(self)@, action@) == next_unfinished(old(self)@, shutdown),
    {
        let count: usize = self.queue.len();
        self.completed = self.completed.saturating_add(1);
        self.position = self.position + 1;
        if self.position < count {
            self.begin_unfinished(shutdown)
        } else {
            self.phase = PurgePhase::Inventory;
            PurgeAction::ReadUnfinished
        }
    }

    fn after_inventory(&mut self) -> (action: PurgeAction)
        ensures
            (final(self)@, action@) == inventory_empty(old(self)@),
    {
        match self.matching {
            Some(purge_id) => {
                self.phase = PurgePhase::Progress;
                PurgeAction::ReadProgress { purge_id }
            },
            None => {
                if self.request.is_some() {
                    self.phase = PurgePhase::Authorizing;
                    PurgeAction::Authorize
                } else {
                    self.phase = PurgePhase::Ended;
                    PurgeAction::Recovered { completed: self.completed }
                }
            },
        }
    }

    fn matches(&self, manifest: &PurgeManifest) -> (b: bool)
        ensures
            b == (self@.request is Some && manifest_matches(self@.request->0, manifest@)),
    {
        match &self.request {
            Some(request) => manifest.collection_id == request.collection_id.get() && same_text(
                manifest.collection_name.as_str(),
                request.collection_name.as_str(),
            ) && same_text(
                manifest.preview_fingerprint.as_str(),
                request.preview_fingerprint.as_str(),
            ),
            None => false,
        }
    }

    /// Takes the result of the last action and decides on the next one.
    pub fn advance(&mut self, event: PurgeEvent, shutdown: bool) -> (action: PurgeAction)
        requires
            session_valid(old(self)@),
            event_expected(old(self)@, event@),
        ensures
            (final(self)@, action@) == session_step(old(self)@, event@, shutdown),
            session_valid(final(self)@),
    {
        match event {
            PurgeEvent::Failed(message) => self.fail(message.as_str()),
            PurgeEvent::Unfinished(ids) => {
                if ids.len() == 0 {
                    self.after_inventory()
                } else {
                    self.queue = ids;
                    self.position = 0;
                    self.begin_unfinished(shutdown)
                }
            },
            PurgeEvent::Manifest(manifest) => {
                let purge_id: u64 = self.queue[self.position];
                if self.matches(&manifest) {
                    self.matching = Some(purge_id);
                }
                self.drain(purge_id, PurgePhase::Draining, shutdown)
            },
            PurgeEvent::Resumed { step, progress } => {
                let completes: bool = match step {
                    PurgeCleanupStep::Completed | PurgeCleanupStep::AlreadyComplete => true,
                    _ => false,
                };
                let stuck: bool = match step {
                    PurgeCleanupStep::ReplacementRequired => true,
                    _ => false,
                };
                let phase = self.phase;
                match phase {
                    PurgePhase::DrainingRequested { purge_id } => {
                        if completes {
                            self.phase = PurgePhase::Ended;
                            PurgeAction::Purged(CollectionPurgeOutcome { purge_id, progress })
                        } else if stuck {
                            let message = purge_message(
                                purge_id,
                                " requires mixed-pack replacement support; startup and conflicting mutations fail closed",
                            );
                            self.fail(message.as_str())
                        } else {
                            self.drain(purge_id, phase, shutdown)
                        }
                    },
                    _ => {
                        let purge_id: u64 = self.queue[self.position];
                        if completes {
                            self.after_unfinished(shutdown)
                        } else if stuck {
                            let message = purge_message(
                                purge_id,
                                " requires mixed-pack replacement support; startup and conflicting mutations fail closed",
                            );
                            self.fail(message.as_str())
                        } else {
                            self.drain(purge_id, phase, shutdown)
                        }
                    },
                }
            },
            PurgeEvent::Progress(progress) => {
                self.phase = PurgePhase::Ended;
                PurgeAction::Purged(
                    CollectionPurgeOutcome { purge_id: progress.purge_id, progress },
                )
            },
            PurgeEvent::Authorized { purge_id } => self.drain(
                purge_id,
                PurgePhase::DrainingRequested { purge_id },
                shutdown,
            ),
        }
    }
}

/// Nothing is authorized while a purge is unfinished, nor when the requested purge was
/// itself among the unfinished ones.
pub proof fn law_unfinished_purges_come_first(
    session: SessionView,
    event: PurgeEventView,
    shutdown: bool,
)
    requires
        session_valid(session),
        event_expected(session, event),
    ensures
        session_step(session, event, shutdown).1 is Authorize ==> event
            == PurgeEventView::Unfinished(Seq::empty()) && session.matching is None
            && session.request is Some,
{
    if session_step(session, event, shutdown).1 is Authorize {
        assert(event->Unfinished_0 =~= Seq::<u64>::empty());
    }
}

/// Once shutdown is requested no cleanup is advanced any further.
pub proof fn law_shutdown_pauses_cleanup(session: SessionView, event: PurgeEventView)
    requires
        session_valid(session),
        event_expected(session, event),
    ensures
        !(session_step(session, event, true).1 is Resume),
{
}

/// A session that ended does not continue, and every other one has a next event.
pub proof fn law_session_ends_with_its_answer(
    session: SessionView,
    event: PurgeEventView,
    shutdown: bool,
)
    requires
        session_valid(session),
        event_expected(session, event),
    ensures
        ({
            let (next, action) = session_step(session, event, shutdown);
            next.phase is Ended <==> action is Fail || action is Purged || action is Recovered
        }),
{
}

/// The purge that a draining session works on.
pub open spec fn drained_purge(session: SessionView) -> u64 {
    match session.phase {
        PurgePhase::DrainingRequested { purge_id } => purge_id,
        _ => session.queue[session.position],
    }
}

/// A purge counts as complete only when its cleanup says so. Cleanup that achieved anything
/// less goes on with the same purge, and cleanup that needs a replacement ends in a failure.
pub proof fn law_cleanup_goes_on_until_it_is_complete(
    session: SessionView,
    step: PurgeCleanupStep,
    progress: PurgeCleanupProgress,
    shutdown: bool,
)
    requires
        session_valid(session),
        session.phase is Draining || session.phase is DrainingRequested,
    ensures
        ({
            let (next, action) = session_step(
                session,
                PurgeEventView::Resumed { step, progress },
                shutdown,
            );
            let finished = step == PurgeCleanupStep::Completed || step
                == PurgeCleanupStep::AlreadyComplete;
            let purge_id = drained_purge(session);
            &&& action is Purged || next.completed != session.completed ==> finished
            &&& !finished ==> next.queue == session.queue && next.position == session.position
                && next.completed == session.completed && next.matching == session.matching
            &&& step == PurgeCleanupStep::ReplacementRequired ==> action is Fail
            &&& !finished && step != PurgeCleanupStep::ReplacementRequired && shutdown ==> action
                is Fail
            &&& !finished && step != PurgeCleanupStep::ReplacementRequired && !shutdown ==> action
                == PurgeActionView::Resume { purge_id } && next == session
            &&& finished && session.phase is DrainingRequested ==> action
                == PurgeActionView::Purged(CollectionPurgeOutcome { purge_id, progress })
            &&& finished && session.phase is Draining ==> next.position == session.position + 1
                && (session.completed < u64::MAX ==> next.completed == session.completed + 1)
        }),
{
}

/// A purge is answered as done only by the cleanup that completed it, or by the progress of
/// the unfinished purge that was the requested one; the answer repeats what was reported.
pub proof fn law_purge_answer_is_what_was_reported(
    session: SessionView,
    event: PurgeEventView,
    shutdown: bool,
)
    requires
        session_valid(session),
        event_expected(session, event),
    ensures
        session_step(session, event, shutdown).1 matches PurgeActionView::Purged(outcome) ==> {
            ||| event matches PurgeEventView::Resumed { step, progress } && session.phase
                == (PurgePhase::DrainingRequested { purge_id: outcome.purge_id })
                && outcome.progress == progress && (step == PurgeCleanupStep::Completed || step
                == PurgeCleanupStep::AlreadyComplete)
            ||| event matches PurgeEventView::Progress(progress) && session.phase is Progress
                && outcome.progress == progress && outcome.purge_id == progress.purge_id
        },
        event is Progress ==> session_step(session, event, shutdown).1 is Purged,
        event matches PurgeEventView::Failed(message) ==> session_step(
            session,
            event,
            shutdown,
        ).1 == PurgeActionView::Fail(failure(message)),
        session_step(session, event, shutdown).1 is Recovered ==> session.request is None && (
        event matches PurgeEventView::Unfinished(ids) && ids.len() == 0),
        session_step(session, event, shutdown).1 matches PurgeActionView::Recovered { completed }
            ==> completed == session.completed,
{
}

/// The unfinished purges are handled one after the other in the order in which they were
/// read; after the last one they are read again.
pub proof fn law_unfinished_purges_are_handled_in_order(
    session: SessionView,
    event: PurgeEventView,
)
    requires
        session_valid(session),
        event_expected(session, event),
        !(event is Failed),
    ensures
        ({
            let (next, action) = session_step(session, event, false);
            &&& event matches PurgeEventView::Unfinished(ids) ==> (ids.len() > 0 ==> next.queue
                == ids && next.position == 0 && action == if session.request is Some {
                PurgeActionView::ReadManifest { purge_id: ids[0] }
            } else {
                PurgeActionView::Resume { purge_id: ids[0] }
            })
            &&& session.phase is Manifest ==> next.phase is Draining && action
                == PurgeActionView::Resume { purge_id: session.queue[session.position] }
            &&& session.phase is Draining && next.completed != session.completed && session.position
                + 1 < session.queue.len() ==> action == if session.request is Some {
                PurgeActionView::ReadManifest { purge_id: session.queue[session.position + 1] }
            } else {
                PurgeActionView::Resume { purge_id: session.queue[session.position + 1] }
            }
            &&& session.phase is Draining && next.completed != session.completed && session.position
                + 1 == session.queue.len() ==> action == PurgeActionView::ReadUnfinished
            &&& event matches PurgeEventView::Authorized { purge_id } ==> action
                == (PurgeActionView::Resume { purge_id }) && next.phase
                == (PurgePhase::DrainingRequested { purge_id })
        }),
{
}

/// An unfinished purge stands for the requested one exactly when it was authorized for the
/// same collection, name and preview; then it is reported, and nothing new is authorized.
pub proof fn law_only_the_same_purge_is_taken_over(
    session: SessionView,
    request: PurgeRequestView,
    manifest: ManifestView,
    shutdown: bool,
)
    requires
        session_valid(session),
        session.phase is Manifest,
        session.request == Some(request),
        session.matching is None,
    ensures
        ({
            let noted = session_step(session, PurgeEventView::Manifest(manifest), shutdown).0;
            let same = manifest.collection_id == request.collection_id && manifest.collection_name
                == request.collection_name && manifest.preview_fingerprint
                == request.preview_fingerprint;
            &&& noted.matching == if same {
                Some(session.queue[session.position])
            } else {
                None
            }
        }),
        forall|later: SessionView|
            #![trigger session_step(later, PurgeEventView::Unfinished(Seq::empty()), shutdown)]
            ({
                let action = session_step(
                    later,
                    PurgeEventView::Unfinished(Seq::empty()),
                    shutdown,
                ).1;
                &&& later.matching matches Some(purge_id) ==> action
                    == PurgeActionView::ReadProgress { purge_id }
                &&& later.matching is None && later.request is Some ==> action is Authorize
            }),
{
}

/// A purge is begun only from a request that can be read and that acknowledges both
/// consequences, and not while the daemon stops. It begins with the unfinished ones.
pub proof fn law_purge_begins_acknowledged(
    payload: Seq<u8>,
    bytes: &[u8],
    shutdown: bool,
    r: Result<PurgeSession, OperationError>,
)
    requires
        bytes@ == payload,
        call_ensures(PurgeSession::execute_collection_purge, (bytes, shutdown), r),
    ensures
        r is Ok <==> !shutdown && (purge_request_decoding(payload) matches Ok(request)
            && request.payload_only_acknowledged
            && request.external_copies_not_erased_acknowledged),
        r matches Ok(session) ==> session@.phase is Inventory && session@.matching is None
            && session@.completed == 0 && session@.request == Some(
            purge_request_decoding(payload)->Ok_0,
        ),
{
}

} // verus!
