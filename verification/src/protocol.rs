//! Versioned request and response envelopes of the local control plane.
//!
//! Each envelope is a magic, a protocol version, a request identifier and a tagged body.

use vstd::prelude::*;
use vstd::string::*;

use crate::collection::{CollectionAdministrationOutcome, CollectionOutcomeView};
use crate::error::{FailureView, ResponseError};
use crate::source::{
    SourceAdministration, SourceAdministrationOutcome, SourceOutcomeView, SourceView,
};
use crate::wire::to_vec;

verus! {

/// Current on-wire request and response contract version.
pub const PROTOCOL_VERSION: u16 = 2;

/// Oldest on-wire contract still accepted by the daemon.
pub const MIN_PROTOCOL_VERSION: u16 = 1;

/// Largest accepted request or response frame, excluding its four-byte length.
pub const MAX_FRAME_BYTES: usize = 65_536;

/// Largest opaque mutation payload.
pub const MAX_MUTATION_PAYLOAD_BYTES: usize = 61_440;

/// Largest chunk used to stage one collection-administration draft.
pub const MAX_COLLECTION_DRAFT_CHUNK_BYTES: usize = 4_096;

/// Largest complete staged collection draft after joining bounded chunks.
pub const MAX_COLLECTION_DRAFT_BYTES: usize = 16_777_216;

/// Largest text field of an envelope.
pub const MAX_STRING_BYTES: usize = 4_096;

/// First bytes of a request, `WKSR`.
pub open spec fn request_magic() -> Seq<u8> {
    seq![0x57u8, 0x4bu8, 0x53u8, 0x52u8]
}

/// First bytes of a response, `WKSP`.
pub open spec fn response_magic() -> Seq<u8> {
    seq![0x57u8, 0x4bu8, 0x53u8, 0x50u8]
}

/// A versioned request envelope.
#[derive(Debug, PartialEq, Eq)]
pub struct Request {
    /// Protocol contract used to encode this request.
    pub protocol_version: u16,
    /// Caller-selected identifier copied into the response.
    pub request_id: u64,
    /// Requested read or mutation operation.
    pub kind: RequestKind,
}

/// Operations accepted by the daemon.
#[derive(Debug, PartialEq, Eq)]
pub enum RequestKind {
    /// Cheap liveness and contract-version check; never mutates the library.
    Health,
    /// Current daemon and handler status; never mutates the library.
    Status,
    /// Forward one serialized writer operation to the daemon.
    Mutate(Mutation),
    /// Stop accepting work after the current request completes.
    Shutdown,
    /// Stage or apply a bounded collection-administration operation; version 2.
    CollectionAdmin(CollectionAdminRequest),
    /// Apply a bounded source registration or safe source removal; version 2.
    SourceAdmin(SourceAdministration),
}

/// Low-level protocol operations for one bounded collection-administration draft.
#[derive(Debug, PartialEq, Eq)]
pub enum CollectionAdminRequest {
    /// Starts an in-memory draft upload and returns an opaque token.
    Begin { total_bytes: u32 },
    /// Appends the next ordered chunk to the active draft.
    Append {
        /// Opaque token returned by `Begin`.
        token: u64,
        /// Required byte offset; duplicate and out-of-order chunks are rejected.
        offset: u32,
        /// Bounded encoded draft bytes.
        bytes: Vec<u8>,
    },
    /// Validates and estimates the complete staged draft without consuming it.
    Estimate { token: u64 },
    /// Atomically creates a collection from the complete staged draft.
    Add { token: u64 },
    /// Atomically replaces an active collection from the complete staged draft.
    Edit { token: u64, collection_id: u64, expected_generation: u64 },
    /// Tombstones one collection while preserving historical evidence.
    Remove { collection_id: u64 },
    /// Drops the active non-durable staging draft.
    Abort { token: u64 },
}

/// Stable shapes for operations that must run under exclusive writer ownership.
#[derive(Debug, PartialEq, Eq)]
pub enum Mutation {
    /// Synchronize every configured collection.
    SyncAll,
    /// Synchronize one durable collection identity.
    SyncCollection(u64),
    /// Verify logical objects, optionally requesting complete coverage.
    Verify { full: bool },
    /// Compact immutable object storage without changing logical identities.
    Compact,
    /// A bounded extension point for operations added by application-service code.
    Extension { name: String, payload: Vec<u8> },
}

/// A versioned response envelope.
#[derive(Debug, PartialEq, Eq)]
pub struct Response {
    /// Protocol contract used to encode this response.
    pub protocol_version: u16,
    /// Identifier from the corresponding request, or zero if it could not be read.
    pub request_id: u64,
    /// Successful result or structured failure.
    pub kind: ResponseKind,
}

/// Results returned by the daemon.
#[derive(Debug, PartialEq, Eq)]
pub enum ResponseKind {
    /// Liveness information for a compatible daemon.
    Health(Health),
    /// Read-only daemon and application-service status.
    Status(DaemonStatus),
    /// Completed mutation result. Receipt means the handler actually succeeded.
    Mutated(MutationOutcome),
    /// Graceful shutdown was accepted.
    ShutdownAccepted,
    /// Result of one collection administration step; version 2.
    CollectionAdmin(CollectionAdminProtocolOutcome),
    /// Result of one source-administration operation; version 2.
    SourceAdmin(SourceAdministrationOutcome),
    /// Structured rejection. Unsupported operations use `ErrorCode::Unsupported`.
    Error(ResponseError),
}

/// Low-level results for collection draft staging and administration.
#[derive(Clone, Copy, Debug, PartialEq, Eq, Structural)]
pub enum CollectionAdminProtocolOutcome {
    /// A new staging draft was allocated.
    Begun { token: u64 },
    /// One ordered chunk was accepted.
    Appended { token: u64, received_bytes: u32, total_bytes: u32 },
    /// The active draft was discarded.
    Aborted { token: u64 },
    /// A complete high-level administration operation finished.
    Completed(CollectionAdministrationOutcome),
}

/// Read-only liveness data.
#[derive(Clone, Debug, PartialEq, Eq)]
pub struct Health {
    /// Daemon package version.
    pub daemon_version: String,
    /// Operating-system process identity.
    pub process_id: u32,
    /// Seconds elapsed since this daemon acquired writer ownership.
    pub uptime_seconds: u64,
}

/// Read-only daemon status plus a handler-supplied application state.
#[derive(Clone, Debug, PartialEq, Eq)]
pub struct DaemonStatus {
    /// Operating-system process identity.
    pub process_id: u32,
    /// Seconds elapsed since daemon startup.
    pub uptime_seconds: u64,
    /// Number of mutations completed successfully by this daemon process.
    pub completed_mutations: u64,
    /// Handler-defined stable state name, such as `idle` or `syncing`.
    pub state: String,
    /// Bounded human-readable detail that must not be interpreted as state.
    pub detail: String,
}

/// Handler-owned portion of a status response.
#[derive(Clone, Debug, PartialEq, Eq)]
pub struct HandlerStatus {
    /// Stable state name.
    pub state: String,
    /// Human-readable detail.
    pub detail: String,
}

/// Successful result from a forwarded mutation.
#[derive(Clone, Debug, PartialEq, Eq)]
pub struct MutationOutcome {
    /// Stable result name for automation.
    pub result: String,
    /// Bounded handler-specific result bytes.
    pub payload: Vec<u8>,
}

/// Plain view of a request.
pub struct RequestView {
    pub protocol_version: u16,
    pub request_id: u64,
    pub kind: RequestKindView,
}

/// Plain view of a requested operation.
pub enum RequestKindView {
    Health,
    Status,
    Mutate(MutationView),
    Shutdown,
    CollectionAdmin(CollectionAdminView),
    SourceAdmin(SourceView),
}

/// Plain view of a collection-administration request.
pub enum CollectionAdminView {
    Begin { total_bytes: u32 },
    Append { token: u64, offset: u32, bytes: Seq<u8> },
    Estimate { token: u64 },
    Add { token: u64 },
    Edit { token: u64, collection_id: u64, expected_generation: u64 },
    Remove { collection_id: u64 },
    Abort { token: u64 },
}

/// Plain view of a mutation.
pub enum MutationView {
    SyncAll,
    SyncCollection(u64),
    Verify { full: bool },
    Compact,
    Extension { name: Seq<char>, payload: Seq<u8> },
}

/// Plain view of a response.
pub struct ResponseView {
    pub protocol_version: u16,
    pub request_id: u64,
    pub kind: ResponseKindView,
}

/// Plain view of a result.
pub enum ResponseKindView {
    Health(HealthView),
    Status(StatusView),
    Mutated(MutationOutcomeView),
    ShutdownAccepted,
    CollectionAdmin(AdminOutcomeView),
    SourceAdmin(SourceOutcomeView),
    Error(FailureView),
}

/// Plain view of a collection-administration result.
pub enum AdminOutcomeView {
    Begun { token: u64 },
    Appended { token: u64, received_bytes: u32, total_bytes: u32 },
    Aborted { token: u64 },
    Completed(CollectionOutcomeView),
}

/// Plain view of liveness data.
pub struct HealthView {
    pub daemon_version: Seq<char>,
    pub process_id: u32,
    pub uptime_seconds: u64,
}

/// Plain view of a daemon status.
pub struct StatusView {
    pub process_id: u32,
    pub uptime_seconds: u64,
    pub completed_mutations: u64,
    pub state: Seq<char>,
    pub detail: Seq<char>,
}

/// Plain view of a mutation result.
pub struct MutationOutcomeView {
    pub result: Seq<char>,
    pub payload: Seq<u8>,
}

impl View for Mutation {
    type V = MutationView;

    open spec fn view(&self) -> MutationView {
        match self {
            Mutation::SyncAll => MutationView::SyncAll,
            Mutation::SyncCollection(id) => MutationView::SyncCollection(*id),
            Mutation::Verify { full } => MutationView::Verify { full: *full },
            Mutation::Compact => MutationView::Compact,
            Mutation::Extension { name, payload } => MutationView::Extension {
                name: name@,
                payload: payload@,
            },
        }
    }
}

impl View for CollectionAdminRequest {
    type V = CollectionAdminView;

    open spec fn view(&self) -> CollectionAdminView {
        match self {
            CollectionAdminRequest::Begin { total_bytes } => CollectionAdminView::Begin {
                total_bytes: *total_bytes,
            },
            CollectionAdminRequest::Append { token, offset, bytes } => CollectionAdminView::Append {
                token: *token,
                offset: *offset,
                bytes: bytes@,
            },
            CollectionAdminRequest::Estimate { token } => CollectionAdminView::Estimate {
                token: *token,
            },
            CollectionAdminRequest::Add { token } => CollectionAdminView::Add { token: *token },
            CollectionAdminRequest::Edit { token, collection_id, expected_generation } =>
                CollectionAdminView::Edit {
                token: *token,
                collection_id: *collection_id,
                expected_generation: *expected_generation,
            },
            CollectionAdminRequest::Remove { collection_id } => CollectionAdminView::Remove {
                collection_id: *collection_id,
            },
            CollectionAdminRequest::Abort { token } => CollectionAdminView::Abort { token: *token },
        }
    }
}

impl View for RequestKind {
    type V = RequestKindView;

    open spec fn view(&self) -> RequestKindView {
        match self {
            RequestKind::Health => RequestKindView::Health,
            RequestKind::Status => RequestKindView::Status,
            RequestKind::Mutate(mutation) => RequestKindView::Mutate(mutation@),
            RequestKind::Shutdown => RequestKindView::Shutdown,
            RequestKind::CollectionAdmin(request) => RequestKindView::CollectionAdmin(request@),
            RequestKind::SourceAdmin(source) => RequestKindView::SourceAdmin(source@),
        }
    }
}

impl View for Request {
    type V = RequestView;

    open spec fn view(&self) -> RequestView {
        RequestView {
            protocol_version: self.protocol_version,
            request_id: self.request_id,
            kind: self.kind@,
        }
    }
}

impl View for CollectionAdminProtocolOutcome {
    type V = AdminOutcomeView;

    open spec fn view(&self) -> AdminOutcomeView {
        match self {
            CollectionAdminProtocolOutcome::Begun { token } => AdminOutcomeView::Begun {
                token: *token,
            },
            CollectionAdminProtocolOutcome::Appended { token, received_bytes, total_bytes } =>
                AdminOutcomeView::Appended {
                token: *token,
                received_bytes: *received_bytes,
                total_bytes: *total_bytes,
            },
            CollectionAdminProtocolOutcome::Aborted { token } => AdminOutcomeView::Aborted {
                token: *token,
            },
            CollectionAdminProtocolOutcome::Completed(outcome) => AdminOutcomeView::Completed(
                outcome@,
            ),
        }
    }
}

impl View for Health {
    type V = HealthView;

    open spec fn view(&self) -> HealthView {
        HealthView {
            daemon_version: self.daemon_version@,
            process_id: self.process_id,
            uptime_seconds: self.uptime_seconds,
        }
    }
}

impl View for DaemonStatus {
    type V = StatusView;

    open spec fn view(&self) -> StatusView {
        StatusView {
            process_id: self.process_id,
            uptime_seconds: self.uptime_seconds,
            completed_mutations: self.completed_mutations,
            state: self.state@,
            detail: self.detail@,
        }
    }
}

impl View for MutationOutcome {
    type V = MutationOutcomeView;

    open spec fn view(&self) -> MutationOutcomeView {
        MutationOutcomeView { result: self.result@, payload: self.payload@ }
    }
}

impl View for ResponseKind {
    type V = ResponseKindView;

    open spec fn view(&self) -> ResponseKindView {
        match self {
            ResponseKind::Health(health) => ResponseKindView::Health(health@),
            ResponseKind::Status(status) => ResponseKindView::Status(status@),
            ResponseKind::Mutated(outcome) => ResponseKindView::Mutated(outcome@),
            ResponseKind::ShutdownAccepted => ResponseKindView::ShutdownAccepted,
            ResponseKind::CollectionAdmin(outcome) => ResponseKindView::CollectionAdmin(outcome@),
            ResponseKind::SourceAdmin(outcome) => ResponseKindView::SourceAdmin(outcome@),
            ResponseKind::Error(error) => ResponseKindView::Error(error@),
        }
    }
}

impl View for Response {
    type V = ResponseView;

    open spec fn view(&self) -> ResponseView {
        ResponseView {
            protocol_version: self.protocol_version,
            request_id: self.request_id,
            kind: self.kind@,
        }
    }
}

impl Clone for Mutation {
    fn clone(&self) -> (copy: Self)
        ensures
            copy@ == self@,
    {
        match self {
            Mutation::SyncAll => Mutation::SyncAll,
            Mutation::SyncCollection(id) => Mutation::SyncCollection(*id),
            Mutation::Verify { full } => Mutation::Verify { full: *full },
            Mutation::Compact => Mutation::Compact,
            Mutation::Extension { name, payload } => Mutation::Extension {
                name: name.clone(),
                payload: to_vec(payload.as_slice()),
            },
        }
    }
}

impl Clone for CollectionAdminRequest {
    fn clone(&self) -> (copy: Self)
        ensures
            copy@ == self@,
    {
        match self {
            CollectionAdminRequest::Begin { total_bytes } => CollectionAdminRequest::Begin {
                total_bytes: *total_bytes,
            },
            CollectionAdminRequest::Append { token, offset, bytes } =>
                CollectionAdminRequest::Append {
                token: *token,
                offset: *offset,
                bytes: to_vec(bytes.as_slice()),
            },
            CollectionAdminRequest::Estimate { token } => CollectionAdminRequest::Estimate {
                token: *token,
            },
            CollectionAdminRequest::Add { token } => CollectionAdminRequest::Add { token: *token },
            CollectionAdminRequest::Edit { token, collection_id, expected_generation } =>
                CollectionAdminRequest::Edit {
                token: *token,
                collection_id: *collection_id,
                expected_generation: *expected_generation,
            },
            CollectionAdminRequest::Remove { collection_id } => CollectionAdminRequest::Remove {
                collection_id: *collection_id,
            },
            CollectionAdminRequest::Abort { token } => CollectionAdminRequest::Abort {
                token: *token,
            },
        }
    }
}

impl Clone for RequestKind {
    fn clone(&self) -> (copy: Self)
        ensures
            copy@ == self@,
    {
        match self {
            RequestKind::Health => RequestKind::Health,
            RequestKind::Status => RequestKind::Status,
            RequestKind::Mutate(mutation) => RequestKind::Mutate(mutation.clone()),
            RequestKind::Shutdown => RequestKind::Shutdown,
            RequestKind::CollectionAdmin(request) => RequestKind::CollectionAdmin(request.clone()),
            RequestKind::SourceAdmin(source) => RequestKind::SourceAdmin(source.clone()),
        }
    }
}

} // verus!
