//! Dispatch of decoded requests to the one handler that owns the library writer.

use std::sync::atomic::AtomicBool;
use std::sync::Arc;

use vstd::prelude::*;
use vstd::string::*;
use vstd::utf8::*;

use crate::codec::{
    decode_request, encode_response, request_decoding, response_encoding,
    DecodeRequestError, DecodeRequestErrorView,
};
use crate::control::{flag_lowered, flag_raised, OperationControl, ShutdownHandle};
use crate::error::{
    DaemonError, DaemonErrorView, ErrorCode, FailureView, IoFailureKind, OperationError,
    ResponseError,
};
use crate::protocol::{
    AdminOutcomeView, CollectionAdminProtocolOutcome, CollectionAdminRequest, CollectionAdminView,
    DaemonStatus, HandlerStatus, Health, HealthView, Mutation, MutationOutcome, MutationOutcomeView,
    Request, RequestKind, RequestKindView, RequestView, Response, ResponseKind, ResponseKindView,
    ResponseView, StatusView, MAX_MUTATION_PAYLOAD_BYTES, MAX_STRING_BYTES, MIN_PROTOCOL_VERSION,
    PROTOCOL_VERSION,
};
use crate::source::{SourceAdministration, SourceAdministrationOutcome, SourceOutcomeView};
use crate::text::{decimal, decimal_text};
use crate::user_agent::PACKAGE_VERSION;
use crate::wire::byte_len;

verus! {

/// Milliseconds between two looks at an idle socket.
pub const SOCKET_POLL_MILLISECONDS: u64 = 20;

/// Seconds between two polls for background work.
pub const BACKGROUND_POLL_SECONDS: u64 = 1;

/// Application-service dispatch run by the daemon's single writer thread.
pub trait RequestHandler {
    /// Recovers durable work after writer ownership is acquired and before the daemon
    /// socket accepts requests.
    fn startup(&mut self, control: OperationControl) -> (r: Result<(), OperationError>)
        default_ensures
            r is Ok,
    {
        Ok(())
    }

    /// Produces read-only application status.
    fn status(&self) -> HandlerStatus;

    /// Performs one mutation synchronously under daemon writer ownership.
    /// Returning success must mean the requested work actually completed.
    fn mutate(&mut self, mutation: Mutation, control: OperationControl) -> Result<
        MutationOutcome,
        OperationError,
    >;

    /// Stages or applies one collection administration operation.
    fn administer_collection(
        &mut self,
        request: CollectionAdminRequest,
        control: OperationControl,
    ) -> (r: Result<CollectionAdminProtocolOutcome, OperationError>)
        default_ensures
            r matches Err(error) && error@ == (FailureView {
                code: ErrorCode::Unsupported,
                message: "this handler does not implement collection administration"@,
            }),
    {
        Err(OperationError::unsupported("this handler does not implement collection administration"))
    }

    /// Applies one source-administration operation.
    fn administer_source(
        &mut self,
        administration: SourceAdministration,
        control: OperationControl,
    ) -> (r: Result<SourceAdministrationOutcome, OperationError>)
        default_ensures
            r matches Err(error) && error@ == (FailureView {
                code: ErrorCode::Unsupported,
                message: "this handler does not implement source administration"@,
            }),
    {
        Err(OperationError::unsupported("this handler does not implement source administration"))
    }

    /// Polls for at most one durably claimed background operation between requests.
    fn poll_background(&mut self, control: OperationControl) -> (r: Result<
        Option<MutationOutcome>,
        OperationError,
    >)
        default_ensures
            r matches Ok(outcome) && outcome is None,
    {
        Ok(None)
    }
}

/// A handler without application services: it reports itself idle and refuses to mutate.
#[derive(Debug)]
pub struct FoundationHandler;

impl RequestHandler for FoundationHandler {
    fn status(&self) -> (status: HandlerStatus)
        ensures
            status.state@ == "idle"@,
            status.detail@
                == "single-writer IPC foundation is ready; scheduling is not configured"@,
    {
        HandlerStatus {
            state: "idle".to_owned(),
            detail: "single-writer IPC foundation is ready; scheduling is not configured".to_owned(),
        }
    }

    fn mutate(&mut self, mutation: Mutation, control: OperationControl) -> (r: Result<
        MutationOutcome,
        OperationError,
    >)
        ensures
            r matches Err(error) && error@ == (FailureView {
                code: ErrorCode::Unsupported,
                message: "this daemon build has no application-service mutation dispatcher"@,
            }),
    {
        Err(
            OperationError::unsupported(
                "this daemon build has no application-service mutation dispatcher",
            ),
        )
    }
}

/// The last character boundary at or before a byte position.
pub open spec fn last_boundary(bytes: Seq<u8>, at: int) -> int
    decreases at,
{
    if at <= 0 || is_char_boundary(bytes, at) {
        at
    } else {
        last_boundary(bytes, at - 1)
    }
}

/// A text cut to the envelope ceiling on a character boundary.
pub open spec fn bounded_text(text: Seq<char>) -> Seq<char> {
    let bytes = encode_utf8(text);
    if bytes.len() > MAX_STRING_BYTES {
        decode_utf8(bytes.subrange(0, last_boundary(bytes, MAX_STRING_BYTES as int)))
    } else {
        text
    }
}

pub proof fn lemma_last_boundary(bytes: Seq<u8>, at: int)
    requires
        valid_utf8(bytes),
        0 <= at <= bytes.len(),
    ensures
        0 <= last_boundary(bytes, at) <= at,
        is_char_boundary(bytes, last_boundary(bytes, at)),
        forall|i: int| last_boundary(bytes, at) < i <= at ==> !is_char_boundary(bytes, i),
    decreases at,
{
    if at <= 0 || is_char_boundary(bytes, at) {
        is_char_boundary_start_end_of_seq(bytes);
    } else {
        lemma_last_boundary(bytes, at - 1);
    }
}

/// Cuts a diagnostic to the envelope ceiling.
pub fn bounded_message(message: &str) -> (bounded: String)
    ensures
        bounded@ == bounded_text(message@),
{
    let ghost bytes = encode_utf8(message@);
    proof {
        encode_utf8_valid_utf8(message@);
    }
    if byte_len(message) <= MAX_STRING_BYTES {
        return message.to_owned();
    }
    let mut end: usize = MAX_STRING_BYTES;
    while !message.is_char_boundary(end)
        invariant
            0 <= end <= MAX_STRING_BYTES < bytes.len(),
            bytes == encode_utf8(message@),
            valid_utf8(bytes),
            last_boundary(bytes, end as int) == last_boundary(bytes, MAX_STRING_BYTES as int),
        decreases end,
    {
        proof {
            is_char_boundary_start_end_of_seq(bytes);
        }
        end = end - 1;
    }
    let (head, _rest) = message.split_at(end);
    proof {
        encode_utf8_decode_utf8(head@);
    }
    head.to_owned()
}

/// What a handler replied, as plain data.
pub open spec fn reply_view<T: View>(reply: Result<T, OperationError>) -> Result<
    T::V,
    FailureView,
> {
    match reply {
        Ok(value) => Ok(value@),
        Err(error) => Err(error@),
    }
}

/// The answer to a failed operation: its class, and its detail under the ceiling.
pub open spec fn failure_answer(failure: FailureView) -> ResponseKindView {
    ResponseKindView::Error(
        FailureView { code: failure.code, message: bounded_text(failure.message) },
    )
}

/// A counter that stops at its ceiling.
pub open spec fn counted(completed: u64) -> u64 {
    if completed == u64::MAX {
        completed
    } else {
        (completed + 1) as u64
    }
}

fn count(completed: &mut u64)
    ensures
        *final(completed) == counted(*old(completed)),
{
    if *completed < u64::MAX {
        *completed = *completed + 1;
    }
}

fn answer_failure(error: OperationError) -> (kind: ResponseKind)
    ensures
        kind@ == failure_answer(error@),
{
    ResponseKind::Error(
        ResponseError { code: error.code(), message: bounded_message(error.message()) },
    )
}

fn internal_error(message: &str) -> (kind: ResponseKind)
    ensures
        kind@ == ResponseKindView::Error(
            FailureView { code: ErrorCode::Internal, message: message@ },
        ),
{
    ResponseKind::Error(ResponseError { code: ErrorCode::Internal, message: message.to_owned() })
}

/// A mutation result within the ceilings of its fields.
pub open spec fn mutation_result_fits(outcome: MutationOutcomeView) -> bool {
    encode_utf8(outcome.result).len() <= MAX_STRING_BYTES && outcome.payload.len()
        <= MAX_MUTATION_PAYLOAD_BYTES
}

/// The answer to a mutation and the number of completed mutations after it.
pub open spec fn mutation_answer(
    reply: Result<MutationOutcomeView, FailureView>,
    completed: u64,
) -> (ResponseKindView, u64) {
    match reply {
        Ok(outcome) => if mutation_result_fits(outcome) {
            (ResponseKindView::Mutated(outcome), counted(completed))
        } else {
            (
                ResponseKindView::Error(
                    FailureView {
                        code: ErrorCode::Internal,
                        message: "handler returned an oversized mutation result"@,
                    },
                ),
                completed,
            )
        },
        Err(failure) => (failure_answer(failure), completed),
    }
}

/// Answers a mutation from the handler's reply.
pub fn answer_mutation(
    reply: Result<MutationOutcome, OperationError>,
    completed_mutations: &mut u64,
) -> (kind: ResponseKind)
    ensures
        (kind@, *final(completed_mutations)) == mutation_answer(
            reply_view(reply),
            *old(completed_mutations),
        ),
{
    match reply {
        Ok(outcome) => {
            if byte_len(outcome.result.as_str()) <= MAX_STRING_BYTES && outcome.payload.len()
                <= MAX_MUTATION_PAYLOAD_BYTES {
                count(completed_mutations);
                ResponseKind::Mutated(outcome)
            } else {
                internal_error("handler returned an oversized mutation result")
            }
        },
        Err(error) => answer_failure(error),
    }
}

/// The answer to a status request.
pub open spec fn status_answer(
    state: Seq<char>,
    detail: Seq<char>,
    process_id: u32,
    uptime_seconds: u64,
    completed_mutations: u64,
) -> ResponseKindView {
    if encode_utf8(state).len() > MAX_STRING_BYTES || encode_utf8(detail).len() > MAX_STRING_BYTES {
        ResponseKindView::Error(
            FailureView {
                code: ErrorCode::Internal,
                message: "handler returned an oversized status field"@,
            },
        )
    } else {
        ResponseKindView::Status(
            StatusView { process_id, uptime_seconds, completed_mutations, state, detail },
        )
    }
}

/// Answers a status request from the handler's state.
pub fn answer_status(
    handler: HandlerStatus,
    process_id: u32,
    uptime_seconds: u64,
    completed_mutations: u64,
) -> (kind: ResponseKind)
    ensures
        kind@ == status_answer(
            handler.state@,
            handler.detail@,
            process_id,
            uptime_seconds,
            completed_mutations,
        ),
{
    if byte_len(handler.state.as_str()) > MAX_STRING_BYTES || byte_len(handler.detail.as_str())
        > MAX_STRING_BYTES {
        internal_error("handler returned an oversized status field")
    } else {
        ResponseKind::Status(
            DaemonStatus {
                process_id,
                uptime_seconds,
                completed_mutations,
                state: handler.state,
                detail: handler.detail,
            },
        )
    }
}

/// Whether a collection request changes durable state when it completes.
pub open spec fn durable_request(request: CollectionAdminView) -> bool {
    request is Add || request is Edit || request is Remove
}

/// The answer to a collection request and the number of completed mutations after it.
pub open spec fn collection_answer(
    durable: bool,
    reply: Result<AdminOutcomeView, FailureView>,
    completed: u64,
) -> (ResponseKindView, u64) {
    match reply {
        Ok(outcome) => (
            ResponseKindView::CollectionAdmin(outcome),
            if durable && outcome is Completed {
                counted(completed)
            } else {
                completed
            },
        ),
        Err(failure) => (failure_answer(failure), completed),
    }
}

/// Answers a collection request from the handler's reply.
pub fn answer_collection(
    durable: bool,
    reply: Result<CollectionAdminProtocolOutcome, OperationError>,
    completed_mutations: &mut u64,
) -> (kind: ResponseKind)
    ensures
        (kind@, *final(completed_mutations)) == collection_answer(
            durable,
            reply_view(reply),
            *old(completed_mutations),
        ),
{
    match reply {
        Ok(outcome) => {
            if durable && matches!(outcome, CollectionAdminProtocolOutcome::Completed(_)) {
                count(completed_mutations);
            }
            ResponseKind::CollectionAdmin(outcome)
        },
        Err(error) => answer_failure(error),
    }
}

/// The answer to a source request and the number of completed mutations after it.
pub open spec fn source_answer(
    reply: Result<SourceOutcomeView, FailureView>,
    completed: u64,
) -> (ResponseKindView, u64) {
    match reply {
        Ok(outcome) => (ResponseKindView::SourceAdmin(outcome), counted(completed)),
        Err(failure) => (failure_answer(failure), completed),
    }
}

/// Answers a source request from the handler's reply.
pub fn answer_source(
    reply: Result<SourceAdministrationOutcome, OperationError>,
    completed_mutations: &mut u64,
) -> (kind: ResponseKind)
    ensures
        (kind@, *final(completed_mutations)) == source_answer(
            reply_view(reply),
            *old(completed_mutations),
        ),
{
    match reply {
        Ok(outcome) => {
            count(completed_mutations);
            ResponseKind::SourceAdmin(outcome)
        },
        Err(error) => answer_failure(error),
    }
}

/// A mutation was handed to the handler and answered from its reply.
pub open spec fn mutation_dispatched<H: RequestHandler>(
    handler: &mut H,
    mutation: Mutation,
    control: OperationControl,
    completed: u64,
    answer: (ResponseKindView, u64),
) -> bool {
    exists|reply: Result<MutationOutcome, OperationError>|
        #[trigger] call_ensures(H::mutate, (handler, mutation, control), reply) && answer
            == mutation_answer(reply_view(reply), completed)
}

/// A collection request was handed to the handler and answered from its reply.
pub open spec fn collection_dispatched<H: RequestHandler>(
    handler: &mut H,
    request: CollectionAdminRequest,
    control: OperationControl,
    completed: u64,
    answer: (ResponseKindView, u64),
) -> bool {
    exists|reply: Result<CollectionAdminProtocolOutcome, OperationError>|
        #[trigger] call_ensures(H::administer_collection, (handler, request, control), reply)
            && answer == collection_answer(
            durable_request(request@),
            reply_view(reply),
            completed,
        )
}

/// A source request was handed to the handler and answered from its reply.
pub open spec fn source_dispatched<H: RequestHandler>(
    handler: &mut H,
    administration: SourceAdministration,
    control: OperationControl,
    completed: u64,
    answer: (ResponseKindView, u64),
) -> bool {
    exists|reply: Result<SourceAdministrationOutcome, OperationError>|
        #[trigger] call_ensures(H::administer_source, (handler, administration, control), reply)
            && answer == source_answer(reply_view(reply), completed)
}

/// The handler was asked for its state and the answer was made of it.
pub open spec fn status_dispatched<H: RequestHandler>(
    handler: H,
    completed_mutations: u64,
    process_id: u32,
    uptime_seconds: u64,
    answer: ResponseKindView,
) -> bool {
    exists|status: HandlerStatus|
        #[trigger] call_ensures(H::status, (&handler,), status) && answer == status_answer(
            status.state@,
            status.detail@,
            process_id,
            uptime_seconds,
            completed_mutations,
        )
}

/// Asks the handler for one mutation and answers from its reply.
pub fn dispatch_mutation<H: RequestHandler>(
    handler: &mut H,
    mutation: Mutation,
    control: OperationControl,
    completed_mutations: &mut u64,
) -> (kind: ResponseKind)
    ensures
        exists|h: &mut H|
            *h == *old(handler) && *final(h) == *final(handler) && #[trigger] mutation_dispatched(
                h,
                mutation,
                control,
                *old(completed_mutations),
                (kind@, *final(completed_mutations)),
            ),
{
    let ghost before = *handler;
    let reply = handler.mutate(mutation, control);
    let ghost given = reply;
    let kind = answer_mutation(reply, completed_mutations);
    proof {
        let h = choose|h: &mut H|
            #[trigger] call_ensures(H::mutate, (h, mutation, control), given) && *h == before
                && *final(h) == *handler;
        assert(mutation_dispatched(
            h,
            mutation,
            control,
            *old(completed_mutations),
            (kind@, *completed_mutations),
        ));
    }
    kind
}

/// Hands one collection request to the handler and answers from its reply.
fn dispatch_collection<H: RequestHandler>(
    handler: &mut H,
    request: CollectionAdminRequest,
    control: OperationControl,
    completed_mutations: &mut u64,
) -> (kind: ResponseKind)
    ensures
        exists|h: &mut H|
            *h == *old(handler) && *final(h) == *final(handler) && #[trigger] collection_dispatched(
                h,
                request,
                control,
                *old(completed_mutations),
                (kind@, *final(completed_mutations)),
            ),
{
    let ghost before = *handler;
    let durable: bool = matches!(
        request,
        CollectionAdminRequest::Add { .. }
            | CollectionAdminRequest::Edit { .. }
            | CollectionAdminRequest::Remove { .. }
    );
    let reply = handler.administer_collection(request, control);
    let ghost given = reply;
    let kind = answer_collection(durable, reply, completed_mutations);
    proof {
        let h = choose|h: &mut H|
            #[trigger] call_ensures(H::administer_collection, (h, request, control), given) && *h
                == before && *final(h) == *handler;
        assert(collection_dispatched(
            h,
            request,
            control,
            *old(completed_mutations),
            (kind@, *completed_mutations),
        ));
    }
    kind
}

/// Hands one source request to the handler and answers from its reply.
fn dispatch_source<H: RequestHandler>(
    handler: &mut H,
    administration: SourceAdministration,
    control: OperationControl,
    completed_mutations: &mut u64,
) -> (kind: ResponseKind)
    ensures
        exists|h: &mut H|
            *h == *old(handler) && *final(h) == *final(handler) && #[trigger] source_dispatched(
                h,
                administration,
                control,
                *old(completed_mutations),
                (kind@, *final(completed_mutations)),
            ),
{
    let ghost before = *handler;
    let reply = handler.administer_source(administration, control);
    let ghost given = reply;
    let kind = answer_source(reply, completed_mutations);
    proof {
        let h = choose|h: &mut H|
            #[trigger] call_ensures(H::administer_source, (h, administration, control), given) && *h
                == before && *final(h) == *handler;
        assert(source_dispatched(
            h,
            administration,
            control,
            *old(completed_mutations),
            (kind@, *completed_mutations),
        ));
    }
    kind
}

/// Single-threaded dispatcher behind the daemon socket.
pub struct Daemon<H: RequestHandler> {
    pub handler: H,
    /// Up until shutdown is requested.
    pub running: Arc<AtomicBool>,
    pub completed_mutations: u64,
    /// A shutdown request was accepted; no further connection is to be served.
    pub stopping: bool,
}

/// Whether a request is handed to the handler for work.
pub open spec fn is_work(kind: RequestKindView) -> bool {
    kind is Mutate || kind is CollectionAdmin || kind is SourceAdmin
}

/// A request that asks for work was handed to the handler and answered from its reply.
pub open spec fn work_dispatched<H: RequestHandler>(
    handler: &mut H,
    kind: RequestKind,
    control: OperationControl,
    completed: u64,
    answer: (ResponseKindView, u64),
) -> bool {
    match kind {
        RequestKind::Mutate(mutation) => mutation_dispatched(
            handler,
            mutation,
            control,
            completed,
            answer,
        ),
        RequestKind::CollectionAdmin(request) => collection_dispatched(
            handler,
            request,
            control,
            completed,
            answer,
        ),
        RequestKind::SourceAdmin(administration) => source_dispatched(
            handler,
            administration,
            control,
            completed,
            answer,
        ),
        _ => false,
    }
}

/// The answer to a request that asks for no work.
pub open spec fn inquiry_answered<H: RequestHandler>(
    daemon: Daemon<H>,
    kind: RequestKindView,
    process_id: u32,
    uptime_seconds: u64,
    answer: ResponseKindView,
) -> bool {
    match kind {
        RequestKindView::Health => answer == ResponseKindView::Health(
            HealthView { daemon_version: PACKAGE_VERSION@, process_id, uptime_seconds },
        ),
        RequestKindView::Status => status_dispatched(
            daemon.handler,
            daemon.completed_mutations,
            process_id,
            uptime_seconds,
            answer,
        ),
        RequestKindView::Shutdown => answer == ResponseKindView::ShutdownAccepted,
        _ => false,
    }
}

/// What to do with the bytes of one connection.
#[derive(Debug, PartialEq, Eq)]
pub enum Received {
    /// A request for the handler.
    Dispatch(Request),
    /// A refusal that reaches no handler.
    Refuse(Response),
    /// The connection failed; nothing can be answered.
    Disconnect(DaemonError),
}

/// Plain view of what was received.
pub enum ReceivedView {
    Dispatch(RequestView),
    Refuse(ResponseView),
    Disconnect(DaemonErrorView),
}

impl View for Received {
    type V = ReceivedView;

    open spec fn view(&self) -> ReceivedView {
        match self {
            Received::Dispatch(request) => ReceivedView::Dispatch(request@),
            Received::Refuse(response) => ReceivedView::Refuse(response@),
            Received::Disconnect(error) => ReceivedView::Disconnect(error@),
        }
    }
}

/// A refusal in the current protocol version.
pub open spec fn refusal(request_id: u64, code: ErrorCode, message: Seq<char>) -> ResponseView {
    ResponseView {
        protocol_version: PROTOCOL_VERSION,
        request_id,
        kind: ResponseKindView::Error(FailureView { code, message: bounded_text(message) }),
    }
}

/// Builds a refusal in the current protocol version.
pub fn error_response(request_id: u64, code: ErrorCode, message: &str) -> (response: Response)
    ensures
        response@ == refusal(request_id, code, message@),
{
    Response {
        protocol_version: PROTOCOL_VERSION,
        request_id,
        kind: ResponseKind::Error(ResponseError { code, message: bounded_message(message) }),
    }
}

/// What a caller of another protocol version is told.
pub open spec fn version_message(version: u16) -> Seq<char> {
    "protocol version "@ + decimal(version as nat) + " is unsupported; supported range is "@
        + decimal(MIN_PROTOCOL_VERSION as nat) + " through "@ + decimal(PROTOCOL_VERSION as nat)
}

/// The refusal of bytes that are no acceptable request.
pub open spec fn decode_refusal(error: DecodeRequestErrorView) -> ResponseView {
    match error {
        DecodeRequestErrorView::UnsupportedVersion { request_id, version } => refusal(
            request_id,
            ErrorCode::UnsupportedVersion,
            version_message(version),
        ),
        DecodeRequestErrorView::Invalid { request_id, message } => refusal(
            match request_id {
                Some(request_id) => request_id,
                None => 0,
            },
            ErrorCode::InvalidRequest,
            message,
        ),
    }
}

/// Refuses bytes that are no acceptable request.
pub fn refuse_request(error: DecodeRequestError) -> (response: Response)
    ensures
        response@ == decode_refusal(error@),
{
    match error {
        DecodeRequestError::UnsupportedVersion { request_id, version } => {
            let mut message = "protocol version ".to_owned();
            message.append(decimal_text(version as u64).as_str());
            message.append(" is unsupported; supported range is ");
            message.append(decimal_text(MIN_PROTOCOL_VERSION as u64).as_str());
            message.append(" through ");
            message.append(decimal_text(PROTOCOL_VERSION as u64).as_str());
            error_response(request_id, ErrorCode::UnsupportedVersion, message.as_str())
        },
        DecodeRequestError::Invalid { request_id, message } => error_response(
            match request_id {
                Some(request_id) => request_id,
                None => 0,
            },
            ErrorCode::InvalidRequest,
            message,
        ),
    }
}

/// What follows from one read frame, or from the failure to read it.
pub open spec fn reception(frame: Result<Seq<u8>, DaemonErrorView>) -> ReceivedView {
    match frame {
        Err(DaemonErrorView::FrameTooLarge { size }) => ReceivedView::Refuse(
            refusal(0, ErrorCode::InvalidRequest, "request frame is too large"@),
        ),
        Err(error) => ReceivedView::Disconnect(error),
        Ok(bytes) => match request_decoding(bytes) {
            Ok(request) => ReceivedView::Dispatch(request),
            Err(error) => ReceivedView::Refuse(decode_refusal(error)),
        },
    }
}

/// A read frame as plain data.
pub open spec fn frame_view(frame: Result<Vec<u8>, DaemonError>) -> Result<
    Seq<u8>,
    DaemonErrorView,
> {
    match frame {
        Ok(bytes) => Ok(bytes@),
        Err(error) => Err(error@),
    }
}

/// Decides what one read frame, or the failure to read it, asks for.
pub fn receive(frame: Result<Vec<u8>, DaemonError>) -> (received: Received)
    ensures
        received@ == reception(frame_view(frame)),
{
    match frame {
        Err(DaemonError::FrameTooLarge { .. }) => Received::Refuse(
            error_response(0, ErrorCode::InvalidRequest, "request frame is too large"),
        ),
        Err(error) => Received::Disconnect(error),
        Ok(bytes) => match decode_request(bytes.as_slice()) {
            Ok(request) => Received::Dispatch(request),
            Err(error) => Received::Refuse(refuse_request(error)),
        },
    }
}

/// The bytes that answer a request; `kind` is the operation that was asked for.
pub open spec fn answer_bytes(
    request: RequestView,
    kind: RequestKind,
    answer: ResponseKindView,
) -> Result<Seq<u8>, DaemonErrorView> {
    response_encoding(
        ResponseView {
            protocol_version: request.protocol_version,
            request_id: request.request_id,
            kind: answer,
        },
    )
}

/// What the accept loop does after a failed accept.
#[derive(Clone, Copy, Debug, PartialEq, Eq, Structural)]
pub enum AcceptStep {
    /// Poll for background work, then wait for the next connection.
    PollAndWait,
    /// Wait for the next connection.
    Wait,
    /// Leave the loop with the failure.
    Fail,
}

/// Decides what a failed accept means; `idle_seconds` have passed since the last poll.
pub fn after_failed_accept(kind: IoFailureKind, idle_seconds: u64) -> (step: AcceptStep)
    ensures
        step == if !kind.is_transient() {
            AcceptStep::Fail
        } else if idle_seconds >= BACKGROUND_POLL_SECONDS {
            AcceptStep::PollAndWait
        } else {
            AcceptStep::Wait
        },
{
    if !kind.transient() {
        AcceptStep::Fail
    } else if idle_seconds >= BACKGROUND_POLL_SECONDS {
        AcceptStep::PollAndWait
    } else {
        AcceptStep::Wait
    }
}

impl<H: RequestHandler> Daemon<H> {
    /// What watches this dispatcher's shutdown flag.
    pub open spec fn control(&self) -> OperationControl {
        OperationControl { running: Some(self.running) }
    }

    /// Lets the handler recover durable work before any request is accepted. The handler
    /// watches the flag that the dispatcher keeps, and which is up.
    pub fn start(handler: H) -> (result: Result<Daemon<H>, DaemonError>)
        ensures
            exists|h: &mut H, control: OperationControl, reply: Result<(), OperationError>|
                #[trigger] call_ensures(H::startup, (h, control), reply) && *h == handler
                    && control.running is Some && flag_raised(*control.running->0) && match (
                    reply,
                    result,
                ) {
                    (Ok(()), Ok(daemon)) => daemon.handler == *final(h) && daemon.control()
                        == control && flag_raised(*daemon.running)
                        && daemon.completed_mutations == 0 && !daemon.stopping,
                    (Err(error), Err(failure)) => failure@ == DaemonErrorView::Startup(
                        error@.message,
                    ),
                    _ => false,
                },
    {
        let mut handler = handler;
        let running = Arc::new(AtomicBool::new(true));
        let reply = handler.startup(OperationControl { running: Some(running.clone()) });
        match reply {
            Ok(()) => Ok(Daemon { handler, running, completed_mutations: 0, stopping: false }),
            Err(error) => Err(DaemonError::Startup(error.into_message())),
        }
    }

    /// Returns a process-local handle that requests shutdown between requests.
    pub fn shutdown_handle(&self) -> (handle: ShutdownHandle)
        ensures
            handle.running == self.running,
    {
        ShutdownHandle { running: self.running.clone() }
    }

    /// A control that watches this dispatcher's shutdown flag.
    pub fn operation_control(&self) -> (control: OperationControl)
        ensures
            control == self.control(),
    {
        OperationControl { running: Some(self.running.clone()) }
    }

    /// Polls for at most one background operation and counts it when it completed.
    pub fn poll_background(&mut self)
        ensures
            final(self).running == old(self).running,
            final(self).stopping == old(self).stopping,
            exists|h: &mut H, reply: Result<Option<MutationOutcome>, OperationError>|
                #[trigger] call_ensures(H::poll_background, (h, old(self).control()), reply) && *h
                    == old(self).handler && final(self).handler == *final(h)
                    && final(self).completed_mutations == if reply matches Ok(Some(_)) {
                    counted(old(self).completed_mutations)
                } else {
                    old(self).completed_mutations
                },
    {
        let control = self.operation_control();
        let reply = self.handler.poll_background(control);
        if let Ok(Some(_)) = reply {
            count(&mut self.completed_mutations);
        }
    }

    /// Runs one decoded request.
    pub fn dispatch(&mut self, request: Request, process_id: u32, uptime_seconds: u64) -> (response:
        Response)
        ensures
            response.protocol_version == request.protocol_version,
            response.request_id == request.request_id,
            final(self).running == old(self).running,
            final(self).stopping == (old(self).stopping || request.kind@ is Shutdown),
            request.kind@ is Shutdown ==> flag_lowered(*old(self).running),
            !is_work(request.kind@) ==> final(self).handler == old(self).handler
                && final(self).completed_mutations == old(self).completed_mutations
                && inquiry_answered(
                *old(self),
                request.kind@,
                process_id,
                uptime_seconds,
                response.kind@,
            ),
            is_work(request.kind@) ==> exists|h: &mut H|
                *h == old(self).handler && *final(h) == final(self).handler
                    && #[trigger] work_dispatched(
                    h,
                    request.kind,
                    old(self).control(),
                    old(self).completed_mutations,
                    (response.kind@, final(self).completed_mutations),
                ),
    {
        let ghost asked = request.kind;
        let kind = match request.kind {
            RequestKind::Health => ResponseKind::Health(
                Health { daemon_version: PACKAGE_VERSION.to_owned(), process_id, uptime_seconds },
            ),
            RequestKind::Status => {
                let status = self.handler.status();
                answer_status(status, process_id, uptime_seconds, self.completed_mutations)
            },
            RequestKind::Mutate(mutation) => {
                let control = self.operation_control();
                let kind = dispatch_mutation(
                    &mut self.handler,
                    mutation,
                    control,
                    &mut self.completed_mutations,
                );
                proof {
                    let h = choose|h: &mut H|
                        *h == old(self).handler && *final(h) == self.handler
                            && #[trigger] mutation_dispatched(
                            h,
                            mutation,
                            control,
                            old(self).completed_mutations,
                            (kind@, self.completed_mutations),
                        );
                    assert(work_dispatched(
                        h,
                        asked,
                        old(self).control(),
                        old(self).completed_mutations,
                        (kind@, self.completed_mutations),
                    ));
                }
                kind
            },
            RequestKind::Shutdown => {
                self.stopping = true;
                self.shutdown_handle().shutdown();
                ResponseKind::ShutdownAccepted
            },
            RequestKind::CollectionAdmin(administration) => {
                let control = self.operation_control();
                let kind = dispatch_collection(
                    &mut self.handler,
                    administration,
                    control,
                    &mut self.completed_mutations,
                );
                proof {
                    let h = choose|h: &mut H|
                        *h == old(self).handler && *final(h) == self.handler
                            && #[trigger] collection_dispatched(
                            h,
                            administration,
                            control,
                            old(self).completed_mutations,
                            (kind@, self.completed_mutations),
                        );
                    assert(work_dispatched(
                        h,
                        asked,
                        old(self).control(),
                        old(self).completed_mutations,
                        (kind@, self.completed_mutations),
                    ));
                }
                kind
            },
            RequestKind::SourceAdmin(administration) => {
                let control = self.operation_control();
                let kind = dispatch_source(
                    &mut self.handler,
                    administration,
                    control,
                    &mut self.completed_mutations,
                );
                proof {
                    let h = choose|h: &mut H|
                        *h == old(self).handler && *final(h) == self.handler
                            && #[trigger] source_dispatched(
                            h,
                            administration,
                            control,
                            old(self).completed_mutations,
                            (kind@, self.completed_mutations),
                        );
                    assert(work_dispatched(
                        h,
                        asked,
                        old(self).control(),
                        old(self).completed_mutations,
                        (kind@, self.completed_mutations),
                    ));
                }
                kind
            },
        };
        Response {
            protocol_version: request.protocol_version,
            request_id: request.request_id,
            kind,
        }
    }

    /// Answers one connection from the frame that was read of it.
    pub fn serve_one(
        &mut self,
        frame: Result<Vec<u8>, DaemonError>,
        process_id: u32,
        uptime_seconds: u64,
    ) -> (reply: Result<Vec<u8>, DaemonError>)
        ensures
            final(self).running == old(self).running,
            match reception(frame_view(frame)) {
                ReceivedView::Refuse(response) => *final(self) == *old(self) && frame_view(reply)
                    == response_encoding(response),
                ReceivedView::Disconnect(error) => *final(self) == *old(self) && frame_view(reply)
                    == Err::<Seq<u8>, DaemonErrorView>(error),
                ReceivedView::Dispatch(request) => exists|kind: RequestKind, answer: ResponseKindView|
                    kind@ == request.kind && frame_view(reply) == #[trigger] answer_bytes(
                        request,
                        kind,
                        answer,
                    ) && final(self).stopping == (old(self).stopping || request.kind is Shutdown)
                        && (request.kind is Shutdown ==> flag_lowered(*old(self).running))
                        && (!is_work(request.kind) ==> final(self).handler == old(self).handler
                        && final(self).completed_mutations == old(self).completed_mutations
                        && inquiry_answered(
                        *old(self),
                        request.kind,
                        process_id,
                        uptime_seconds,
                        answer,
                    )) && (is_work(request.kind) ==> exists|h: &mut H|
                        *h == old(self).handler && *final(h) == final(self).handler
                            && #[trigger] work_dispatched(
                            h,
                            kind,
                            old(self).control(),
                            old(self).completed_mutations,
                            (answer, final(self).completed_mutations),
                        )),
            },
    {
        match receive(frame) {
            Received::Refuse(response) => encode_response(&response),
            Received::Disconnect(error) => Err(error),
            Received::Dispatch(request) => {
                let ghost asked = request;
                let response = self.dispatch(request, process_id, uptime_seconds);
                let reply = encode_response(&response);
                assert(frame_view(reply) == answer_bytes(asked@, asked.kind, response.kind@));
                reply
            },
        }
    }
}

} // verus!
