//! What holds of every answer of the daemon.

use vstd::prelude::*;
use vstd::string::*;
use vstd::utf8::*;

use crate::codec::{
    admin_outcome_bytes, envelope_bytes, error_tag, request_decoding, response_encoding, text_field,
    DecodeRequestErrorView,
};
use crate::control::{OperationControl, ShutdownHandle};
use crate::daemon::{
    after_failed_accept, answer_collection, answer_mutation, answer_source, answer_status,
    bounded_text, collection_answer, counted, durable_request, failure_answer, is_work,
    last_boundary, lemma_last_boundary, mutation_answer, receive, refusal, source_answer,
    status_answer, status_dispatched, work_dispatched, AcceptStep, Daemon, Received, ReceivedView,
    RequestHandler,
};
use crate::error::{
    DaemonError, DaemonErrorView, ErrorCode, FailureView, IoFailureKind, OperationError,
};
use crate::protocol::{
    response_magic, AdminOutcomeView, CollectionAdminProtocolOutcome, HandlerStatus, HealthView,
    MutationOutcome, MutationOutcomeView, Request, RequestKind, RequestKindView, RequestView,
    Response, ResponseKind, ResponseKindView, ResponseView, MAX_FRAME_BYTES, MAX_STRING_BYTES,
    PROTOCOL_VERSION,
};
use crate::source::{SourceAdministrationOutcome, SourceOutcomeView};
use crate::wire::{be, lemma_be};

verus! {

proof fn lemma_prefix_boundary(text: Seq<char>, k: int)
    requires
        0 <= k <= text.len(),
    ensures
        encode_utf8(text.take(k)).len() <= encode_utf8(text).len(),
        is_char_boundary(encode_utf8(text), encode_utf8(text.take(k)).len() as int),
    decreases text.len(),
{
    let bytes = encode_utf8(text);
    encode_utf8_valid_utf8(text);
    if k == 0 {
        assert(text.take(0) =~= Seq::empty());
    } else {
        let rest = text.drop_first();
        lemma_prefix_boundary(rest, k - 1);
        assert(text.take(k).drop_first() =~= rest.take(k - 1));
        encode_utf8_first_scalar(text);
        assert(pop_first_scalar(bytes) =~= encode_utf8(rest));
        assert(text.take(k)[0] == text[0]);
    }
}

proof fn lemma_longer_prefix(text: Seq<char>, j: int, k: int)
    requires
        0 <= j < k <= text.len(),
    ensures
        encode_utf8(text.take(j)).len() < encode_utf8(text.take(k)).len(),
    decreases text.len(),
{
    let rest = text.drop_first();
    assert(text.take(k).drop_first() =~= rest.take(k - 1));
    assert(text.take(k)[0] == text[0]);
    if j == 0 {
        assert(text.take(0) =~= Seq::empty());
    } else {
        assert(text.take(j).drop_first() =~= rest.take(j - 1));
        assert(text.take(j)[0] == text[0]);
        lemma_longer_prefix(rest, j - 1, k - 1);
    }
}

/// A bounded message is the longest prefix of the message that fits the ceiling.
pub proof fn law_bounded_message_is_the_longest_fitting_prefix(message: Seq<char>)
    ensures
        bounded_text(message).is_prefix_of(message),
        encode_utf8(bounded_text(message)).len() <= MAX_STRING_BYTES,
        forall|k: int|
            bounded_text(message).len() < k <= message.len() ==> encode_utf8(
                #[trigger] message.take(k),
            ).len() > MAX_STRING_BYTES,
{
    let bytes = encode_utf8(message);
    let bounded = bounded_text(message);
    if bytes.len() > MAX_STRING_BYTES {
        let end = last_boundary(bytes, MAX_STRING_BYTES as int);
        encode_utf8_valid_utf8(message);
        lemma_last_boundary(bytes, MAX_STRING_BYTES as int);
        valid_utf8_split(bytes, end);
        decode_utf8_split(bytes, end);
        encode_utf8_decode_utf8(message);
        decode_utf8_encode_utf8(bytes.subrange(0, end));
        assert(bounded =~= message.subrange(0, bounded.len() as int));
        assert(message.take(bounded.len() as int) =~= bounded);
        assert forall|k: int| bounded.len() < k <= message.len() implies encode_utf8(
            #[trigger] message.take(k),
        ).len() > MAX_STRING_BYTES by {
            lemma_prefix_boundary(message, k);
            lemma_longer_prefix(message, bounded.len() as int, k);
        }
    } else {
        assert(bounded =~= message.subrange(0, bounded.len() as int));
    }
}

/// Success is answered and counted exactly when the handler succeeded with a result that
/// fits; a failed mutation is answered as a failure and leaves the count.
pub proof fn law_only_successful_mutations_are_counted(
    reply: Result<MutationOutcomeView, FailureView>,
    completed: u64,
)
    ensures
        ({
            let (answer, after) = mutation_answer(reply, completed);
            &&& answer is Mutated ==> reply == Ok::<MutationOutcomeView, FailureView>(
                answer->Mutated_0,
            ) && after == counted(completed)
            &&& answer !is Mutated ==> answer is Error && after == completed
            &&& reply is Err ==> answer is Error
        }),
{
}

/// Reads, staging and estimates of collections leave the count of completed mutations.
pub proof fn law_staging_is_not_counted(
    reply: Result<AdminOutcomeView, FailureView>,
    completed: u64,
)
    ensures
        collection_answer(false, reply, completed).1 == completed,
        reply is Err ==> collection_answer(true, reply, completed).1 == completed,
        !(reply matches Ok(outcome) && outcome is Completed) ==> collection_answer(
            true,
            reply,
            completed,
        ).1 == completed,
{
}

/// A refused source operation is not counted.
pub proof fn law_refused_sources_are_not_counted(
    reply: Result<SourceOutcomeView, FailureView>,
    completed: u64,
)
    requires
        reply is Err,
    ensures
        source_answer(reply, completed).1 == completed,
        source_answer(reply, completed).0 is Error,
{
}

/// One thing that a daemon did.
pub enum DaemonStep {
    /// A request was answered.
    Answered { kind: RequestKind, answer: ResponseKindView },
    /// Background work was polled for, and was completed or not.
    Polled { completed: bool },
}

/// A step that a daemon with this handler can take, with the count before and after it.
pub open spec fn step_taken<H: RequestHandler>(step: DaemonStep, before: u64, after: u64) -> bool {
    match step {
        DaemonStep::Answered { kind, answer } => if is_work(kind@) {
            exists|h: &mut H, control: OperationControl| #[trigger]
                work_dispatched(h, kind, control, before, (answer, after))
        } else {
            &&& after == before
            &&& kind@ is Status ==> exists|handler: H, process_id: u32, uptime_seconds: u64|
                #[trigger] status_dispatched(handler, before, process_id, uptime_seconds, answer)
        },
        DaemonStep::Polled { completed } => after == if completed {
            counted(before)
        } else {
            before
        },
    }
}

/// Whether a step completed a mutation.
pub open spec fn succeeded(step: DaemonStep) -> bool {
    match step {
        DaemonStep::Answered { kind, answer } => match kind@ {
            RequestKindView::Mutate(_) => answer is Mutated,
            RequestKindView::CollectionAdmin(request) => durable_request(request) && (
            answer matches ResponseKindView::CollectionAdmin(outcome) && outcome is Completed),
            RequestKindView::SourceAdmin(_) => answer is SourceAdmin,
            _ => false,
        },
        DaemonStep::Polled { completed } => completed,
    }
}

/// How many steps of a history completed a mutation.
pub open spec fn successes(history: Seq<DaemonStep>) -> nat
    decreases history.len(),
{
    if history.len() == 0 {
        0
    } else {
        successes(history.drop_last()) + if succeeded(history.last()) {
            1nat
        } else {
            0nat
        }
    }
}

/// A number as far as the count reaches.
pub open spec fn count_of(number: nat) -> u64 {
    if number > u64::MAX {
        u64::MAX
    } else {
        number as u64
    }
}

/// The count that the answer to a status request tells.
pub open spec fn told_count(step: DaemonStep) -> Option<u64> {
    match step {
        DaemonStep::Answered { kind, answer: ResponseKindView::Status(status) } => if kind@
            is Status {
            Some(status.completed_mutations)
        } else {
            None
        },
        _ => None,
    }
}

/// A daemon that started with no completed mutation counts, over any history of requests
/// and polls, exactly those that succeeded, and tells that number whenever it is asked for
/// its status.
pub proof fn law_status_counts_the_successes<H: RequestHandler>(
    history: Seq<DaemonStep>,
    counts: Seq<u64>,
)
    requires
        counts.len() == history.len() + 1,
        counts[0] == 0,
        forall|i: int|
            0 <= i < history.len() ==> step_taken::<H>(
                #[trigger] history[i],
                counts[i],
                counts[i + 1],
            ),
    ensures
        counts.last() == count_of(successes(history)),
        forall|i: int|
            0 <= i < history.len() && told_count(#[trigger] history[i]) is Some ==> told_count(
                history[i],
            ) == Some(count_of(successes(history.take(i)))),
    decreases history.len(),
{
    if history.len() > 0 {
        let rest = history.drop_last();
        let last = history.len() - 1;
        law_status_counts_the_successes::<H>(rest, counts.drop_last());
        assert(step_taken::<H>(history[last], counts[last], counts[last + 1]));
        assert(history.take(last) =~= rest);
        assert forall|i: int| 0 <= i < history.len() && told_count(#[trigger] history[i]) is Some
            implies told_count(history[i]) == Some(count_of(successes(history.take(i)))) by {
            if i < last {
                assert(rest[i] == history[i]);
                assert(rest.take(i) =~= history.take(i));
            }
        }
    }
}

proof fn lemma_text_field(text: Seq<char>)
    ensures
        text_field(text).len() == 4 + encode_utf8(text).len(),
{
    lemma_be(encode_utf8(text).len(), 4);
}

proof fn lemma_envelope(version: u16, request_id: u64)
    ensures
        envelope_bytes(response_magic(), version, request_id).len() == 14,
{
    lemma_be(version as nat, 2);
    lemma_be(request_id as nat, 8);
}

proof fn lemma_error_fits(version: u16, request_id: u64, code: ErrorCode, message: Seq<char>)
    requires
        encode_utf8(message).len() <= MAX_STRING_BYTES,
    ensures
        response_encoding(
            ResponseView {
                protocol_version: version,
                request_id,
                kind: ResponseKindView::Error(FailureView { code, message }),
            },
        ) is Ok,
{
    lemma_envelope(version, request_id);
    lemma_be(255, 1);
    lemma_be(error_tag(code) as nat, 1);
    lemma_text_field(message);
}

/// Every refusal of undecodable bytes can be encoded, whatever its diagnostic.
pub proof fn law_refusals_fit_a_frame(request_id: u64, code: ErrorCode, message: Seq<char>)
    ensures
        response_encoding(refusal(request_id, code, message)) is Ok,
{
    law_bounded_message_is_the_longest_fitting_prefix(message);
    lemma_error_fits(PROTOCOL_VERSION, request_id, code, bounded_text(message));
}

/// Every failure of an operation can be encoded in every version, whatever its detail.
pub proof fn law_failures_fit_a_frame(version: u16, request_id: u64, failure: FailureView)
    ensures
        response_encoding(
            ResponseView {
                protocol_version: version,
                request_id,
                kind: failure_answer(failure),
            },
        ) is Ok,
{
    law_bounded_message_is_the_longest_fitting_prefix(failure.message);
    lemma_error_fits(version, request_id, failure.code, bounded_text(failure.message));
}

/// Every status can be encoded: an oversized one was replaced by an internal error.
pub proof fn law_status_answers_fit_a_frame(
    version: u16,
    request_id: u64,
    state: Seq<char>,
    detail: Seq<char>,
    process_id: u32,
    uptime_seconds: u64,
    completed: u64,
)
    ensures
        response_encoding(
            ResponseView {
                protocol_version: version,
                request_id,
                kind: status_answer(state, detail, process_id, uptime_seconds, completed),
            },
        ) is Ok,
{
    reveal_strlit("handler returned an oversized status field");
    let notice = "handler returned an oversized status field"@;
    is_ascii_chars_encode_utf8(notice);
    if encode_utf8(state).len() > MAX_STRING_BYTES || encode_utf8(detail).len() > MAX_STRING_BYTES {
        lemma_error_fits(version, request_id, ErrorCode::Internal, notice);
    } else {
        lemma_envelope(version, request_id);
        lemma_be(2, 1);
        lemma_be(process_id as nat, 4);
        lemma_be(uptime_seconds as nat, 8);
        lemma_be(completed as nat, 8);
        lemma_text_field(state);
        lemma_text_field(detail);
    }
}

/// A mutation's answer can be encoded unless name and payload of its result together
/// leave no room for the envelope.
pub proof fn law_mutation_answers_fit_a_frame(
    version: u16,
    request_id: u64,
    reply: Result<MutationOutcomeView, FailureView>,
    completed: u64,
)
    requires
        reply matches Ok(outcome) ==> encode_utf8(outcome.result).len() + outcome.payload.len() + 23
            <= MAX_FRAME_BYTES,
    ensures
        response_encoding(
            ResponseView {
                protocol_version: version,
                request_id,
                kind: mutation_answer(reply, completed).0,
            },
        ) is Ok,
{
    reveal_strlit("handler returned an oversized mutation result");
    let notice = "handler returned an oversized mutation result"@;
    is_ascii_chars_encode_utf8(notice);
    match reply {
        Err(failure) => law_failures_fit_a_frame(version, request_id, failure),
        Ok(outcome) => {
            lemma_error_fits(version, request_id, ErrorCode::Internal, notice);
            lemma_envelope(version, request_id);
            lemma_be(3, 1);
            lemma_text_field(outcome.result);
            lemma_be(outcome.payload.len(), 4);
        },
    }
}

/// The answer to a collection request can be encoded in the version that knows it.
pub proof fn law_collection_answers_fit_a_frame(
    version: u16,
    request_id: u64,
    durable: bool,
    reply: Result<AdminOutcomeView, FailureView>,
    completed: u64,
)
    requires
        version >= 2,
    ensures
        response_encoding(
            ResponseView {
                protocol_version: version,
                request_id,
                kind: collection_answer(durable, reply, completed).0,
            },
        ) is Ok,
{
    match reply {
        Err(failure) => law_failures_fit_a_frame(version, request_id, failure),
        Ok(outcome) => {
            lemma_envelope(version, request_id);
            lemma_be(5, 1);
            lemma_admin_outcome(outcome);
        },
    }
}

proof fn lemma_admin_outcome(outcome: AdminOutcomeView)
    ensures
        admin_outcome_bytes(outcome).len() <= 100,
{
    assert forall|value: nat, width: nat| (#[trigger] be(value, width)).len() == width by {
        lemma_be(value, width);
    }
}

/// A mutation that the handler completed is answered with its own result as long as the result
/// fits, and one more mutation counts as completed. A failure keeps its class and counts as
/// nothing.
pub proof fn law_mutation_is_answered_as_it_went(reply: Result<MutationOutcome, OperationError>)
    ensures
        forall|completed: &mut u64, kind: ResponseKind| #[trigger]
            call_ensures(answer_mutation, (reply, completed), kind) ==> {
                &&& reply matches Ok(outcome) ==> if encode_utf8(outcome.result@).len() <= 4_096
                    && outcome.payload@.len() <= 61_440 {
                    &&& kind@ == ResponseKindView::Mutated(outcome@)
                    &&& *completed < u64::MAX ==> *final(completed) == *completed + 1
                    &&& *completed == u64::MAX ==> *final(completed) == u64::MAX
                } else {
                    &&& kind@ matches ResponseKindView::Error(error) && error.code
                        == ErrorCode::Internal
                    &&& *final(completed) == *completed
                }
                &&& reply matches Err(error) ==> {
                    &&& kind@ matches ResponseKindView::Error(told) && told.code == error@.code
                        && told.message.is_prefix_of(error@.message) && (encode_utf8(
                        error@.message,
                    ).len() <= 4_096 ==> told.message == error@.message)
                    &&& *final(completed) == *completed
                }
            },
{
    if let Err(error) = reply {
        law_bounded_message_is_the_longest_fitting_prefix(error@.message);
    }
}

/// Administration of collections and sources is answered with what the handler reported. What
/// changed the library counts: a collection request that was durable and completed, and every
/// successful source request.
pub proof fn law_administration_is_answered_as_it_went(
    durable: bool,
    collection: Result<CollectionAdminProtocolOutcome, OperationError>,
    source: Result<SourceAdministrationOutcome, OperationError>,
)
    ensures
        forall|completed: &mut u64, kind: ResponseKind| #[trigger]
            call_ensures(answer_collection, (durable, collection, completed), kind) ==> {
                &&& collection matches Ok(outcome) ==> kind@ == ResponseKindView::CollectionAdmin(
                    outcome@,
                )
                &&& collection matches Err(error) ==> (kind@ matches ResponseKindView::Error(told)
                    && told.code == error@.code)
                &&& *completed < u64::MAX ==> *final(completed) - *completed == (if durable && (
                collection matches Ok(outcome) && outcome is Completed) {
                    1int
                } else {
                    0int
                })
            },
        forall|completed: &mut u64, kind: ResponseKind| #[trigger]
            call_ensures(answer_source, (source, completed), kind) ==> {
                &&& source matches Ok(outcome) ==> kind@ == ResponseKindView::SourceAdmin(outcome@)
                &&& source matches Err(error) ==> (kind@ matches ResponseKindView::Error(told)
                    && told.code == error@.code)
                &&& *completed < u64::MAX ==> *final(completed) - *completed == (if source is Ok {
                    1int
                } else {
                    0int
                })
            },
{
}

/// A status that fits is told as the handler gave it.
pub proof fn law_status_is_told_as_given(
    handler: HandlerStatus,
    process_id: u32,
    uptime_seconds: u64,
    completed: u64,
    kind: ResponseKind,
)
    requires
        call_ensures(answer_status, (handler, process_id, uptime_seconds, completed), kind),
    ensures
        kind@ is Status <==> encode_utf8(handler.state@).len() <= 4_096 && encode_utf8(
            handler.detail@,
        ).len() <= 4_096,
        kind@ is Status || kind@ is Error,
        kind@ matches ResponseKindView::Status(status) ==> status.state == handler.state@
            && status.detail == handler.detail@ && status.process_id == process_id
            && status.uptime_seconds == uptime_seconds && status.completed_mutations == completed,
        kind@ matches ResponseKindView::Error(error) ==> error.code == ErrorCode::Internal,
{
}

/// Exactly the frames that decode to a request reach the handler. A frame that is too large and
/// bytes that are no request are refused under the request's own number as far as it is known;
/// after any other failure there is nobody to answer.
pub proof fn law_only_requests_are_dispatched(
    frame: Result<Vec<u8>, DaemonError>,
    received: Received,
)
    requires
        call_ensures(receive, (frame,), received),
    ensures
        received is Dispatch <==> (frame matches Ok(bytes) && request_decoding(bytes@) is Ok),
        received is Disconnect <==> (frame matches Err(error) && !(error@ is FrameTooLarge)),
        received@ matches ReceivedView::Dispatch(request) ==> request_decoding(frame->Ok_0@)
            == Ok::<RequestView, DecodeRequestErrorView>(request),
        received@ matches ReceivedView::Disconnect(error) ==> frame->Err_0@ == error,
        received@ matches ReceivedView::Refuse(response) ==> {
            &&& response.protocol_version == 2
            &&& response.kind matches ResponseKindView::Error(error) && (error.code
                == ErrorCode::UnsupportedVersion <==> (frame matches Ok(bytes) && (request_decoding(
                bytes@,
            ) matches Err(refused) && refused is UnsupportedVersion))) && (error.code
                == ErrorCode::UnsupportedVersion || error.code == ErrorCode::InvalidRequest)
            &&& frame is Err ==> response.request_id == 0
            &&& frame matches Ok(bytes) ==> match request_decoding(bytes@) {
                Err(DecodeRequestErrorView::UnsupportedVersion { request_id, version }) =>
                    response.request_id == request_id,
                Err(DecodeRequestErrorView::Invalid { request_id: Some(request_id), message }) =>
                    response.request_id == request_id,
                Err(DecodeRequestErrorView::Invalid { request_id: None, message }) =>
                    response.request_id == 0,
                Ok(request) => false,
            }
        },
{
}

/// An idle listener waits, and looks for background work once a second has passed; only a
/// failure that will not pass ends the loop.
pub proof fn law_idle_daemon_polls(kind: IoFailureKind, idle_seconds: u64, step: AcceptStep)
    requires
        call_ensures(after_failed_accept, (kind, idle_seconds), step),
    ensures
        step is Fail <==> kind != IoFailureKind::WouldBlock && kind != IoFailureKind::Interrupted,
        step is PollAndWait ==> idle_seconds >= 1,
        step is Wait ==> idle_seconds == 0,
{
}

/// Every request is answered under its own number and version with an answer of its kind.
/// Inquiries change nothing; a shutdown is accepted and remembered.
pub proof fn law_requests_are_answered_in_kind<H: RequestHandler>(
    request: Request,
    process_id: u32,
    uptime_seconds: u64,
)
    ensures
        forall|daemon: &mut Daemon<H>, response: Response| #[trigger]
            call_ensures(
                Daemon::<H>::dispatch,
                (daemon, request, process_id, uptime_seconds),
                response,
            ) ==> {
                &&& response.request_id == request.request_id
                &&& response.protocol_version == request.protocol_version
                &&& request.kind is Health ==> response.kind@ == ResponseKindView::Health(
                    HealthView { daemon_version: "0.1.0"@, process_id, uptime_seconds },
                )
                &&& request.kind is Status ==> response.kind@ is Status || response.kind@ is Error
                &&& request.kind is Shutdown ==> response.kind@ is ShutdownAccepted
                    && (*final(daemon)).stopping
                &&& !(request.kind is Shutdown) ==> (*final(daemon)).stopping == (*daemon).stopping
                &&& request.kind is Health || request.kind is Status || request.kind is Shutdown
                    ==> (*final(daemon)).handler == (*daemon).handler
                    && (*final(daemon)).completed_mutations == (*daemon).completed_mutations
                &&& request.kind is Mutate ==> response.kind@ is Mutated || response.kind@ is Error
                &&& request.kind is CollectionAdmin ==> response.kind@ is CollectionAdmin
                    || response.kind@ is Error
                &&& request.kind is SourceAdmin ==> response.kind@ is SourceAdmin || response.kind@
                    is Error
            },
{
}

/// Work is done by the handler, under the daemon's own shutdown flag: its success is the
/// answer.
pub proof fn law_work_is_done_by_the_handler<H: RequestHandler>(
    request: Request,
    process_id: u32,
    uptime_seconds: u64,
)
    ensures
        forall|daemon: &mut Daemon<H>, response: Response| #[trigger]
            call_ensures(
                Daemon::<H>::dispatch,
                (daemon, request, process_id, uptime_seconds),
                response,
            ) ==> {
                let control = OperationControl { running: Some((*daemon).running) };
                &&& request.kind matches RequestKind::Mutate(mutation) ==> exists|
                    h: &mut H,
                    reply: Result<MutationOutcome, OperationError>,
                | #[trigger]
                    call_ensures(H::mutate, (h, mutation, control), reply) && *h
                        == (*daemon).handler && *final(h) == (*final(daemon)).handler && (
                    response.kind@ matches ResponseKindView::Mutated(outcome) ==> reply is Ok
                        && reply->Ok_0@ == outcome)
                &&& request.kind matches RequestKind::CollectionAdmin(asked) ==> exists|
                    h: &mut H,
                    reply: Result<CollectionAdminProtocolOutcome, OperationError>,
                | #[trigger]
                    call_ensures(H::administer_collection, (h, asked, control), reply) && *h
                        == (*daemon).handler && *final(h) == (*final(daemon)).handler && (
                    response.kind@ matches ResponseKindView::CollectionAdmin(outcome) ==> reply
                        is Ok && reply->Ok_0@ == outcome)
                &&& request.kind matches RequestKind::SourceAdmin(asked) ==> exists|
                    h: &mut H,
                    reply: Result<SourceAdministrationOutcome, OperationError>,
                | #[trigger]
                    call_ensures(H::administer_source, (h, asked, control), reply) && *h
                        == (*daemon).handler && *final(h) == (*final(daemon)).handler && (
                    response.kind@ matches ResponseKindView::SourceAdmin(outcome) ==> reply is Ok
                        && reply->Ok_0@ == outcome)
            },
{
}

/// One poll lets the handler do at most one piece of background work and counts it if it
/// was done; nothing else of the daemon changes.
pub proof fn law_done_background_work_is_counted<H: RequestHandler>()
    ensures
        forall|daemon: &mut Daemon<H>, nothing: ()| #[trigger]
            call_ensures(Daemon::<H>::poll_background, (daemon,), nothing) ==> {
                &&& (*final(daemon)).running == (*daemon).running
                &&& (*final(daemon)).stopping == (*daemon).stopping
                &&& exists|h: &mut H, reply: Result<Option<MutationOutcome>, OperationError>|
                    #[trigger] call_ensures(
                        H::poll_background,
                        (h, OperationControl { running: Some((*daemon).running) }),
                        reply,
                    ) && *h == (*daemon).handler && *final(h) == (*final(daemon)).handler && (
                    reply is Ok && reply->Ok_0 is Some && (*daemon).completed_mutations < u64::MAX
                        ==> (*final(daemon)).completed_mutations == (*daemon).completed_mutations
                        + 1) && (!(reply is Ok && reply->Ok_0 is Some)
                        ==> (*final(daemon)).completed_mutations == (*daemon).completed_mutations)
            },
{
}

/// Only a frame that holds a request changes anything: any other leaves the daemon as it was.
/// A request to stop, and no other, stops the daemon, and its flag stays the same one.
pub proof fn law_only_requests_change_the_daemon<H: RequestHandler>(
    frame: Result<Vec<u8>, DaemonError>,
    process_id: u32,
    uptime_seconds: u64,
)
    ensures
        forall|daemon: &mut Daemon<H>, reply: Result<Vec<u8>, DaemonError>| #[trigger]
            call_ensures(
                Daemon::<H>::serve_one,
                (daemon, frame, process_id, uptime_seconds),
                reply,
            ) ==> {
                &&& (*final(daemon)).running == (*daemon).running
                &&& !(frame is Ok && request_decoding(frame->Ok_0@) is Ok) ==> *final(daemon)
                    == *daemon
                &&& frame matches Err(error) ==> (reply is Ok ==> error@ is FrameTooLarge)
                &&& frame matches Ok(bytes) ==> (request_decoding(bytes@) matches Ok(request) ==> {
                    &&& (*final(daemon)).stopping == ((*daemon).stopping || request.kind
                        is Shutdown)
                    &&& request.kind is Health || request.kind is Status || request.kind
                        is Shutdown ==> (*final(daemon)).handler == (*daemon).handler
                        && (*final(daemon)).completed_mutations == (*daemon).completed_mutations
                })
            },
{
}

/// A daemon starts once its handler has recovered, with nothing counted, not stopping, and with
/// the handler watching the flag that the daemon keeps. What the handler refuses is reported.
pub proof fn law_daemon_starts_with_a_recovered_handler<H: RequestHandler>(
    handler: H,
    result: Result<Daemon<H>, DaemonError>,
)
    requires
        call_ensures(Daemon::<H>::start, (handler,), result),
    ensures
        exists|h: &mut H, control: OperationControl, reply: Result<(), OperationError>|
            #[trigger] call_ensures(H::startup, (h, control), reply) && *h == handler && (reply
                is Ok <==> result is Ok) && (result matches Ok(daemon) ==> daemon.handler
                == *final(h) && control.running == Some(daemon.running)
                && daemon.completed_mutations == 0 && !daemon.stopping) && (reply matches Err(
                error,
            ) ==> (result matches Err(failure) && failure@ == DaemonErrorView::Startup(
                error@.message,
            ))),
{
}

/// Handles and controls of a daemon watch the flag that it keeps.
pub proof fn law_handles_share_the_flag<H: RequestHandler>(
    daemon: &Daemon<H>,
    handle: ShutdownHandle,
    control: OperationControl,
)
    requires
        call_ensures(Daemon::<H>::shutdown_handle, (daemon,), handle),
        call_ensures(Daemon::<H>::operation_control, (daemon,), control),
    ensures
        handle.running == daemon.running,
        control.running == Some(daemon.running),
{
}

} // verus!
