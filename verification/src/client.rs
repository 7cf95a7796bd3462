//! A client of one library-local daemon.
//!
//! The socket itself is handled outside. An [`Exchange`] gives the frame to write and
//! takes the frame that was read; an [`Upload`] strings exchanges together so that even
//! the largest collection draft never weakens the frame ceiling.

use vstd::prelude::*;
use vstd::string::*;

use crate::codec::{decode_response, encode_request, request_encoding, response_decoding};
use crate::control_plane::{
    canonical_library_root, canonical_root, daemon_socket_path, joined, RootProbe,
    DAEMON_SOCKET_NAME,
};
use crate::daemon::frame_view;
use crate::dump_bootstrap::{CurrentDumpBootstrapOutcome, DumpOutcomeView};
use crate::dump_codec::{policy_view, IndexPolicy};
use crate::dump_receipt::{decode_dump_result, dump_outcome_decoding, dump_result_decoding};
use crate::error::{DaemonError, DaemonErrorView, ErrorCode, IoFailureKind};
use crate::frame::{frame_bytes, framing};
use crate::protocol::{
    AdminOutcomeView, CollectionAdminProtocolOutcome, DaemonStatus, Health, HealthView,
    MutationOutcome, MutationOutcomeView, Request, RequestKind, RequestKindView, RequestView,
    ResponseKind, ResponseKindView, StatusView, MIN_PROTOCOL_VERSION, PROTOCOL_VERSION,
};
use crate::source::{SourceAdministrationOutcome, SourceOutcomeView};

verus! {

/// Seconds that a short request may take.
pub const CLIENT_IO_TIMEOUT_SECONDS: u64 = 5;

/// Seconds that a request may take whose work runs before it is answered.
pub const LONG_OPERATION_TIMEOUT_SECONDS: u64 = 86_400;

/// A client for one library-local daemon.
#[derive(Debug, PartialEq, Eq)]
pub struct Client {
    pub socket_path: String,
    pub next_request_id: u64,
}

/// One request that waits for its response.
#[derive(Debug, PartialEq, Eq)]
pub struct Exchange {
    pub request: Request,
    /// Whether an older daemon may be asked again in its own version.
    pub compatible: bool,
}

/// What follows from the response to a request.
#[derive(Debug, PartialEq, Eq)]
pub enum ExchangeStep {
    /// Ask again in the oldest version.
    Again(Exchange),
    /// The exchange is over.
    Done(Result<ResponseKind, DaemonError>),
}

/// Plain view of a step.
pub enum ExchangeStepView {
    Again { request: RequestView, compatible: bool },
    Done(Result<ResponseKindView, DaemonErrorView>),
}

/// A result as plain data.
pub open spec fn result_view<T: View>(result: Result<T, DaemonError>) -> Result<
    T::V,
    DaemonErrorView,
> {
    match result {
        Ok(value) => Ok(value@),
        Err(error) => Err(error@),
    }
}

impl View for ExchangeStep {
    type V = ExchangeStepView;

    open spec fn view(&self) -> ExchangeStepView {
        match self {
            ExchangeStep::Again(exchange) => ExchangeStepView::Again {
                request: exchange.request@,
                compatible: exchange.compatible,
            },
            ExchangeStep::Done(result) => ExchangeStepView::Done(result_view(*result)),
        }
    }
}

/// Identifiers count up and start over at their ceiling.
pub open spec fn following_id(id: u64) -> u64 {
    if id == u64::MAX {
        0
    } else {
        (id + 1) as u64
    }
}

/// Whether the work of a request runs before it is answered.
pub open spec fn long_request(kind: RequestKindView) -> bool {
    kind is Mutate || kind is Shutdown || kind is CollectionAdmin || kind is SourceAdmin
}

/// What the frame of a response means for the request it answers.
pub open spec fn response_meaning(
    version: u16,
    request_id: u64,
    frame: Result<Seq<u8>, DaemonErrorView>,
) -> Result<ResponseKindView, DaemonErrorView> {
    match frame {
        Err(error) => Err(error),
        Ok(bytes) => match response_decoding(bytes) {
            Err(message) => Err(DaemonErrorView::Protocol(message)),
            Ok(response) => if response.request_id != request_id {
                Err(DaemonErrorView::Protocol("daemon response ID did not match request"@))
            } else if response.kind matches ResponseKindView::Error(error) && error.code
                == ErrorCode::UnsupportedVersion {
                Err(DaemonErrorView::Remote(response.kind->Error_0))
            } else if response.protocol_version != version {
                Err(DaemonErrorView::Protocol("daemon response version changed"@))
            } else {
                Ok(response.kind)
            },
        },
    }
}

/// Whether the peer does not know the version of the request.
pub open spec fn version_refused(result: Result<ResponseKindView, DaemonErrorView>) -> bool {
    result matches Err(DaemonErrorView::Remote(failure)) && failure.code
        == ErrorCode::UnsupportedVersion
}

impl Exchange {
    /// Seconds to wait for the response.
    pub fn read_timeout_seconds(&self) -> (seconds: u64)
        ensures
            seconds == if long_request(self.request@.kind) {
                LONG_OPERATION_TIMEOUT_SECONDS
            } else {
                CLIENT_IO_TIMEOUT_SECONDS
            },
    {
        match &self.request.kind {
            RequestKind::Mutate(_)
            | RequestKind::Shutdown
            | RequestKind::CollectionAdmin(_)
            | RequestKind::SourceAdmin(_) => LONG_OPERATION_TIMEOUT_SECONDS,
            _ => CLIENT_IO_TIMEOUT_SECONDS,
        }
    }

    /// The frame to write.
    pub fn frame(&self) -> (r: Result<Vec<u8>, DaemonError>)
        ensures
            frame_view(r) == match request_encoding(self.request@) {
                Ok(bytes) => framing(bytes),
                Err(error) => Err(error),
            },
    {
        let bytes = encode_request(&self.request)?;
        frame_bytes(bytes.as_slice())
    }

    /// Holds the response frame against the request.
    pub fn meaning(&self, frame: Result<Vec<u8>, DaemonError>) -> (r: Result<
        ResponseKind,
        DaemonError,
    >)
        ensures
            result_view(r) == response_meaning(
                self.request.protocol_version,
                self.request.request_id,
                frame_view(frame),
            ),
    {
        let bytes = frame?;
        let response = decode_response(bytes.as_slice())?;
        if response.request_id != self.request.request_id {
            return Err(DaemonError::Protocol("daemon response ID did not match request"));
        }
        let protocol_version: u16 = response.protocol_version;
        let kind = match response.kind {
            ResponseKind::Error(error) => {
                if error.code == ErrorCode::UnsupportedVersion {
                    return Err(DaemonError::Remote(error));
                }
                ResponseKind::Error(error)
            },
            kind => kind,
        };
        if protocol_version != self.request.protocol_version {
            return Err(DaemonError::Protocol("daemon response version changed"));
        }
        Ok(kind)
    }
}

/// The step after a response; an older daemon is asked once more in its own version.
pub open spec fn exchange_step(
    request: RequestView,
    compatible: bool,
    next_request_id: u64,
    frame: Result<Seq<u8>, DaemonErrorView>,
) -> ExchangeStepView {
    let result = response_meaning(request.protocol_version, request.request_id, frame);
    if compatible && version_refused(result) {
        ExchangeStepView::Again {
            request: RequestView {
                protocol_version: MIN_PROTOCOL_VERSION,
                request_id: next_request_id,
                kind: request.kind,
            },
            compatible: false,
        }
    } else {
        ExchangeStepView::Done(result)
    }
}

/// The error for a result of the wrong kind.
pub open spec fn unexpected(operation: Seq<char>, kind: ResponseKindView) -> DaemonErrorView {
    match kind {
        ResponseKindView::Error(error) => DaemonErrorView::Remote(error),
        _ => DaemonErrorView::Protocol(operation),
    }
}

fn unexpected_response(kind: ResponseKind, message: &'static str) -> (error: DaemonError)
    ensures
        error@ == unexpected(message@, kind@),
{
    match kind {
        ResponseKind::Error(error) => DaemonError::Remote(error),
        _ => DaemonError::Protocol(message),
    }
}

/// The result of a liveness request.
pub open spec fn health_result(result: Result<ResponseKindView, DaemonErrorView>) -> Result<
    HealthView,
    DaemonErrorView,
> {
    match result {
        Err(error) => Err(error),
        Ok(ResponseKindView::Health(health)) => Ok(health),
        Ok(kind) => Err(unexpected("unexpected response to health request"@, kind)),
    }
}

/// Whether a daemon answers.
pub open spec fn running_result(health: Result<HealthView, DaemonErrorView>) -> Result<
    bool,
    DaemonErrorView,
> {
    match health {
        Ok(_) => Ok(true),
        Err(error) => match error {
            DaemonErrorView::Io { kind, message } => if kind.is_absent_listener() {
                Ok(false)
            } else {
                Err(error)
            },
            _ => Err(error),
        },
    }
}

/// The result of a status request.
pub open spec fn status_result(result: Result<ResponseKindView, DaemonErrorView>) -> Result<
    StatusView,
    DaemonErrorView,
> {
    match result {
        Err(error) => Err(error),
        Ok(ResponseKindView::Status(status)) => Ok(status),
        Ok(kind) => Err(unexpected("unexpected response to status request"@, kind)),
    }
}

/// The result of a mutation request.
pub open spec fn mutation_result(result: Result<ResponseKindView, DaemonErrorView>) -> Result<
    MutationOutcomeView,
    DaemonErrorView,
> {
    match result {
        Err(error) => Err(error),
        Ok(ResponseKindView::Mutated(outcome)) => Ok(outcome),
        Ok(kind) => Err(unexpected("unexpected response to mutation request"@, kind)),
    }
}

/// The result of a shutdown request.
pub open spec fn shutdown_result(result: Result<ResponseKindView, DaemonErrorView>) -> Result<
    (),
    DaemonErrorView,
> {
    match result {
        Err(error) => Err(error),
        Ok(ResponseKindView::ShutdownAccepted) => Ok(()),
        Ok(kind) => Err(unexpected("unexpected response to shutdown request"@, kind)),
    }
}

/// The result of a source request.
pub open spec fn source_result(result: Result<ResponseKindView, DaemonErrorView>) -> Result<
    SourceOutcomeView,
    DaemonErrorView,
> {
    match result {
        Err(error) => Err(error),
        Ok(ResponseKindView::SourceAdmin(outcome)) => Ok(outcome),
        Ok(kind) => Err(unexpected("unexpected response kind"@, kind)),
    }
}

/// The result of a collection request.
pub open spec fn collection_result(result: Result<ResponseKindView, DaemonErrorView>) -> Result<
    AdminOutcomeView,
    DaemonErrorView,
> {
    match result {
        Err(error) => Err(error),
        Ok(ResponseKindView::CollectionAdmin(outcome)) => Ok(outcome),
        Ok(kind) => Err(unexpected("unexpected response kind"@, kind)),
    }
}

/// The result of a bootstrap that was forwarded as a mutation.
pub open spec fn bootstrap_result(
    result: Result<ResponseKindView, DaemonErrorView>,
    policy: IndexPolicy,
) -> Result<DumpOutcomeView, DaemonErrorView> {
    match mutation_result(result) {
        Err(error) => Err(error),
        Ok(outcome) => dump_result_decoding(outcome, policy),
    }
}

impl Client {
    /// Creates a client without opening a persistent connection.
    pub fn for_library(library_root: &str, probe: RootProbe) -> (r: Result<Client, DaemonError>)
        ensures
            match r {
                Ok(client) => canonical_root(library_root@, probe) matches Ok(root)
                    && client.socket_path@ == joined(root, DAEMON_SOCKET_NAME@)
                    && client.next_request_id == 1,
                Err(error) => canonical_root(library_root@, probe) == Err::<
                    Seq<char>,
                    DaemonErrorView,
                >(error@),
            },
    {
        let root = canonical_library_root(library_root, probe)?;
        Ok(Client { socket_path: daemon_socket_path(root.as_str()), next_request_id: 1 })
    }

    fn take_id(&mut self) -> (id: u64)
        ensures
            id == old(self).next_request_id,
            final(self).next_request_id == following_id(old(self).next_request_id),
            final(self).socket_path == old(self).socket_path,
    {
        let id: u64 = self.next_request_id;
        self.next_request_id = if id == u64::MAX {
            0
        } else {
            id + 1
        };
        id
    }

    /// Starts a request in the current version.
    pub fn call(&mut self, kind: RequestKind) -> (exchange: Exchange)
        ensures
            exchange.request == (Request {
                protocol_version: PROTOCOL_VERSION,
                request_id: old(self).next_request_id,
                kind,
            }),
            !exchange.compatible,
            final(self).next_request_id == following_id(old(self).next_request_id),
            final(self).socket_path == old(self).socket_path,
    {
        let request_id: u64 = self.take_id();
        Exchange {
            request: Request { protocol_version: PROTOCOL_VERSION, request_id, kind },
            compatible: false,
        }
    }

    /// Starts a request that an older daemon may answer in its own version.
    pub fn call_compatible(&mut self, kind: RequestKind) -> (exchange: Exchange)
        ensures
            exchange.request == (Request {
                protocol_version: PROTOCOL_VERSION,
                request_id: old(self).next_request_id,
                kind,
            }),
            exchange.compatible,
            final(self).next_request_id == following_id(old(self).next_request_id),
            final(self).socket_path == old(self).socket_path,
    {
        let request_id: u64 = self.take_id();
        Exchange {
            request: Request { protocol_version: PROTOCOL_VERSION, request_id, kind },
            compatible: true,
        }
    }

    /// Takes the response frame, or the failure to exchange one.
    pub fn answered(
        &mut self,
        exchange: Exchange,
        frame: Result<Vec<u8>, DaemonError>,
    ) -> (step: ExchangeStep)
        ensures
            step@ == exchange_step(
                exchange.request@,
                exchange.compatible,
                old(self).next_request_id,
                frame_view(frame),
            ),
            final(self).socket_path == old(self).socket_path,
            final(self).next_request_id == if step is Again {
                following_id(old(self).next_request_id)
            } else {
                old(self).next_request_id
            },
    {
        let result = exchange.meaning(frame);
        let refused: bool = match &result {
            Err(DaemonError::Remote(error)) => error.code == ErrorCode::UnsupportedVersion,
            _ => false,
        };
        if exchange.compatible && refused {
            let request_id: u64 = self.take_id();
            ExchangeStep::Again(
                Exchange {
                    request: Request {
                        protocol_version: MIN_PROTOCOL_VERSION,
                        request_id,
                        kind: exchange.request.kind,
                    },
                    compatible: false,
                },
            )
        } else {
            ExchangeStep::Done(result)
        }
    }

    /// Reads the result of a liveness request.
    pub fn health(result: Result<ResponseKind, DaemonError>) -> (r: Result<Health, DaemonError>)
        ensures
            result_view(r) == health_result(result_view(result)),
    {
        match result? {
            ResponseKind::Health(health) => Ok(health),
            kind => Err(unexpected_response(kind, "unexpected response to health request")),
        }
    }

    /// Returns true only when a compatible daemon answered a health request.
    pub fn is_running(health: Result<Health, DaemonError>) -> (r: Result<bool, DaemonError>)
        ensures
            result_view(r) == running_result(result_view(health)),
    {
        match health {
            Ok(_) => Ok(true),
            Err(DaemonError::Io(failure)) => if failure.kind.absent_listener() {
                Ok(false)
            } else {
                Err(DaemonError::Io(failure))
            },
            Err(error) => Err(error),
        }
    }

    /// Reads the result of a status request.
    pub fn status(result: Result<ResponseKind, DaemonError>) -> (r: Result<
        DaemonStatus,
        DaemonError,
    >)
        ensures
            result_view(r) == status_result(result_view(result)),
    {
        match result? {
            ResponseKind::Status(status) => Ok(status),
            kind => Err(unexpected_response(kind, "unexpected response to status request")),
        }
    }

    /// Reads the result of a forwarded mutation.
    pub fn forward_mutation(result: Result<ResponseKind, DaemonError>) -> (r: Result<
        MutationOutcome,
        DaemonError,
    >)
        ensures
            result_view(r) == mutation_result(result_view(result)),
    {
        match result? {
            ResponseKind::Mutated(outcome) => Ok(outcome),
            kind => Err(unexpected_response(kind, "unexpected response to mutation request")),
        }
    }

    /// Reads the receipt of a forwarded current-dump bootstrap, given the transfer client's
    /// verdict on the index that it names.
    pub fn bootstrap_collection_from_current_dump(
        result: Result<ResponseKind, DaemonError>,
        index_policy: Result<(), String>,
    ) -> (r: Result<CurrentDumpBootstrapOutcome, DaemonError>)
        ensures
            result_view(r) == bootstrap_result(result_view(result), policy_view(index_policy)),
    {
        let outcome = Client::forward_mutation(result)?;
        decode_dump_result(&outcome, index_policy)
    }

    /// Reads the result of a shutdown request.
    pub fn shutdown(result: Result<ResponseKind, DaemonError>) -> (r: Result<(), DaemonError>)
        ensures
            match r {
                Ok(()) => shutdown_result(result_view(result)) == Ok::<(), DaemonErrorView>(()),
                Err(error) => shutdown_result(result_view(result)) == Err::<(), DaemonErrorView>(
                    error@,
                ),
            },
    {
        match result? {
            ResponseKind::ShutdownAccepted => Ok(()),
            kind => Err(unexpected_response(kind, "unexpected response to shutdown request")),
        }
    }

    /// Reads the result of a source request.
    pub fn administer_source(result: Result<ResponseKind, DaemonError>) -> (r: Result<
        SourceAdministrationOutcome,
        DaemonError,
    >)
        ensures
            result_view(r) == source_result(result_view(result)),
    {
        match result? {
            ResponseKind::SourceAdmin(outcome) => Ok(outcome),
            kind => Err(unexpected_response(kind, "unexpected response kind")),
        }
    }

    /// Reads the result of one collection request.
    pub fn collection_admin_call(result: Result<ResponseKind, DaemonError>) -> (r: Result<
        CollectionAdminProtocolOutcome,
        DaemonError,
    >)
        ensures
            result_view(r) == collection_result(result_view(result)),
    {
        match result? {
            ResponseKind::CollectionAdmin(outcome) => Ok(outcome),
            kind => Err(unexpected_response(kind, "unexpected response kind")),
        }
    }
}

/// A request goes out in the current version under the next number, and every request gets a
/// number of its own.
pub proof fn law_requests_are_numbered(kind: RequestKind)
    ensures
        forall|client: &mut Client, exchange: Exchange| #[trigger]
            call_ensures(Client::call, (client, kind), exchange) ==> {
                &&& exchange.request.protocol_version == 2
                &&& exchange.request.kind == kind
                &&& exchange.request.request_id == (*client).next_request_id
                &&& (*final(client)).next_request_id != (*client).next_request_id
                &&& (*client).next_request_id < u64::MAX ==> (*final(client)).next_request_id
                    == (*client).next_request_id + 1
                &&& (*final(client)).socket_path == (*client).socket_path
                &&& !exchange.compatible
            },
        forall|client: &mut Client, exchange: Exchange| #[trigger]
            call_ensures(Client::call_compatible, (client, kind), exchange) ==> {
                &&& exchange.request.protocol_version == 2
                &&& exchange.request.kind == kind
                &&& exchange.request.request_id == (*client).next_request_id
                &&& (*final(client)).next_request_id != (*client).next_request_id
                &&& (*client).next_request_id < u64::MAX ==> (*final(client)).next_request_id
                    == (*client).next_request_id + 1
                &&& (*final(client)).socket_path == (*client).socket_path
                &&& exchange.compatible
            },
{
}

/// A response counts only if it can be read, answers this very request and is of its version;
/// then its kind is the result. A peer that does not know the version says so in its own.
pub proof fn law_only_the_matching_response_counts(
    exchange: Exchange,
    frame: Result<Vec<u8>, DaemonError>,
    r: Result<ResponseKind, DaemonError>,
)
    requires
        call_ensures(Exchange::meaning, (&exchange, frame), r),
    ensures
        r matches Ok(kind) ==> (frame matches Ok(bytes) && (response_decoding(
            bytes@,
        ) matches Ok(response) && response.request_id == exchange.request.request_id
            && response.protocol_version == exchange.request.protocol_version && response.kind
            == kind@)),
        frame matches Ok(bytes) ==> (response_decoding(bytes@) matches Ok(response) ==> {
            let refused = response.kind matches ResponseKindView::Error(error) && error.code
                == ErrorCode::UnsupportedVersion;
            &&& response.request_id == exchange.request.request_id && !refused
                && response.protocol_version == exchange.request.protocol_version ==> r is Ok
            &&& response.request_id != exchange.request.request_id ==> r is Err
            &&& response.request_id == exchange.request.request_id && refused ==> (
            r matches Err(error) && error@ is Remote)
        }),
        frame matches Err(error) ==> (r matches Err(told) && told@ == error@),
{
}

/// An older daemon is asked once more, in the oldest version and under a new number, and only
/// where the request allows it; every other answer ends the exchange.
pub proof fn law_only_an_older_daemon_is_asked_again(
    exchange: Exchange,
    frame: Result<Vec<u8>, DaemonError>,
    meaning: Result<ResponseKind, DaemonError>,
)
    requires
        call_ensures(Exchange::meaning, (&exchange, frame), meaning),
    ensures
        forall|client: &mut Client, step: ExchangeStep| #[trigger]
            call_ensures(Client::answered, (client, exchange, frame), step) ==> {
                let refused = meaning matches Err(error) && (
                error@ matches DaemonErrorView::Remote(failure) && failure.code
                    == ErrorCode::UnsupportedVersion);
                &&& step is Again <==> exchange.compatible && refused
                &&& step matches ExchangeStep::Again(again) ==> again.request@.protocol_version == 1
                    && again.request@.kind == exchange.request@.kind && again.request@.request_id
                    == (*client).next_request_id && !again.compatible
                &&& step matches ExchangeStep::Done(result) ==> result_view(result) == result_view(
                    meaning,
                )
            },
{
}

/// Each result is read from the response of its own kind; a daemon's refusal is passed on, and
/// any other kind is an error.
pub proof fn law_results_are_of_their_own_kind(
    result: Result<ResponseKind, DaemonError>,
    health: Result<Health, DaemonError>,
    status: Result<DaemonStatus, DaemonError>,
    mutated: Result<MutationOutcome, DaemonError>,
    stopped: Result<(), DaemonError>,
    source: Result<SourceAdministrationOutcome, DaemonError>,
    collection: Result<CollectionAdminProtocolOutcome, DaemonError>,
)
    requires
        call_ensures(Client::health, (result,), health),
        call_ensures(Client::status, (result,), status),
        call_ensures(Client::forward_mutation, (result,), mutated),
        call_ensures(Client::shutdown, (result,), stopped),
        call_ensures(Client::administer_source, (result,), source),
        call_ensures(Client::collection_admin_call, (result,), collection),
    ensures
        health is Ok <==> (result matches Ok(kind) && kind is Health),
        status is Ok <==> (result matches Ok(kind) && kind is Status),
        mutated is Ok <==> (result matches Ok(kind) && kind is Mutated),
        stopped is Ok <==> (result matches Ok(kind) && kind is ShutdownAccepted),
        source is Ok <==> (result matches Ok(kind) && kind is SourceAdmin),
        collection is Ok <==> (result matches Ok(kind) && kind is CollectionAdmin),
        result matches Ok(ResponseKind::Health(given)) ==> health->Ok_0@ == given@,
        result matches Ok(ResponseKind::Status(given)) ==> status->Ok_0@ == given@,
        result matches Ok(ResponseKind::Mutated(given)) ==> mutated->Ok_0@ == given@,
        result matches Ok(ResponseKind::SourceAdmin(given)) ==> source->Ok_0@ == given@,
        result matches Ok(ResponseKind::CollectionAdmin(given)) ==> collection->Ok_0@ == given@,
        result matches Ok(ResponseKind::Error(error)) ==> {
            let refusal = DaemonErrorView::Remote(error@);
            &&& health->Err_0@ == refusal && status->Err_0@ == refusal && mutated->Err_0@ == refusal
            &&& stopped->Err_0@ == refusal && source->Err_0@ == refusal && collection->Err_0@
                == refusal
        },
        result matches Err(error) ==> {
            &&& health->Err_0@ == error@ && status->Err_0@ == error@ && mutated->Err_0@ == error@
            &&& stopped->Err_0@ == error@ && source->Err_0@ == error@ && collection->Err_0@
                == error@
        },
{
}

/// A daemon runs if it answers, and does not run if nobody listens; any other failure leaves
/// the question open.
pub proof fn law_a_daemon_runs_if_it_answers(
    health: Result<Health, DaemonError>,
    r: Result<bool, DaemonError>,
)
    requires
        call_ensures(Client::is_running, (health,), r),
    ensures
        r == Ok::<bool, DaemonError>(true) <==> health is Ok,
        r == Ok::<bool, DaemonError>(false) <==> (health matches Err(error) && (
        error@ matches DaemonErrorView::Io { kind, message } && (kind == IoFailureKind::NotFound
            || kind == IoFailureKind::ConnectionRefused || kind
            == IoFailureKind::ConnectionReset))),
{
}

/// Requests whose work runs before the answer are waited for a day, the others for seconds.
pub proof fn law_work_is_waited_for(exchange: Exchange, seconds: u64)
    requires
        call_ensures(Exchange::read_timeout_seconds, (&exchange,), seconds),
    ensures
        exchange.request.kind is Health || exchange.request.kind is Status ==> seconds == 5,
        !(exchange.request.kind is Health || exchange.request.kind is Status) ==> seconds == 86_400,
{
}

/// A client of a library asks the socket in the library's own directory, and its first request
/// has the number one. Without such a directory there is no client.
pub proof fn law_client_asks_the_socket_of_its_library(
    library_root: &str,
    probe: RootProbe,
    r: Result<Client, DaemonError>,
)
    requires
        call_ensures(Client::for_library, (library_root, probe), r),
    ensures
        r is Ok <==> canonical_root(library_root@, probe) is Ok,
        r matches Ok(client) ==> client.next_request_id == 1 && client.socket_path@ == joined(
            canonical_root(library_root@, probe)->Ok_0,
            ".wikisyncd.sock"@,
        ),
{
}

/// A bootstrap is told by a receipt of its own name that can be read; a refusal is handed on.
pub proof fn law_bootstrap_is_told_by_its_receipt(
    result: Result<ResponseKind, DaemonError>,
    index_policy: Result<(), String>,
    r: Result<CurrentDumpBootstrapOutcome, DaemonError>,
)
    requires
        call_ensures(
            Client::bootstrap_collection_from_current_dump,
            (result, index_policy),
            r,
        ),
    ensures
        r is Ok ==> (result_view(result) matches Ok(ResponseKindView::Mutated(outcome))
            && outcome.result == "current-dump-bootstrap-complete"@ && Ok::<
            DumpOutcomeView,
            Seq<char>,
        >(r->Ok_0@) == dump_outcome_decoding(outcome.payload, policy_view(index_policy))),
        result matches Err(error) ==> r is Err && r->Err_0@ == error@,
        result_view(result) matches Ok(ResponseKindView::Mutated(outcome)) ==> (outcome.result
            == "current-dump-bootstrap-complete"@ && dump_outcome_decoding(
            outcome.payload,
            policy_view(index_policy),
        ) is Ok ==> r is Ok),
{
}

} // verus!
