//! What the daemon's application services are asked to do and what they report back.
//!
//! The store, the network and the clock are driven outside. A mutation is first turned
//! into [`Work`]; the results of that work come back as plain values and become receipts.

use vstd::prelude::*;
use vstd::string::*;
use vstd::utf8::*;

use crate::control_plane::{canonical_library_root, canonical_root, RootProbe};
use crate::dump_bootstrap::{
    CurrentDumpBootstrapOutcome, CurrentDumpBootstrapRequest, DumpRequestView, TrustedDumpIndex,
};
use crate::dump_codec::{
    accepted, decode_current_dump_bootstrap_request, dump_index, dump_request_decoding,
    dump_request_encoding, dump_request_index, policy_view, CURRENT_DUMP_BOOTSTRAP_RESULT, SET_CURRENT_DUMP_BOOTSTRAP_EXTENSION,
};
use crate::dump_laws::{
    law_dump_request_round_trip, law_judged_index_is_the_one_decoded, valid_dump_request,
};
use crate::dump_receipt::{dump_outcome_encoding, encode_current_dump_bootstrap_outcome};
use crate::error::{failure, DaemonError, DaemonErrorView, ErrorCode, FailureView, OperationError};
use crate::extension::{
    decode_collection_schedule, decode_network_transfer_policy, law_policy_payload_round_trip,
    law_schedule_payload_round_trip, ordered_policy, ordered_schedule, policy_payload,
    schedule_payload, ScheduleOrder, SET_COLLECTION_SCHEDULE_EXTENSION,
    SET_NETWORK_TRANSFER_POLICY_EXTENSION,
};
use crate::model::{
    valid_cadence, valid_network, CadenceView, CollectionId, ModelError, NetworkTransferPolicy,
    NetworkView, WikiId,
};
use crate::protocol::{
    HandlerStatus, Mutation, MutationOutcome, MutationOutcomeView, MutationView,
};
use crate::purge::{
    purge_outcome_bytes, purge_request_decoding, purge_request_encoding, purge_result,
    CollectionPurgeOutcome, PurgeRequestView, COLLECTION_PURGE_EXTENSION, COLLECTION_PURGE_RESULT,
};
use crate::purge_laws::law_purge_request_round_trip;
use crate::text::{
    debug_quoted, decimal, decimal_text, holds_text, lemma_end, lemma_neighbours, lemma_strung,
    quoted, same_text, strung,
};
use crate::user_agent::{
    application_user_agent, configured_user_agent, ConfiguredContact, UserAgentConfigError,
};
use crate::wire::to_vec;

verus! {

/// Mutation dispatcher of one library.
#[derive(Debug, PartialEq, Eq)]
pub struct ApplicationHandler {
    pub library_root: String,
    pub last_operation: Option<String>,
}

/// A dump bootstrap whose index is still to be judged.
#[derive(Debug, PartialEq, Eq)]
pub struct PendingBootstrap {
    pub payload: Vec<u8>,
    pub index: TrustedDumpIndex,
}

/// What the application services are asked to do.
#[derive(Debug, PartialEq, Eq)]
pub enum Work {
    SyncAll,
    SyncCollection(CollectionId),
    Verify { full: bool },
    Compact,
    /// Run a purge session for this request payload.
    Purge { payload: Vec<u8> },
    /// Let the transfer client judge an index, then run the dump bootstrap.
    BootstrapDump(PendingBootstrap),
    /// Store the schedule of a collection.
    SetSchedule(ScheduleOrder),
    /// Store the network policy of the library.
    SetNetworkPolicy(NetworkTransferPolicy),
}

/// Plain view of requested work.
pub enum WorkView {
    SyncAll,
    SyncCollection(u64),
    Verify { full: bool },
    Compact,
    Purge { payload: Seq<u8> },
    /// The request payload with the URL, digest and database of its index.
    BootstrapDump { payload: Seq<u8>, index: (Seq<char>, Seq<char>, Seq<char>) },
    SetSchedule((u64, CadenceView, u32, bool)),
    SetNetworkPolicy(NetworkView),
}

impl View for Work {
    type V = WorkView;

    open spec fn view(&self) -> WorkView {
        match self {
            Work::SyncAll => WorkView::SyncAll,
            Work::SyncCollection(id) => WorkView::SyncCollection(id@),
            Work::Verify { full } => WorkView::Verify { full: *full },
            Work::Compact => WorkView::Compact,
            Work::Purge { payload } => WorkView::Purge { payload: payload@ },
            Work::BootstrapDump(pending) => WorkView::BootstrapDump {
                payload: pending.payload@,
                index: (
                    pending.index.url@,
                    pending.index.digest@,
                    pending.index.expected_database@,
                ),
            },
            Work::SetSchedule(order) => WorkView::SetSchedule(order@),
            Work::SetNetworkPolicy(policy) => WorkView::SetNetworkPolicy(policy@),
        }
    }
}

/// The counts of one reconciled collection.
#[derive(Clone, Copy, Debug, PartialEq, Eq, Structural)]
pub struct ReconciliationReport {
    pub pages_checked: usize,
    pub differing_heads: usize,
    pub missing_pages: usize,
    pub revision_batches: usize,
    pub revisions_enumerated: usize,
    pub revisions_captured: usize,
    pub revisions_reused: usize,
    pub resumed: bool,
}

/// The counts of several reconciled collections.
#[derive(Clone, Copy, Debug, PartialEq, Eq, Structural)]
pub struct ReconciliationTotals {
    pub pages_checked: usize,
    pub differing_heads: usize,
    pub missing_pages: usize,
    pub revision_batches: usize,
    pub revisions_enumerated: usize,
    pub revisions_captured: usize,
    pub revisions_reused: usize,
    pub resumed_runs: usize,
}

/// The sum of one count over several reports.
pub open spec fn sum_of(
    reports: Seq<ReconciliationReport>,
    field: spec_fn(ReconciliationReport) -> nat,
) -> nat
    decreases reports.len(),
{
    if reports.len() == 0 {
        0
    } else {
        sum_of(reports.drop_last(), field) + field(reports.last())
    }
}

/// A number that stops at the machine's ceiling.
pub open spec fn capped(value: nat) -> usize {
    if value > usize::MAX {
        usize::MAX
    } else {
        value as usize
    }
}

/// The totals of several reports: each count summed, and the number of resumed runs.
pub open spec fn totals_of(reports: Seq<ReconciliationReport>) -> ReconciliationTotals {
    ReconciliationTotals {
        pages_checked: capped(sum_of(reports, |r: ReconciliationReport| r.pages_checked as nat)),
        differing_heads: capped(
            sum_of(reports, |r: ReconciliationReport| r.differing_heads as nat),
        ),
        missing_pages: capped(sum_of(reports, |r: ReconciliationReport| r.missing_pages as nat)),
        revision_batches: capped(
            sum_of(reports, |r: ReconciliationReport| r.revision_batches as nat),
        ),
        revisions_enumerated: capped(
            sum_of(reports, |r: ReconciliationReport| r.revisions_enumerated as nat),
        ),
        revisions_captured: capped(
            sum_of(reports, |r: ReconciliationReport| r.revisions_captured as nat),
        ),
        revisions_reused: capped(
            sum_of(reports, |r: ReconciliationReport| r.revisions_reused as nat),
        ),
        resumed_runs: capped(
            sum_of(
                reports,
                |r: ReconciliationReport|
                    if r.resumed {
                        1
                    } else {
                        0
                    },
            ),
        ),
    }
}

/// Two numbers added up to the machine's ceiling.
pub open spec fn saturated(a: usize, b: nat) -> usize {
    capped(a as nat + b)
}

fn saturating(a: usize, b: usize) -> (sum: usize)
    ensures
        sum == saturated(a, b as nat),
{
    if a > usize::MAX - b {
        usize::MAX
    } else {
        a + b
    }
}

/// The totals with one more report.
pub open spec fn with_report(
    totals: ReconciliationTotals,
    report: ReconciliationReport,
) -> ReconciliationTotals {
    ReconciliationTotals {
        pages_checked: saturated(totals.pages_checked, report.pages_checked as nat),
        differing_heads: saturated(totals.differing_heads, report.differing_heads as nat),
        missing_pages: saturated(totals.missing_pages, report.missing_pages as nat),
        revision_batches: saturated(totals.revision_batches, report.revision_batches as nat),
        revisions_enumerated: saturated(
            totals.revisions_enumerated,
            report.revisions_enumerated as nat,
        ),
        revisions_captured: saturated(totals.revisions_captured, report.revisions_captured as nat),
        revisions_reused: saturated(totals.revisions_reused, report.revisions_reused as nat),
        resumed_runs: saturated(
            totals.resumed_runs,
            if report.resumed {
                1
            } else {
                0
            },
        ),
    }
}

/// What is shown of the totals of a number of collections.
pub open spec fn totals_text(totals: ReconciliationTotals, collections: nat) -> Seq<char> {
    "collections="@ + decimal(collections) + " pages_checked="@ + decimal(
        totals.pages_checked as nat,
    ) + " differing_heads="@ + decimal(totals.differing_heads as nat) + " missing_pages="@
        + decimal(totals.missing_pages as nat) + " revision_batches="@ + decimal(
        totals.revision_batches as nat,
    ) + " revisions_enumerated="@ + decimal(totals.revisions_enumerated as nat)
        + " revisions_captured="@ + decimal(totals.revisions_captured as nat)
        + " revisions_reused="@ + decimal(totals.revisions_reused as nat) + " resumed_runs="@
        + decimal(totals.resumed_runs as nat)
}

fn append_number(text: &mut String, label: &str, number: u64)
    ensures
        final(text)@ == old(text)@ + label@ + decimal(number as nat),
{
    text.append(label);
    text.append(decimal_text(number).as_str());
}

impl ReconciliationTotals {
    /// No report yet.
    pub fn none() -> (totals: ReconciliationTotals)
        ensures
            totals == totals_of(Seq::empty()),
    {
        ReconciliationTotals {
            pages_checked: 0,
            differing_heads: 0,
            missing_pages: 0,
            revision_batches: 0,
            revisions_enumerated: 0,
            revisions_captured: 0,
            revisions_reused: 0,
            resumed_runs: 0,
        }
    }

    /// Counts one more report.
    pub fn add(&mut self, report: &ReconciliationReport)
        ensures
            *final(self) == with_report(*old(self), *report),
    {
        self.pages_checked = saturating(self.pages_checked, report.pages_checked);
        self.differing_heads = saturating(self.differing_heads, report.differing_heads);
        self.missing_pages = saturating(self.missing_pages, report.missing_pages);
        self.revision_batches = saturating(self.revision_batches, report.revision_batches);
        self.revisions_enumerated = saturating(
            self.revisions_enumerated,
            report.revisions_enumerated,
        );
        self.revisions_captured = saturating(self.revisions_captured, report.revisions_captured);
        self.revisions_reused = saturating(self.revisions_reused, report.revisions_reused);
        self.resumed_runs = saturating(
            self.resumed_runs,
            if report.resumed {
                1
            } else {
                0
            },
        );
    }

    /// The receipt text of a number of collections.
    pub fn payload(&self, collections: usize) -> (text: String)
        ensures
            text@ == totals_text(*self, collections as nat),
    {
        let mut text = String::new();
        append_number(&mut text, "collections=", collections as u64);
        append_number(&mut text, " pages_checked=", self.pages_checked as u64);
        append_number(&mut text, " differing_heads=", self.differing_heads as u64);
        append_number(&mut text, " missing_pages=", self.missing_pages as u64);
        append_number(&mut text, " revision_batches=", self.revision_batches as u64);
        append_number(&mut text, " revisions_enumerated=", self.revisions_enumerated as u64);
        append_number(&mut text, " revisions_captured=", self.revisions_captured as u64);
        append_number(&mut text, " revisions_reused=", self.revisions_reused as u64);
        append_number(&mut text, " resumed_runs=", self.resumed_runs as u64);
        proof {
            assert(text@ =~= totals_text(*self, collections as nat));
        }
        text
    }
}

/// One more report is added to every total.
pub proof fn lemma_with_report(reports: Seq<ReconciliationReport>, report: ReconciliationReport)
    ensures
        totals_of(reports.push(report)) == with_report(totals_of(reports), report),
{
    assert(reports.push(report).drop_last() =~= reports);
}

/// The totals of a list of reports.
pub fn reconciliation_totals(reports: &Vec<ReconciliationReport>) -> (totals: ReconciliationTotals)
    ensures
        totals == totals_of(reports@),
{
    let mut totals = ReconciliationTotals::none();
    let mut i: usize = 0;
    proof {
        assert(reports@.take(0) =~= Seq::empty());
    }
    while i < reports.len()
        invariant
            i <= reports@.len(),
            totals == totals_of(reports@.take(i as int)),
        decreases reports@.len() - i,
    {
        totals.add(&reports[i]);
        proof {
            lemma_with_report(reports@.take(i as int), reports@[i as int]);
            assert(reports@.take(i as int).push(reports@[i as int]) =~= reports@.take(i + 1));
        }
        i = i + 1;
    }
    proof {
        assert(reports@.take(i as int) =~= reports@);
    }
    totals
}

/// What a verification found.
#[derive(Debug, PartialEq, Eq)]
pub struct VerificationReport {
    /// The name of the coverage that was reached.
    pub coverage: String,
    pub objects_examined: u64,
    pub objects_verified: u64,
    pub canonical_bytes_verified: u64,
    pub finding_count: u64,
    pub omitted_findings: u64,
    /// Whether everything captured was verified.
    pub verified_since_capture: bool,
}

/// A written pack.
#[derive(Debug, PartialEq, Eq)]
pub struct PackSummary {
    /// The pack's identity as it is shown.
    pub pack_id: String,
    pub generation: u64,
    pub object_count: u64,
    pub full_entries: u64,
    pub delta_entries: u64,
    pub pack_bytes: u64,
    pub index_bytes: u64,
}

/// What is shown of a verification.
pub open spec fn verification_text(full: bool, report: VerificationReport) -> Seq<char> {
    "scope="@ + (if full {
        "full"@
    } else {
        "quick"@
    }) + " coverage="@ + report.coverage@ + " objects_examined="@ + decimal(
        report.objects_examined as nat,
    ) + " objects_verified="@ + decimal(report.objects_verified as nat)
        + " canonical_bytes_verified="@ + decimal(report.canonical_bytes_verified as nat)
        + " findings="@ + decimal(report.finding_count as nat) + " omitted_findings="@ + decimal(
        report.omitted_findings as nat,
    ) + " fully_verified="@ + (if report.verified_since_capture {
        "true"@
    } else {
        "false"@
    })
}

/// What is shown of a compaction.
pub open spec fn compaction_text(summary: Option<PackSummary>) -> Seq<char> {
    match summary {
        None => "packed=false reason=no-unpacked-loose-objects"@,
        Some(pack) => "packed=true pack_id="@ + pack.pack_id@ + " generation="@ + decimal(
            pack.generation as nat,
        ) + " objects="@ + decimal(pack.object_count as nat) + " full_entries="@ + decimal(
            pack.full_entries as nat,
        ) + " delta_entries="@ + decimal(pack.delta_entries as nat) + " pack_bytes="@ + decimal(
            pack.pack_bytes as nat,
        ) + " index_bytes="@ + decimal(pack.index_bytes as nat),
    }
}

/// A receipt: its name, and its text as bytes.
pub open spec fn receipt(result: Seq<char>, text: Seq<char>) -> MutationOutcomeView {
    MutationOutcomeView { result, payload: encode_utf8(text) }
}

fn make_receipt(result: &str, text: &str) -> (outcome: MutationOutcome)
    ensures
        outcome@ == receipt(result@, text@),
{
    MutationOutcome { result: result.to_owned(), payload: to_vec(text.as_bytes()) }
}

/// An optional text as plain data.
pub open spec fn text_view(text: Option<String>) -> Option<Seq<char>> {
    match text {
        Some(text) => Some(text@),
        None => None,
    }
}

/// What a finished operation leaves: its receipt and the handler's new last operation, or
/// the failure with the handler as it was.
pub open spec fn finished(
    before: ApplicationHandler,
    after: ApplicationHandler,
    result: Result<MutationOutcome, OperationError>,
    expected: Result<(MutationOutcomeView, Seq<char>), FailureView>,
) -> bool {
    &&& after.library_root@ == before.library_root@
    &&& match (result, expected) {
        (Ok(outcome), Ok((receipt, operation))) => outcome@ == receipt && text_view(
            after.last_operation,
        ) == Some(operation),
        (Err(error), Err(failure)) => error@ == failure && after.last_operation
            == before.last_operation,
        _ => false,
    }
}

/// The refusal of an extension operation, from its name in quotes.
pub open spec fn unsupported_extension(quoted: Seq<char>) -> FailureView {
    FailureView {
        code: ErrorCode::Unsupported,
        message: "extension operation "@ + quoted + " is not implemented"@,
    }
}

/// Refuses an extension operation, given its name in quotes.
pub fn extension_error(quoted: &str) -> (error: OperationError)
    ensures
        error@ == unsupported_extension(quoted@),
{
    let mut message = "extension operation ".to_owned();
    message.append(quoted);
    message.append(" is not implemented");
    OperationError::unsupported(message.as_str())
}

/// The bootstrap that a payload asks for, as far as its index.
pub open spec fn dump_work(payload: Seq<u8>) -> Result<WorkView, FailureView> {
    match dump_index(payload) {
        Ok(index) => Ok(WorkView::BootstrapDump { payload, index }),
        Err(message) => Err(failure(message)),
    }
}

fn work_of_dump(payload: Vec<u8>) -> (r: Result<Work, OperationError>)
    ensures
        match r {
            Ok(work) => dump_work(payload@) == Ok::<WorkView, FailureView>(work@),
            Err(error) => dump_work(payload@) == Err::<WorkView, FailureView>(error@),
        },
{
    match dump_request_index(payload.as_slice()) {
        Ok(index) => Ok(Work::BootstrapDump(PendingBootstrap { payload, index })),
        Err(error) => Err(error),
    }
}

impl PendingBootstrap {
    /// The request of this bootstrap, given the transfer client's verdict on its index.
    pub fn with_index_policy(self, index_policy: Result<(), String>) -> (r: Result<
        CurrentDumpBootstrapRequest,
        OperationError,
    >)
        ensures
            match r {
                Ok(request) => dump_request_decoding(self.payload@, policy_view(index_policy))
                    == Ok::<DumpRequestView, Seq<char>>(request@),
                Err(error) => dump_request_decoding(self.payload@, policy_view(index_policy)) is Err
                    && error@ == failure(
                    dump_request_decoding(self.payload@, policy_view(index_policy))->Err_0,
                ),
            },
    {
        decode_current_dump_bootstrap_request(self.payload.as_slice(), index_policy)
    }
}

/// The work that an extension operation asks for.
pub open spec fn extension_work(name: Seq<char>, payload: Seq<u8>) -> Result<
    WorkView,
    FailureView,
> {
    if name == COLLECTION_PURGE_EXTENSION@ {
        Ok(WorkView::Purge { payload })
    } else if name == SET_CURRENT_DUMP_BOOTSTRAP_EXTENSION@ {
        dump_work(payload)
    } else if name == SET_COLLECTION_SCHEDULE_EXTENSION@ {
        match ordered_schedule(payload) {
            Some(order) => Ok(WorkView::SetSchedule(order)),
            None => Err(failure("invalid collection schedule payload"@)),
        }
    } else if name == SET_NETWORK_TRANSFER_POLICY_EXTENSION@ {
        match ordered_policy(payload) {
            Some(policy) => Ok(WorkView::SetNetworkPolicy(policy)),
            None => Err(failure("invalid network transfer policy payload"@)),
        }
    } else {
        Err(unsupported_extension(debug_quoted(name)))
    }
}

fn work_of_extension(name: &str, payload: Vec<u8>) -> (r: Result<Work, OperationError>)
    ensures
        match r {
            Ok(work) => extension_work(name@, payload@) == Ok::<WorkView, FailureView>(work@),
            Err(error) => extension_work(name@, payload@) == Err::<WorkView, FailureView>(error@),
        },
{
    if same_text(name, COLLECTION_PURGE_EXTENSION) {
        return Ok(Work::Purge { payload });
    }
    if same_text(name, SET_CURRENT_DUMP_BOOTSTRAP_EXTENSION) {
        return work_of_dump(payload);
    }
    if same_text(name, SET_COLLECTION_SCHEDULE_EXTENSION) {
        return match decode_collection_schedule(payload.as_slice()) {
            Ok(order) => Ok(Work::SetSchedule(order)),
            Err(error) => Err(error),
        };
    }
    if same_text(name, SET_NETWORK_TRANSFER_POLICY_EXTENSION) {
        return match decode_network_transfer_policy(payload.as_slice()) {
            Ok(policy) => Ok(Work::SetNetworkPolicy(policy)),
            Err(error) => Err(error),
        };
    }
    Err(extension_error(quoted(name).as_str()))
}

/// The work that a mutation asks for.
pub open spec fn requested_work(mutation: MutationView) -> Result<WorkView, FailureView> {
    match mutation {
        MutationView::SyncAll => Ok(WorkView::SyncAll),
        MutationView::SyncCollection(id) => if id == 0 {
            Err(failure(ModelError::ZeroIdentifier.text()))
        } else {
            Ok(WorkView::SyncCollection(id))
        },
        MutationView::Verify { full } => Ok(WorkView::Verify { full }),
        MutationView::Compact => Ok(WorkView::Compact),
        MutationView::Extension { name, payload } => extension_work(name, payload),
    }
}

/// A failure text from outside as a failed operation.
pub fn operation_failed(message: &str) -> (error: OperationError)
    ensures
        error@ == failure(message@),
{
    OperationError::failed(message)
}

/// The failure to start the network runtime.
pub fn runtime_failed(message: &str) -> (error: OperationError)
    ensures
        error@ == failure("cannot start sync runtime: "@ + message@),
{
    let mut text = "cannot start sync runtime: ".to_owned();
    text.append(message);
    OperationError::failed(text.as_str())
}

/// The time of a checkpoint; `None` is a clock before the epoch.
pub fn unix_time(since_epoch: Option<u64>) -> (r: Result<u64, OperationError>)
    ensures
        match since_epoch {
            Some(seconds) => r == Ok::<u64, OperationError>(seconds),
            None => r matches Err(error) && error@ == failure(
                "system clock is before the Unix epoch"@,
            ),
        },
{
    match since_epoch {
        Some(seconds) => Ok(seconds),
        None => Err(OperationError::failed("system clock is before the Unix epoch")),
    }
}

/// The source of a collection that is to be synchronized.
pub open spec fn configured_source(
    collection_id: u64,
    configuration: Result<Option<WikiId>, String>,
) -> Result<u64, FailureView> {
    match configuration {
        Err(message) => Err(failure(message@)),
        Ok(None) => Err(
            failure(
                "collection "@ + decimal(collection_id as nat) + " has no committed configuration"@,
            ),
        ),
        Ok(Some(wiki_id)) => Ok(wiki_id@),
    }
}

/// Refuses to synchronize a collection without a committed configuration.
pub fn require_configuration(
    collection_id: CollectionId,
    configuration: Result<Option<WikiId>, String>,
) -> (r: Result<WikiId, OperationError>)
    ensures
        match r {
            Ok(wiki_id) => configured_source(collection_id@, configuration) == Ok::<
                u64,
                FailureView,
            >(wiki_id@),
            Err(error) => configured_source(collection_id@, configuration) == Err::<
                u64,
                FailureView,
            >(error@),
        },
{
    match configuration {
        Err(message) => Err(operation_failed(message.as_str())),
        Ok(None) => {
            let mut text = "collection ".to_owned();
            text.append(decimal_text(collection_id.get()).as_str());
            text.append(" has no committed configuration");
            Err(OperationError::failed(text.as_str()))
        },
        Ok(Some(wiki_id)) => Ok(wiki_id),
    }
}

/// The endpoint of a collection's source.
pub open spec fn source_endpoint(
    collection_id: u64,
    wiki_id: u64,
    wiki: Result<Option<String>, String>,
) -> Result<Seq<char>, FailureView> {
    match wiki {
        Err(message) => Err(failure(message@)),
        Ok(None) => Err(
            failure(
                "source wiki "@ + decimal(wiki_id as nat) + " for collection "@ + decimal(
                    collection_id as nat,
                ) + " is missing"@,
            ),
        ),
        Ok(Some(api_endpoint)) => Ok(api_endpoint@),
    }
}

/// Refuses to synchronize a collection whose source is gone.
pub fn require_source(
    collection_id: CollectionId,
    wiki_id: WikiId,
    wiki: Result<Option<String>, String>,
) -> (r: Result<String, OperationError>)
    ensures
        match r {
            Ok(endpoint) => source_endpoint(collection_id@, wiki_id@, wiki) == Ok::<
                Seq<char>,
                FailureView,
            >(endpoint@),
            Err(error) => source_endpoint(collection_id@, wiki_id@, wiki) == Err::<
                Seq<char>,
                FailureView,
            >(error@),
        },
{
    match wiki {
        Err(message) => Err(operation_failed(message.as_str())),
        Ok(None) => {
            let mut text = "source wiki ".to_owned();
            text.append(decimal_text(wiki_id.get()).as_str());
            text.append(" for collection ");
            text.append(decimal_text(collection_id.get()).as_str());
            text.append(" is missing");
            Err(OperationError::failed(text.as_str()))
        },
        Ok(Some(api_endpoint)) => Ok(api_endpoint),
    }
}

/// How the daemon names itself to sources and dump hosts: as every other client of the
/// application does. An unusable contact fails the operation.
pub fn user_agent(contact: &ConfiguredContact) -> (r: Result<String, OperationError>)
    ensures
        match r {
            Ok(agent) => configured_user_agent(*contact) == Ok::<Seq<char>, UserAgentConfigError>(
                agent@,
            ),
            Err(error) => configured_user_agent(*contact) matches Err(refusal) && error@
                == failure(refusal.text()),
        },
{
    match application_user_agent(contact) {
        Ok(agent) => Ok(agent),
        Err(error) => Err(OperationError::failed(error.message())),
    }
}

impl ApplicationHandler {
    /// Creates a dispatcher for an existing library directory.
    pub fn new(library_root: &str, probe: RootProbe) -> (r: Result<Self, DaemonError>)
        ensures
            match r {
                Ok(handler) => canonical_root(library_root@, probe) == Ok::<
                    Seq<char>,
                    DaemonErrorView,
                >(handler.library_root@) && handler.last_operation is None,
                Err(error) => canonical_root(library_root@, probe) == Err::<
                    Seq<char>,
                    DaemonErrorView,
                >(error@),
            },
    {
        let library_root = canonical_library_root(library_root, probe)?;
        Ok(ApplicationHandler { library_root, last_operation: None })
    }

    /// Idle, with the last finished operation.
    pub fn status(&self) -> (status: HandlerStatus)
        ensures
            status.state@ == "idle"@,
            status.detail@ == match text_view(self.last_operation) {
                Some(operation) => operation,
                None => "application mutation dispatcher is ready"@,
            },
    {
        HandlerStatus {
            state: "idle".to_owned(),
            detail: match &self.last_operation {
                Some(operation) => operation.clone(),
                None => "application mutation dispatcher is ready".to_owned(),
            },
        }
    }

    /// Turns a mutation into work, or refuses it.
    pub fn mutate(&self, mutation: Mutation) -> (r: Result<Work, OperationError>)
        ensures
            match r {
                Ok(work) => requested_work(mutation@) == Ok::<WorkView, FailureView>(work@),
                Err(error) => requested_work(mutation@) == Err::<WorkView, FailureView>(error@),
            },
    {
        match mutation {
            Mutation::SyncAll => Ok(Work::SyncAll),
            Mutation::SyncCollection(raw) => match CollectionId::new(raw) {
                Ok(id) => Ok(Work::SyncCollection(id)),
                Err(error) => Err(operation_failed(error.message())),
            },
            Mutation::Verify { full } => Ok(Work::Verify { full }),
            Mutation::Compact => Ok(Work::Compact),
            Mutation::Extension { name, payload } => work_of_extension(name.as_str(), payload),
        }
    }

    /// Takes the report of one synchronized collection.
    pub fn sync_one(
        &mut self,
        collection_id: CollectionId,
        report: Result<ReconciliationReport, OperationError>,
    ) -> (r: Result<MutationOutcome, OperationError>)
        ensures
            finished(
                *old(self),
                *final(self),
                r,
                match report {
                    Ok(report) => Ok(
                        (
                            receipt(
                                "synchronization-complete"@,
                                totals_text(totals_of(seq![report]), 1),
                            ),
                            "synchronized collection "@ + decimal(collection_id@ as nat),
                        ),
                    ),
                    Err(error) => Err(error@),
                },
            ),
    {
        let report = report?;
        let mut totals = ReconciliationTotals::none();
        totals.add(&report);
        proof {
            lemma_with_report(Seq::empty(), report);
            assert(Seq::<ReconciliationReport>::empty().push(report) =~= seq![report]);
        }
        let payload = totals.payload(1);
        let mut operation = "synchronized collection ".to_owned();
        operation.append(decimal_text(collection_id.get()).as_str());
        self.last_operation = Some(operation);
        Ok(make_receipt("synchronization-complete", payload.as_str()))
    }

    /// Takes the reports of all synchronized collections, or the first failure.
    pub fn sync_all(
        &mut self,
        reports: Result<Vec<ReconciliationReport>, OperationError>,
    ) -> (r: Result<MutationOutcome, OperationError>)
        ensures
            finished(
                *old(self),
                *final(self),
                r,
                match reports {
                    Ok(reports) => Ok(
                        (
                            receipt(
                                "synchronization-complete"@,
                                totals_text(totals_of(reports@), reports@.len()),
                            ),
                            "synchronized "@ + decimal(reports@.len()) + " collections"@,
                        ),
                    ),
                    Err(error) => Err(error@),
                },
            ),
    {
        let reports = reports?;
        let totals = reconciliation_totals(&reports);
        let payload = totals.payload(reports.len());
        let mut operation = "synchronized ".to_owned();
        operation.append(decimal_text(reports.len() as u64).as_str());
        operation.append(" collections");
        self.last_operation = Some(operation);
        Ok(make_receipt("synchronization-complete", payload.as_str()))
    }

    /// Takes the report of a verification. Completion is distinct from a claim that every
    /// object verified.
    pub fn verify(
        &mut self,
        full: bool,
        report: Result<VerificationReport, OperationError>,
    ) -> (r: Result<MutationOutcome, OperationError>)
        ensures
            finished(
                *old(self),
                *final(self),
                r,
                match report {
                    Ok(report) => Ok(
                        (
                            receipt("verification-complete"@, verification_text(full, report)),
                            "verification completed with "@ + decimal(report.finding_count as nat)
                                + " findings"@,
                        ),
                    ),
                    Err(error) => Err(error@),
                },
            ),
    {
        let report = report?;
        let mut payload = "scope=".to_owned();
        payload.append(
            if full {
                "full"
            } else {
                "quick"
            },
        );
        payload.append(" coverage=");
        payload.append(report.coverage.as_str());
        append_number(&mut payload, " objects_examined=", report.objects_examined);
        append_number(&mut payload, " objects_verified=", report.objects_verified);
        append_number(&mut payload, " canonical_bytes_verified=", report.canonical_bytes_verified);
        append_number(&mut payload, " findings=", report.finding_count);
        append_number(&mut payload, " omitted_findings=", report.omitted_findings);
        payload.append(" fully_verified=");
        payload.append(
            if report.verified_since_capture {
                "true"
            } else {
                "false"
            },
        );
        let mut operation = "verification completed with ".to_owned();
        operation.append(decimal_text(report.finding_count).as_str());
        operation.append(" findings");
        self.last_operation = Some(operation);
        Ok(make_receipt("verification-complete", payload.as_str()))
    }

    /// Takes the result of a compaction, which may have found nothing to pack.
    pub fn compact(&mut self, summary: Result<Option<PackSummary>, OperationError>) -> (r: Result<
        MutationOutcome,
        OperationError,
    >)
        ensures
            finished(
                *old(self),
                *final(self),
                r,
                match summary {
                    Ok(summary) => Ok(
                        (
                            receipt("compaction-complete"@, compaction_text(summary)),
                            match summary {
                                None => "compaction completed without a new pack"@,
                                Some(pack) => "compacted "@ + decimal(pack.object_count as nat)
                                    + " objects"@,
                            },
                        ),
                    ),
                    Err(error) => Err(error@),
                },
            ),
    {
        match summary? {
            None => {
                self.last_operation = Some("compaction completed without a new pack".to_owned());
                Ok(
                    make_receipt(
                        "compaction-complete",
                        "packed=false reason=no-unpacked-loose-objects",
                    ),
                )
            },
            Some(pack) => {
                let mut payload = "packed=true pack_id=".to_owned();
                payload.append(pack.pack_id.as_str());
                append_number(&mut payload, " generation=", pack.generation);
                append_number(&mut payload, " objects=", pack.object_count);
                append_number(&mut payload, " full_entries=", pack.full_entries);
                append_number(&mut payload, " delta_entries=", pack.delta_entries);
                append_number(&mut payload, " pack_bytes=", pack.pack_bytes);
                append_number(&mut payload, " index_bytes=", pack.index_bytes);
                let mut operation = "compacted ".to_owned();
                operation.append(decimal_text(pack.object_count).as_str());
                operation.append(" objects");
                self.last_operation = Some(operation);
                Ok(make_receipt("compaction-complete", payload.as_str()))
            },
        }
    }

    /// Takes the end of a purge session.
    pub fn purged(&mut self, outcome: Result<CollectionPurgeOutcome, OperationError>) -> (r: Result<
        MutationOutcome,
        OperationError,
    >)
        ensures
            finished(
                *old(self),
                *final(self),
                r,
                match outcome {
                    Ok(outcome) => Ok(
                        (
                            MutationOutcomeView {
                                result: COLLECTION_PURGE_RESULT@,
                                payload: purge_outcome_bytes(outcome),
                            },
                            "completed collection purge "@ + decimal(outcome.purge_id as nat),
                        ),
                    ),
                    Err(error) => Err(error@),
                },
            ),
    {
        let outcome = outcome?;
        let mut operation = "completed collection purge ".to_owned();
        operation.append(decimal_text(outcome.purge_id).as_str());
        self.last_operation = Some(operation);
        Ok(purge_result(&outcome))
    }

    /// Takes the end of a dump bootstrap. One whose receipt cannot be encoded has failed.
    pub fn bootstrapped(
        &mut self,
        outcome: Result<CurrentDumpBootstrapOutcome, OperationError>,
    ) -> (r: Result<MutationOutcome, OperationError>)
        ensures
            finished(
                *old(self),
                *final(self),
                r,
                match outcome {
                    Ok(outcome) => match dump_outcome_encoding(outcome@) {
                        Ok(payload) => Ok(
                            (
                                MutationOutcomeView {
                                    result: CURRENT_DUMP_BOOTSTRAP_RESULT@,
                                    payload,
                                },
                                "completed authenticated current dump bootstrap of collection "@
                                    + decimal(outcome.preview.collection_id@ as nat),
                            ),
                        ),
                        Err(message) => Err(failure(message)),
                    },
                    Err(error) => Err(error@),
                },
            ),
    {
        let outcome = outcome?;
        let payload = encode_current_dump_bootstrap_outcome(&outcome)?;
        let mut operation =
            "completed authenticated current dump bootstrap of collection ".to_owned();
        operation.append(decimal_text(outcome.preview.collection_id.get()).as_str());
        self.last_operation = Some(operation);
        Ok(MutationOutcome { result: CURRENT_DUMP_BOOTSTRAP_RESULT.to_owned(), payload })
    }

    /// Takes the result of storing a schedule.
    pub fn scheduled(&mut self, order: ScheduleOrder, stored: Result<(), OperationError>) -> (r:
        Result<MutationOutcome, OperationError>)
        ensures
            finished(
                *old(self),
                *final(self),
                r,
                match stored {
                    Ok(()) => Ok(
                        (
                            receipt(
                                "collection-schedule-saved"@,
                                "collection="@ + decimal(order.collection_id@ as nat),
                            ),
                            "saved the schedule of collection "@ + decimal(
                                order.collection_id@ as nat,
                            ),
                        ),
                    ),
                    Err(error) => Err(error@),
                },
            ),
    {
        stored?;
        let id = decimal_text(order.collection_id.get());
        let mut payload = "collection=".to_owned();
        payload.append(id.as_str());
        let mut operation = "saved the schedule of collection ".to_owned();
        operation.append(id.as_str());
        self.last_operation = Some(operation);
        Ok(make_receipt("collection-schedule-saved", payload.as_str()))
    }

    /// Takes the result of storing a network policy.
    pub fn network_policy_set(&mut self, stored: Result<(), OperationError>) -> (r: Result<
        MutationOutcome,
        OperationError,
    >)
        ensures
            finished(
                *old(self),
                *final(self),
                r,
                match stored {
                    Ok(()) => Ok(
                        (
                            receipt("network-transfer-policy-saved"@, ""@),
                            "saved the network transfer policy"@,
                        ),
                    ),
                    Err(error) => Err(error@),
                },
            ),
    {
        stored?;
        self.last_operation = Some("saved the network transfer policy".to_owned());
        Ok(make_receipt("network-transfer-policy-saved", ""))
    }
}

/// The names of the extension operations that are carried out.
pub open spec fn known_extension(name: Seq<char>) -> bool {
    ||| name == COLLECTION_PURGE_EXTENSION@
    ||| name == SET_CURRENT_DUMP_BOOTSTRAP_EXTENSION@
    ||| name == SET_COLLECTION_SCHEDULE_EXTENSION@
    ||| name == SET_NETWORK_TRANSFER_POLICY_EXTENSION@
}

/// No other extension operation is ever turned into work.
pub proof fn law_unknown_extensions_are_refused(name: Seq<char>, payload: Seq<u8>)
    requires
        !known_extension(name),
    ensures
        requested_work(MutationView::Extension { name, payload }) matches Err(refusal)
            && refusal.code == ErrorCode::Unsupported,
{
}

proof fn lemma_extension_names()
    ensures
        COLLECTION_PURGE_EXTENSION@ != SET_CURRENT_DUMP_BOOTSTRAP_EXTENSION@,
        COLLECTION_PURGE_EXTENSION@ != SET_COLLECTION_SCHEDULE_EXTENSION@,
        COLLECTION_PURGE_EXTENSION@ != SET_NETWORK_TRANSFER_POLICY_EXTENSION@,
        SET_CURRENT_DUMP_BOOTSTRAP_EXTENSION@ != SET_COLLECTION_SCHEDULE_EXTENSION@,
        SET_CURRENT_DUMP_BOOTSTRAP_EXTENSION@ != SET_NETWORK_TRANSFER_POLICY_EXTENSION@,
        SET_COLLECTION_SCHEDULE_EXTENSION@ != SET_NETWORK_TRANSFER_POLICY_EXTENSION@,
{
    reveal_strlit("collection-purge-v1");
    reveal_strlit("current-dump-bootstrap-v1");
    reveal_strlit("set-collection-schedule-v1");
    reveal_strlit("set-network-transfer-policy-v1");
    assert(COLLECTION_PURGE_EXTENSION@.len() == 19);
    assert(SET_CURRENT_DUMP_BOOTSTRAP_EXTENSION@.len() == 25);
    assert(SET_COLLECTION_SCHEDULE_EXTENSION@.len() == 26);
    assert(SET_NETWORK_TRANSFER_POLICY_EXTENSION@.len() == 30);
}

/// A forwarded schedule asks the daemon for exactly that schedule.
pub proof fn law_forwarded_schedule_is_carried_out(order: (u64, CadenceView, u32, bool))
    requires
        order.0 > 0,
        valid_cadence(order.1),
    ensures
        requested_work(
            MutationView::Extension {
                name: SET_COLLECTION_SCHEDULE_EXTENSION@,
                payload: schedule_payload(order.0, order.1, order.2, order.3),
            },
        ) == Ok::<WorkView, FailureView>(WorkView::SetSchedule(order)),
{
    lemma_extension_names();
    law_schedule_payload_round_trip(order);
}

/// A forwarded network policy asks the daemon for exactly that policy.
pub proof fn law_forwarded_policy_is_carried_out(policy: NetworkView)
    requires
        valid_network(policy),
    ensures
        requested_work(
            MutationView::Extension {
                name: SET_NETWORK_TRANSFER_POLICY_EXTENSION@,
                payload: policy_payload(policy),
            },
        ) == Ok::<WorkView, FailureView>(WorkView::SetNetworkPolicy(policy)),
{
    lemma_extension_names();
    law_policy_payload_round_trip(policy);
}

/// A forwarded purge request asks the daemon for a session on exactly that request.
pub proof fn law_forwarded_purge_is_carried_out(request: PurgeRequestView)
    requires
        request.collection_id > 0,
        purge_request_encoding(request) is Ok,
    ensures
        requested_work(
            MutationView::Extension {
                name: COLLECTION_PURGE_EXTENSION@,
                payload: purge_request_encoding(request)->Ok_0,
            },
        ) matches Ok(WorkView::Purge { payload }) && purge_request_decoding(payload) == Ok::<
            PurgeRequestView,
            Seq<char>,
        >(request),
{
    law_purge_request_round_trip(request);
}

/// A forwarded dump request asks the daemon for exactly that bootstrap, once the transfer
/// client accepts its index.
pub proof fn law_forwarded_dump_request_is_carried_out(request: DumpRequestView)
    requires
        valid_dump_request(request),
        dump_request_encoding(request) is Ok,
    ensures
        requested_work(
            MutationView::Extension {
                name: SET_CURRENT_DUMP_BOOTSTRAP_EXTENSION@,
                payload: dump_request_encoding(request)->Ok_0,
            },
        ) == Ok::<WorkView, FailureView>(
            WorkView::BootstrapDump {
                payload: dump_request_encoding(request)->Ok_0,
                index: (request.url, request.digest, request.database),
            },
        ),
        dump_request_decoding(dump_request_encoding(request)->Ok_0, accepted()) == Ok::<
            DumpRequestView,
            Seq<char>,
        >(request),
{
    lemma_extension_names();
    law_dump_request_round_trip(request);
    law_judged_index_is_the_one_decoded(dump_request_encoding(request)->Ok_0, accepted());
}

proof fn lemma_totals_without(reports: Seq<ReconciliationReport>, j: int)
    requires
        0 <= j < reports.len(),
    ensures
        totals_of(reports) == with_report(totals_of(reports.remove(j)), reports[j]),
    decreases reports.len(),
{
    let rest = reports.drop_last();
    let last = reports.last();
    lemma_with_report(rest, last);
    assert(rest.push(last) =~= reports);
    if j == reports.len() - 1 {
        assert(reports.remove(j) =~= rest);
    } else {
        lemma_totals_without(rest, j);
        lemma_with_report(rest.remove(j), last);
        assert(reports.remove(j) =~= rest.remove(j).push(last));
    }
}

/// The order in which collections were synchronized does not change the totals.
pub proof fn law_totals_do_not_depend_on_order(
    first: Seq<ReconciliationReport>,
    second: Seq<ReconciliationReport>,
)
    requires
        first.to_multiset() == second.to_multiset(),
    ensures
        totals_of(first) == totals_of(second),
    decreases first.len(),
{
    broadcast use vstd::seq_lib::group_to_multiset_ensures;

    vstd::seq_lib::to_multiset_len(first);
    vstd::seq_lib::to_multiset_len(second);
    if first.len() > 0 {
        let last = first.last();
        assert(first.contains(last)) by {
            assert(first[first.len() - 1] == last);
        }
        assert(second.to_multiset().count(last) > 0);
        assert(second.contains(last));
        let j = choose|j: int| 0 <= j < second.len() && second[j] == last;
        let i = first.len() - 1;
        lemma_totals_without(first, i);
        lemma_totals_without(second, j);
        assert(first.remove(i).to_multiset() =~= first.to_multiset().remove(last));
        assert(second.remove(j).to_multiset() =~= second.to_multiset().remove(last));
        law_totals_do_not_depend_on_order(first.remove(i), second.remove(j));
    } else {
        assert(first =~= second);
    }
}

/// Every mutation asks for the work that it names: a verification of the scope that was asked
/// for, the synchronization of the collection that was named, and nothing else.
pub proof fn law_mutation_asks_for_the_work_it_names(
    handler: ApplicationHandler,
    mutation: Mutation,
    r: Result<Work, OperationError>,
)
    requires
        call_ensures(ApplicationHandler::mutate, (&handler, mutation), r),
    ensures
        mutation matches Mutation::Verify { full } ==> r == Ok::<Work, OperationError>(
            Work::Verify { full },
        ),
        mutation == Mutation::SyncAll ==> r == Ok::<Work, OperationError>(Work::SyncAll),
        mutation == Mutation::Compact ==> r == Ok::<Work, OperationError>(Work::Compact),
        mutation matches Mutation::SyncCollection(id) ==> (if id == 0 {
            r is Err
        } else {
            r matches Ok(Work::SyncCollection(asked)) && asked@ == id
        }),
        mutation matches Mutation::Extension { name, payload } ==> {
            &&& r matches Ok(work) ==> work is Purge || work is BootstrapDump || work
                is SetSchedule || work is SetNetworkPolicy
            &&& r matches Ok(Work::Purge { payload: asked }) ==> asked@ == payload@ && name@
                == "collection-purge-v1"@
        },
{
}

/// Work that failed is answered with its failure and leaves what was last completed; work that
/// was done is answered under the name of its receipt and becomes what was last completed.
pub open spec fn answered(
    before: ApplicationHandler,
    after: ApplicationHandler,
    failed: Option<FailureView>,
    r: Result<MutationOutcome, OperationError>,
    receipt_name: Seq<char>,
) -> bool {
    &&& after.library_root@ == before.library_root@
    &&& failed is Some <==> r is Err
    &&& r matches Err(error) ==> Some(error@) == failed && after.last_operation
        == before.last_operation
    &&& r matches Ok(outcome) ==> outcome.result@ == receipt_name && after.last_operation is Some
}

/// The failure of some work.
pub open spec fn failure_of<T>(work: Result<T, OperationError>) -> Option<FailureView> {
    match work {
        Ok(_) => None,
        Err(error) => Some(error@),
    }
}

/// Synchronization, verification and compaction are reported as done exactly when they were.
pub proof fn law_work_is_reported_as_it_ended(
    collection_id: CollectionId,
    full: bool,
    one: Result<ReconciliationReport, OperationError>,
    all: Result<Vec<ReconciliationReport>, OperationError>,
    verified: Result<VerificationReport, OperationError>,
    packed: Result<Option<PackSummary>, OperationError>,
)
    ensures
        forall|h: &mut ApplicationHandler, r: Result<MutationOutcome, OperationError>| #[trigger]
            call_ensures(ApplicationHandler::sync_one, (h, collection_id, one), r) ==> answered(
                *h,
                *final(h),
                failure_of(one),
                r,
                "synchronization-complete"@,
            ),
        forall|h: &mut ApplicationHandler, r: Result<MutationOutcome, OperationError>| #[trigger]
            call_ensures(ApplicationHandler::sync_all, (h, all), r) ==> answered(
                *h,
                *final(h),
                failure_of(all),
                r,
                "synchronization-complete"@,
            ),
        forall|h: &mut ApplicationHandler, r: Result<MutationOutcome, OperationError>| #[trigger]
            call_ensures(ApplicationHandler::verify, (h, full, verified), r) ==> answered(
                *h,
                *final(h),
                failure_of(verified),
                r,
                "verification-complete"@,
            ),
        forall|h: &mut ApplicationHandler, r: Result<MutationOutcome, OperationError>| #[trigger]
            call_ensures(ApplicationHandler::compact, (h, packed), r) ==> answered(
                *h,
                *final(h),
                failure_of(packed),
                r,
                "compaction-complete"@,
            ),
{
}

/// Purges, bootstraps and stored settings are reported as done exactly when they were; the
/// receipt of a purge or a bootstrap can be read back to what was reported.
pub proof fn law_durable_work_is_reported_as_it_ended(
    purge: Result<CollectionPurgeOutcome, OperationError>,
    bootstrap: Result<CurrentDumpBootstrapOutcome, OperationError>,
    order: ScheduleOrder,
    stored: Result<(), OperationError>,
)
    ensures
        forall|h: &mut ApplicationHandler, r: Result<MutationOutcome, OperationError>| #[trigger]
            call_ensures(ApplicationHandler::purged, (h, purge), r) ==> {
                &&& answered(*h, *final(h), failure_of(purge), r, "collection-purge-complete-v1"@)
                &&& r matches Ok(outcome) ==> outcome.payload@ == purge_outcome_bytes(purge->Ok_0)
            },
        forall|h: &mut ApplicationHandler, r: Result<MutationOutcome, OperationError>| #[trigger]
            call_ensures(ApplicationHandler::bootstrapped, (h, bootstrap), r) ==> {
                &&& bootstrap matches Err(error) ==> answered(
                    *h,
                    *final(h),
                    Some(error@),
                    r,
                    "current-dump-bootstrap-complete"@,
                )
                &&& r matches Ok(outcome) ==> bootstrap is Ok && outcome.result@
                    == "current-dump-bootstrap-complete"@ && dump_outcome_encoding(
                    bootstrap->Ok_0@,
                ) == Ok::<Seq<u8>, Seq<char>>(outcome.payload@)
                &&& bootstrap is Ok && dump_outcome_encoding(bootstrap->Ok_0@) is Ok ==> r is Ok
            },
        forall|h: &mut ApplicationHandler, r: Result<MutationOutcome, OperationError>| #[trigger]
            call_ensures(ApplicationHandler::scheduled, (h, order, stored), r) ==> answered(
                *h,
                *final(h),
                failure_of(stored),
                r,
                "collection-schedule-saved"@,
            ),
        forall|h: &mut ApplicationHandler, r: Result<MutationOutcome, OperationError>| #[trigger]
            call_ensures(ApplicationHandler::network_policy_set, (h, stored), r) ==> answered(
                *h,
                *final(h),
                failure_of(stored),
                r,
                "network-transfer-policy-saved"@,
            ),
{
}

/// Only a collection with a committed configuration and an existing source is synchronized,
/// and it is synchronized with that source.
pub proof fn law_only_configured_collections_are_synchronized(
    collection_id: CollectionId,
    wiki_id: WikiId,
    configuration: Result<Option<WikiId>, String>,
    endpoint: Result<Option<String>, String>,
    configured: Result<WikiId, OperationError>,
    source: Result<String, OperationError>,
)
    requires
        call_ensures(require_configuration, (collection_id, configuration), configured),
        call_ensures(require_source, (collection_id, wiki_id, endpoint), source),
    ensures
        configured is Ok <==> (configuration matches Ok(found) && found is Some),
        configured matches Ok(wiki_id) ==> wiki_id@ == configuration->Ok_0->0@,
        source is Ok <==> (endpoint matches Ok(found) && found is Some),
        source matches Ok(url) ==> url@ == endpoint->Ok_0->0@,
{
}

/// The totals of no report are nothing, and each further report adds its own counts, up to
/// what a machine word holds.
pub proof fn law_each_report_adds_its_counts(
    reports: Seq<ReconciliationReport>,
    report: ReconciliationReport,
)
    ensures
        ({
            let none = totals_of(Seq::empty());
            let before = totals_of(reports);
            let after = totals_of(reports.push(report));
            let top = usize::MAX as int;
            let sum = |a: usize, b: usize| if a + b > top { top } else { a + b };
            &&& none.pages_checked == 0 && none.differing_heads == 0 && none.missing_pages == 0
                && none.revision_batches == 0 && none.revisions_enumerated == 0
                && none.revisions_captured == 0 && none.revisions_reused == 0
                && none.resumed_runs == 0
            &&& after.pages_checked == sum(before.pages_checked, report.pages_checked)
            &&& after.differing_heads == sum(before.differing_heads, report.differing_heads)
            &&& after.missing_pages == sum(before.missing_pages, report.missing_pages)
            &&& after.revision_batches == sum(before.revision_batches, report.revision_batches)
            &&& after.revisions_enumerated == sum(
                before.revisions_enumerated,
                report.revisions_enumerated,
            )
            &&& after.revisions_captured == sum(
                before.revisions_captured,
                report.revisions_captured,
            )
            &&& after.revisions_reused == sum(before.revisions_reused, report.revisions_reused)
            &&& after.resumed_runs == sum(
                before.resumed_runs,
                if report.resumed {
                    1
                } else {
                    0
                },
            )
        }),
{
    lemma_with_report(reports, report);
}

/// Totals are told count by count, each under its own name.
pub proof fn law_totals_name_each_count(totals: ReconciliationTotals, collections: nat)
    ensures
        holds_text(totals_text(totals, collections), "collections="@ + decimal(collections) + " pages_checked="@),
        holds_text(totals_text(totals, collections), " pages_checked="@ + decimal(totals.pages_checked as nat) + " differing_heads="@),
        holds_text(totals_text(totals, collections), " differing_heads="@ + decimal(totals.differing_heads as nat) + " missing_pages="@),
        holds_text(totals_text(totals, collections), " missing_pages="@ + decimal(totals.missing_pages as nat) + " revision_batches="@),
        holds_text(totals_text(totals, collections), " revision_batches="@ + decimal(totals.revision_batches as nat) + " revisions_enumerated="@),
        holds_text(totals_text(totals, collections), " revisions_enumerated="@ + decimal(totals.revisions_enumerated as nat) + " revisions_captured="@),
        holds_text(totals_text(totals, collections), " revisions_captured="@ + decimal(totals.revisions_captured as nat) + " revisions_reused="@),
        holds_text(totals_text(totals, collections), " revisions_reused="@ + decimal(totals.revisions_reused as nat) + " resumed_runs="@),
        holds_text(totals_text(totals, collections), " resumed_runs="@ + decimal(totals.resumed_runs as nat)),
{
    lemma_strung();
    let parts0 = Seq::<Seq<char>>::empty();
    let parts1 = parts0.push("collections="@);
    let parts2 = parts1.push(decimal(collections));
    let parts3 = parts2.push(" pages_checked="@);
    let parts4 = parts3.push(decimal(totals.pages_checked as nat));
    let parts5 = parts4.push(" differing_heads="@);
    let parts6 = parts5.push(decimal(totals.differing_heads as nat));
    let parts7 = parts6.push(" missing_pages="@);
    let parts8 = parts7.push(decimal(totals.missing_pages as nat));
    let parts9 = parts8.push(" revision_batches="@);
    let parts10 = parts9.push(decimal(totals.revision_batches as nat));
    let parts11 = parts10.push(" revisions_enumerated="@);
    let parts12 = parts11.push(decimal(totals.revisions_enumerated as nat));
    let parts13 = parts12.push(" revisions_captured="@);
    let parts14 = parts13.push(decimal(totals.revisions_captured as nat));
    let parts15 = parts14.push(" revisions_reused="@);
    let parts16 = parts15.push(decimal(totals.revisions_reused as nat));
    let parts17 = parts16.push(" resumed_runs="@);
    let parts18 = parts17.push(decimal(totals.resumed_runs as nat));
    let parts = parts18;
    assert(strung(parts) == totals_text(totals, collections));
    lemma_neighbours(parts, 0);
    lemma_neighbours(parts, 2);
    lemma_neighbours(parts, 4);
    lemma_neighbours(parts, 6);
    lemma_neighbours(parts, 8);
    lemma_neighbours(parts, 10);
    lemma_neighbours(parts, 12);
    lemma_neighbours(parts, 14);
    lemma_end(parts);
}

/// A verification is told count by count, each under its own name.
pub proof fn law_verification_names_each_count(full: bool, report: VerificationReport)
    ensures
        holds_text(verification_text(full, report), "scope="@ + (if full {
            "full"@
        } else {
            "quick"@
        }) + " coverage="@),
        holds_text(verification_text(full, report), " coverage="@ + report.coverage@ + " objects_examined="@),
        holds_text(verification_text(full, report), " objects_examined="@ + decimal(report.objects_examined as nat) + " objects_verified="@),
        holds_text(verification_text(full, report), " objects_verified="@ + decimal(report.objects_verified as nat) + " canonical_bytes_verified="@),
        holds_text(verification_text(full, report), " canonical_bytes_verified="@ + decimal(report.canonical_bytes_verified as nat) + " findings="@),
        holds_text(verification_text(full, report), " findings="@ + decimal(report.finding_count as nat) + " omitted_findings="@),
        holds_text(verification_text(full, report), " omitted_findings="@ + decimal(report.omitted_findings as nat) + " fully_verified="@),
        holds_text(verification_text(full, report), " fully_verified="@ + (if report.verified_since_capture {
            "true"@
        } else {
            "false"@
        })),
{
    lemma_strung();
    let parts0 = Seq::<Seq<char>>::empty();
    let parts1 = parts0.push("scope="@);
    let parts2 = parts1.push((if full {
            "full"@
        } else {
            "quick"@
        }));
    let parts3 = parts2.push(" coverage="@);
    let parts4 = parts3.push(report.coverage@);
    let parts5 = parts4.push(" objects_examined="@);
    let parts6 = parts5.push(decimal(report.objects_examined as nat));
    let parts7 = parts6.push(" objects_verified="@);
    let parts8 = parts7.push(decimal(report.objects_verified as nat));
    let parts9 = parts8.push(" canonical_bytes_verified="@);
    let parts10 = parts9.push(decimal(report.canonical_bytes_verified as nat));
    let parts11 = parts10.push(" findings="@);
    let parts12 = parts11.push(decimal(report.finding_count as nat));
    let parts13 = parts12.push(" omitted_findings="@);
    let parts14 = parts13.push(decimal(report.omitted_findings as nat));
    let parts15 = parts14.push(" fully_verified="@);
    let parts16 = parts15.push((if report.verified_since_capture {
            "true"@
        } else {
            "false"@
        }));
    let parts = parts16;
    assert(strung(parts) == verification_text(full, report));
    lemma_neighbours(parts, 0);
    lemma_neighbours(parts, 2);
    lemma_neighbours(parts, 4);
    lemma_neighbours(parts, 6);
    lemma_neighbours(parts, 8);
    lemma_neighbours(parts, 10);
    lemma_neighbours(parts, 12);
    lemma_end(parts);
}

/// A pack is told count by count, each under its own name.
pub proof fn law_compaction_names_each_count(pack: PackSummary)
    ensures
        holds_text(compaction_text(Some(pack)), "packed=true pack_id="@ + pack.pack_id@ + " generation="@),
        holds_text(compaction_text(Some(pack)), " generation="@ + decimal(pack.generation as nat) + " objects="@),
        holds_text(compaction_text(Some(pack)), " objects="@ + decimal(pack.object_count as nat) + " full_entries="@),
        holds_text(compaction_text(Some(pack)), " full_entries="@ + decimal(pack.full_entries as nat) + " delta_entries="@),
        holds_text(compaction_text(Some(pack)), " delta_entries="@ + decimal(pack.delta_entries as nat) + " pack_bytes="@),
        holds_text(compaction_text(Some(pack)), " pack_bytes="@ + decimal(pack.pack_bytes as nat) + " index_bytes="@),
        holds_text(compaction_text(Some(pack)), " index_bytes="@ + decimal(pack.index_bytes as nat)),
{
    lemma_strung();
    let parts0 = Seq::<Seq<char>>::empty();
    let parts1 = parts0.push("packed=true pack_id="@);
    let parts2 = parts1.push(pack.pack_id@);
    let parts3 = parts2.push(" generation="@);
    let parts4 = parts3.push(decimal(pack.generation as nat));
    let parts5 = parts4.push(" objects="@);
    let parts6 = parts5.push(decimal(pack.object_count as nat));
    let parts7 = parts6.push(" full_entries="@);
    let parts8 = parts7.push(decimal(pack.full_entries as nat));
    let parts9 = parts8.push(" delta_entries="@);
    let parts10 = parts9.push(decimal(pack.delta_entries as nat));
    let parts11 = parts10.push(" pack_bytes="@);
    let parts12 = parts11.push(decimal(pack.pack_bytes as nat));
    let parts13 = parts12.push(" index_bytes="@);
    let parts14 = parts13.push(decimal(pack.index_bytes as nat));
    let parts = parts14;
    assert(strung(parts) == compaction_text(Some(pack)));
    lemma_neighbours(parts, 0);
    lemma_neighbours(parts, 2);
    lemma_neighbours(parts, 4);
    lemma_neighbours(parts, 6);
    lemma_neighbours(parts, 8);
    lemma_neighbours(parts, 10);
    lemma_end(parts);
}

/// What comes back of finished work is the text of its report as bytes, under the work's name.
pub proof fn law_receipts_hold_the_report(
    h: &mut ApplicationHandler,
    collection_id: CollectionId,
    one: ReconciliationReport,
    all: Vec<ReconciliationReport>,
    full: bool,
    verified: VerificationReport,
    pack: Option<PackSummary>,
    r: Result<MutationOutcome, OperationError>,
)
    ensures
        call_ensures(ApplicationHandler::sync_one, (h, collection_id, Ok(one)), r) ==> r is Ok
            && r->Ok_0.result@ == "synchronization-complete"@ && r->Ok_0.payload@ == encode_utf8(
            totals_text(totals_of(seq![one]), 1),
        ),
        call_ensures(ApplicationHandler::sync_all, (h, Ok(all)), r) ==> r is Ok
            && r->Ok_0.result@ == "synchronization-complete"@ && r->Ok_0.payload@ == encode_utf8(
            totals_text(totals_of(all@), all@.len()),
        ),
        call_ensures(ApplicationHandler::verify, (h, full, Ok(verified)), r) ==> r is Ok
            && r->Ok_0.result@ == "verification-complete"@ && r->Ok_0.payload@ == encode_utf8(
            verification_text(full, verified),
        ),
        call_ensures(ApplicationHandler::compact, (h, Ok(pack)), r) ==> r is Ok
            && r->Ok_0.result@ == "compaction-complete"@ && r->Ok_0.payload@ == encode_utf8(
            compaction_text(pack),
        ),
        compaction_text(None) == "packed=false reason=no-unpacked-loose-objects"@,
{
}

/// An unknown extension is refused as unsupported by its quoted name, and a time before the epoch
/// is no time.
pub proof fn law_refusals_say_why(
    name: &str,
    refused: OperationError,
    since_epoch: Option<u64>,
    now: Result<u64, OperationError>,
)
    requires
        call_ensures(extension_error, (name,), refused),
        call_ensures(unix_time, (since_epoch,), now),
    ensures
        refused@.code is Unsupported && refused@.message == "extension operation "@ + name@
            + " is not implemented"@,
        since_epoch is Some <==> now is Ok,
        now matches Ok(seconds) ==> since_epoch == Some(seconds),
        now matches Err(error) ==> error@.code is OperationFailed,
{
}

} // verus!
