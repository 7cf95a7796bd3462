//! What the desktop application shows of synchronization and of dump bootstraps.

use vstd::prelude::*;
use vstd::string::*;

use crate::desktop::{is_idle, App};
use crate::dump_form::{DumpBootstrapPreview, DumpPanelView};
use crate::labels::{
    checkpoint_summary, checkpoint_text, format_bytes, size_text, title_case, titled,
};
use crate::model::{NetworkTransferPolicy, NetworkView};
use crate::purge_dialog::text_views;
use crate::snapshot::{DashboardSnapshot, DumpImportStatus, RecordedError, SyncRunStatus};
use crate::text::{decimal, decimal_text};

verus! {

/// An import of a dump as it is shown.
#[derive(Debug, PartialEq, Eq)]
pub struct ImportCard {
    pub title: String,
    pub state: String,
    pub progress: String,
    pub source: String,
    pub error: Option<String>,
}

/// Plain view of a shown import.
pub struct ImportView {
    pub title: Seq<char>,
    pub state: Seq<char>,
    pub progress: Seq<char>,
    pub source: Seq<char>,
    pub error: Option<Seq<char>>,
}

impl View for ImportCard {
    type V = ImportView;

    open spec fn view(&self) -> ImportView {
        ImportView {
            title: self.title@,
            state: self.state@,
            progress: self.progress@,
            source: self.source@,
            error: crate::desktop::seen(self.error),
        }
    }
}

/// A synchronization run as it is shown, with the jobs that are done of all its jobs.
#[derive(Debug, PartialEq, Eq)]
pub struct RunCard {
    pub title: String,
    pub status: String,
    pub done: u64,
    pub total: u128,
    pub jobs: String,
    pub error: Option<String>,
}

/// Plain view of a shown run.
pub struct RunView {
    pub title: Seq<char>,
    pub status: Seq<char>,
    pub done: u64,
    pub total: u128,
    pub jobs: Seq<char>,
    pub error: Option<Seq<char>>,
}

impl View for RunCard {
    type V = RunView;

    open spec fn view(&self) -> RunView {
        RunView {
            title: self.title@,
            status: self.status@,
            done: self.done,
            total: self.total,
            jobs: self.jobs@,
            error: crate::desktop::seen(self.error),
        }
    }
}

/// Everything that is shown of synchronization.
#[derive(Debug, PartialEq, Eq)]
pub struct SyncPanel {
    pub policy: String,
    pub save_enabled: bool,
    pub imports: Vec<ImportCard>,
    pub runs: Vec<RunCard>,
    pub checkpoints: Vec<String>,
}

/// Everything that is shown of a bootstrap beside its form: the previewed bootstrap line by
/// line, where there is one, and which of the two actions can be taken.
#[derive(Debug, PartialEq, Eq)]
pub struct DumpPanel {
    pub lines: Option<Vec<String>>,
    pub preview_enabled: bool,
    pub start_enabled: bool,
}

/// A rate, or that there is none.
pub open spec fn rate_text(rate: Option<u64>) -> Seq<char> {
    match rate {
        Some(rate) => size_text(rate) + "/s"@,
        None => "unlimited"@,
    }
}

/// Whether something is switched on.
pub open spec fn switch_text(on: bool) -> Seq<char> {
    if on {
        "enabled"@
    } else {
        "disabled"@
    }
}

/// What is shown of a network policy.
pub open spec fn policy_text(policy: NetworkView) -> Seq<char> {
    "Active policy: up to "@ + decimal(policy.max_concurrent_requests as nat)
        + " concurrent request(s), byte rate "@ + rate_text(policy.max_download_bytes_per_second)
        + ", metered-network avoidance "@ + switch_text(policy.avoid_metered_networks) + "."@
}

/// A recorded failure behind its label.
pub open spec fn failure_text(label: Seq<char>, error: Option<RecordedError>) -> Option<Seq<char>> {
    match error {
        Some(error) => Some(label + " ["@ + error.code@ + "]: "@ + error.message@),
        None => None,
    }
}

/// How an import is shown.
pub open spec fn import_shown(import: DumpImportStatus) -> ImportView {
    ImportView {
        title: "Dump import #"@ + decimal(import.import_id as nat) + " · collection "@ + decimal(
            import.collection_id as nat,
        ) + " · run #"@ + decimal(import.run_id as nat),
        state: import.state@,
        progress: decimal(import.pages_scanned as nat) + " pages scanned · "@ + decimal(
            import.imported_pages as nat,
        ) + " selected pages imported · "@ + size_text(import.imported_canonical_bytes)
            + " canonical bytes · attempt "@ + decimal(import.attempt_count as nat) + (
        if import.retryable {
            " · retryable"@
        } else {
            ""@
        }),
        source: "Authenticated index "@ + import.dump_digest@ + " · compressed artifact set "@
            + size_text(import.dump_compressed_bytes),
        error: failure_text("Last import error"@, import.latest_error),
    }
}

/// How a run is shown; one that goes on with failed jobs asks for attention.
pub open spec fn run_shown(run: SyncRunStatus) -> RunView {
    RunView {
        title: titled(run.kind@) + " run #"@ + decimal(run.run_id as nat),
        status: if run.running && run.failed_jobs > 0 {
            "attention"@
        } else {
            run.state@
        },
        done: run.succeeded_jobs,
        total: (run.queued_jobs + run.running_jobs + run.succeeded_jobs + run.failed_jobs) as u128,
        jobs: decimal(run.queued_jobs as nat) + " queued · "@ + decimal(run.running_jobs as nat)
            + " running · "@ + decimal(run.succeeded_jobs as nat) + " succeeded · "@ + decimal(
            run.failed_jobs as nat,
        ) + " failed"@,
        error: failure_text("Last error"@, run.latest_error),
    }
}

fn rate_label(rate: Option<u64>) -> (s: String)
    ensures
        s@ == rate_text(rate),
{
    match rate {
        Some(rate) => {
            let mut s = format_bytes(rate);
            s.append("/s");
            s
        },
        None => "unlimited".to_owned(),
    }
}

fn switch_label(on: bool) -> (s: &'static str)
    ensures
        s@ == switch_text(on),
{
    if on {
        "enabled"
    } else {
        "disabled"
    }
}

fn policy_label(policy: NetworkTransferPolicy) -> (s: String)
    ensures
        s@ == policy_text(policy@),
{
    let mut s = "Active policy: up to ".to_owned();
    s.append(decimal_text(policy.max_concurrent_requests() as u64).as_str());
    s.append(" concurrent request(s), byte rate ");
    s.append(rate_label(policy.max_download_bytes_per_second()).as_str());
    s.append(", metered-network avoidance ");
    s.append(switch_label(policy.avoid_metered_networks()));
    s.append(".");
    s
}

fn failure_label(label: &str, error: &Option<RecordedError>) -> (s: Option<String>)
    ensures
        crate::desktop::seen(s) == failure_text(label@, *error),
{
    match error {
        Some(error) => {
            let mut s = label.to_owned();
            s.append(" [");
            s.append(error.code.as_str());
            s.append("]: ");
            s.append(error.message.as_str());
            Some(s)
        },
        None => None,
    }
}

/// Shows an import.
pub fn import_card(import: &DumpImportStatus) -> (card: ImportCard)
    ensures
        card@ == import_shown(*import),
{
    let mut title = "Dump import #".to_owned();
    title.append(decimal_text(import.import_id).as_str());
    title.append(" · collection ");
    title.append(decimal_text(import.collection_id).as_str());
    title.append(" · run #");
    title.append(decimal_text(import.run_id).as_str());
    let mut progress = decimal_text(import.pages_scanned);
    progress.append(" pages scanned · ");
    progress.append(decimal_text(import.imported_pages).as_str());
    progress.append(" selected pages imported · ");
    progress.append(format_bytes(import.imported_canonical_bytes).as_str());
    progress.append(" canonical bytes · attempt ");
    progress.append(decimal_text(import.attempt_count).as_str());
    progress.append(
        if import.retryable {
            " · retryable"
        } else {
            ""
        },
    );
    let mut source = "Authenticated index ".to_owned();
    source.append(import.dump_digest.as_str());
    source.append(" · compressed artifact set ");
    source.append(format_bytes(import.dump_compressed_bytes).as_str());
    ImportCard {
        title,
        state: import.state.clone(),
        progress,
        source,
        error: failure_label("Last import error", &import.latest_error),
    }
}

/// Shows a run.
pub fn run_card(run: &SyncRunStatus) -> (card: RunCard)
    ensures
        card@ == run_shown(*run),
{
    let mut title = title_case(run.kind.as_str());
    title.append(" run #");
    title.append(decimal_text(run.run_id).as_str());
    let status = if run.running && run.failed_jobs > 0 {
        "attention".to_owned()
    } else {
        run.state.clone()
    };
    let total: u128 = run.queued_jobs as u128 + run.running_jobs as u128 + run.succeeded_jobs as u128
        + run.failed_jobs as u128;
    let mut jobs = decimal_text(run.queued_jobs);
    jobs.append(" queued · ");
    jobs.append(decimal_text(run.running_jobs).as_str());
    jobs.append(" running · ");
    jobs.append(decimal_text(run.succeeded_jobs).as_str());
    jobs.append(" succeeded · ");
    jobs.append(decimal_text(run.failed_jobs).as_str());
    jobs.append(" failed");
    RunCard {
        title,
        status,
        done: run.succeeded_jobs,
        total,
        jobs,
        error: failure_label("Last error", &run.latest_error),
    }
}

/// Every import is shown in order.
pub open spec fn imports_shown(imports: Seq<DumpImportStatus>, cards: Seq<ImportCard>) -> bool {
    &&& cards.len() == imports.len()
    &&& forall|i: int| 0 <= i < cards.len() ==> (#[trigger] cards[i])@ == import_shown(imports[i])
}

/// Every run is shown in order.
pub open spec fn runs_shown(runs: Seq<SyncRunStatus>, cards: Seq<RunCard>) -> bool {
    &&& cards.len() == runs.len()
    &&& forall|i: int| 0 <= i < cards.len() ==> (#[trigger] cards[i])@ == run_shown(runs[i])
}

/// Every checkpoint is shown in order.
pub open spec fn checkpoints_shown(snapshot: DashboardSnapshot, lines: Seq<String>) -> bool {
    &&& lines.len() == snapshot.checkpoints@.len()
    &&& forall|i: int|
        0 <= i < lines.len() ==> (#[trigger] lines[i])@ == checkpoint_text(
            snapshot.checkpoints@[i],
        )
}

/// A limit, or that there is none.
pub open spec fn limit_text(limit: Option<u64>, bytes: bool) -> Seq<char> {
    match limit {
        Some(limit) => if bytes {
            size_text(limit)
        } else {
            decimal(limit as nat)
        },
        None => "unlimited"@,
    }
}

/// The lines of a previewed bootstrap: its source, its trust identity, its scope, its
/// budgets and every ceiling that will hold.
pub open spec fn dump_lines(preview: DumpPanelView) -> Seq<Seq<char>> {
    let acquisition = preview.draft.acquisition;
    let parser = preview.draft.parser;
    seq![
        "Source: "@ + preview.source_endpoint + " ("@ + preview.language_code + ", wiki "@
            + decimal(preview.wiki_id as nat) + ")"@,
        "Trust identity: BLAKE3 "@ + preview.draft.digest + " for "@ + preview.draft.url
            + " (expected database "@ + preview.draft.database + ")"@,
        "Scope: collection "@ + decimal(preview.draft.collection_id as nat) + " “"@
            + preview.collection_name + "”, generation "@ + decimal(
            preview.collection_generation as nat,
        ) + ", "@ + decimal(preview.resolved_pages as nat) + " resolved pages"@,
        "Hard collection budgets: pages "@ + limit_text(preview.budget.maximum_pages, false)
            + "; canonical bytes "@ + limit_text(preview.budget.maximum_bytes, true) + "."@,
        "Transfer/storage ceilings: index "@ + size_text(acquisition.max_index_bytes as u64)
            + ", each artifact "@ + size_text(acquisition.max_artifact_bytes)
            + ", all cached artifacts "@ + size_text(acquisition.max_total_artifact_bytes) + ", "@
            + decimal(acquisition.max_artifacts as nat) + " artifacts, "@ + decimal(
            acquisition.max_elapsed_seconds as nat,
        ) + " seconds; private cache "@ + preview.cache_directory + "."@,
        "Durable network policy: "@ + decimal(preview.max_concurrent_requests as nat)
            + " concurrent request(s), byte rate "@ + rate_text(
            preview.max_download_bytes_per_second,
        ) + ", metered-network avoidance "@ + switch_text(preview.avoid_metered_networks) + "."@,
        "Parser ceilings: compressed "@ + size_text(parser.max_compressed_bytes)
            + ", decompressed "@ + size_text(parser.max_decompressed_bytes) + ", "@ + decimal(
            parser.max_pages as nat,
        ) + " pages, "@ + size_text(parser.max_page_xml_bytes) + " XML/page, "@ + size_text(
            parser.max_text_bytes as u64,
        ) + " revision text."@,
    ]
}

fn source_line(preview: &DumpBootstrapPreview) -> (s: String)
    ensures
        s@ == dump_lines(preview@)[0],
{
    let mut s = "Source: ".to_owned();
    s.append(preview.source_endpoint.as_str());
    s.append(" (");
    s.append(preview.language_code.as_str());
    s.append(", wiki ");
    s.append(decimal_text(preview.wiki_id.get()).as_str());
    s.append(")");
    s
}

fn trust_line(preview: &DumpBootstrapPreview) -> (s: String)
    ensures
        s@ == dump_lines(preview@)[1],
{
    let mut s = "Trust identity: BLAKE3 ".to_owned();
    s.append(preview.draft.trusted_index_digest.to_hex().as_str());
    s.append(" for ");
    s.append(preview.draft.trusted_index_url.as_str());
    s.append(" (expected database ");
    s.append(preview.draft.expected_database.as_str());
    s.append(")");
    s
}

fn scope_line(preview: &DumpBootstrapPreview) -> (s: String)
    ensures
        s@ == dump_lines(preview@)[2],
{
    let mut s = "Scope: collection ".to_owned();
    s.append(decimal_text(preview.draft.collection_id.get()).as_str());
    s.append(" “");
    s.append(preview.collection_name.as_str());
    s.append("”, generation ");
    s.append(decimal_text(preview.collection_generation).as_str());
    s.append(", ");
    s.append(decimal_text(preview.resolved_pages as u64).as_str());
    s.append(" resolved pages");
    s
}

fn budget_line(preview: &DumpBootstrapPreview) -> (s: String)
    ensures
        s@ == dump_lines(preview@)[3],
{
    let mut s = "Hard collection budgets: pages ".to_owned();
    match preview.budget.maximum_pages() {
        Some(limit) => s.append(decimal_text(limit.get()).as_str()),
        None => s.append("unlimited"),
    }
    s.append("; canonical bytes ");
    match preview.budget.maximum_bytes() {
        Some(limit) => s.append(format_bytes(limit.get()).as_str()),
        None => s.append("unlimited"),
    }
    s.append(".");
    s
}

fn transfer_line(preview: &DumpBootstrapPreview) -> (s: String)
    ensures
        s@ == dump_lines(preview@)[4],
{
    let limits = &preview.draft.acquisition_limits;
    let mut s = "Transfer/storage ceilings: index ".to_owned();
    s.append(format_bytes(limits.max_index_bytes as u64).as_str());
    s.append(", each artifact ");
    s.append(format_bytes(limits.max_artifact_bytes).as_str());
    s.append(", all cached artifacts ");
    s.append(format_bytes(limits.max_total_artifact_bytes).as_str());
    s.append(", ");
    s.append(decimal_text(limits.max_artifacts as u64).as_str());
    s.append(" artifacts, ");
    s.append(decimal_text(limits.max_elapsed_seconds).as_str());
    s.append(" seconds; private cache ");
    s.append(preview.cache_directory.as_str());
    s.append(".");
    s
}

fn network_line(preview: &DumpBootstrapPreview) -> (s: String)
    ensures
        s@ == dump_lines(preview@)[5],
{
    let mut s = "Durable network policy: ".to_owned();
    s.append(decimal_text(preview.max_concurrent_requests as u64).as_str());
    s.append(" concurrent request(s), byte rate ");
    s.append(rate_label(preview.max_download_bytes_per_second).as_str());
    s.append(", metered-network avoidance ");
    s.append(switch_label(preview.avoid_metered_networks));
    s.append(".");
    s
}

fn parser_line(preview: &DumpBootstrapPreview) -> (s: String)
    ensures
        s@ == dump_lines(preview@)[6],
{
    let limits = &preview.draft.parser_limits;
    let mut s = "Parser ceilings: compressed ".to_owned();
    s.append(format_bytes(limits.max_compressed_bytes).as_str());
    s.append(", decompressed ");
    s.append(format_bytes(limits.max_decompressed_bytes).as_str());
    s.append(", ");
    s.append(decimal_text(limits.max_pages).as_str());
    s.append(" pages, ");
    s.append(format_bytes(limits.max_page_xml_bytes).as_str());
    s.append(" XML/page, ");
    s.append(format_bytes(limits.max_text_bytes as u64).as_str());
    s.append(" revision text.");
    s
}

impl DashboardSnapshot {
    fn import_cards(&self) -> (cards: Vec<ImportCard>)
        ensures
            imports_shown(self.dump_imports@, cards@),
    {
        let mut cards: Vec<ImportCard> = Vec::new();
        let mut i: usize = 0;
        while i < self.dump_imports.len()
            invariant
                i == cards@.len(),
                i <= self.dump_imports@.len(),
                forall|k: int|
                    0 <= k < i ==> (#[trigger] cards@[k])@ == import_shown(self.dump_imports@[k]),
            decreases self.dump_imports@.len() - i,
        {
            cards.push(import_card(&self.dump_imports[i]));
            i = i + 1;
        }
        cards
    }

    fn run_cards(&self) -> (cards: Vec<RunCard>)
        ensures
            runs_shown(self.runs@, cards@),
    {
        let mut cards: Vec<RunCard> = Vec::new();
        let mut i: usize = 0;
        while i < self.runs.len()
            invariant
                i == cards@.len(),
                i <= self.runs@.len(),
                forall|k: int| 0 <= k < i ==> (#[trigger] cards@[k])@ == run_shown(self.runs@[k]),
            decreases self.runs@.len() - i,
        {
            cards.push(run_card(&self.runs[i]));
            i = i + 1;
        }
        cards
    }

    fn checkpoint_lines(&self) -> (lines: Vec<String>)
        ensures
            checkpoints_shown(*self, lines@),
    {
        let mut lines: Vec<String> = Vec::new();
        let mut i: usize = 0;
        while i < self.checkpoints.len()
            invariant
                i == lines@.len(),
                i <= self.checkpoints@.len(),
                forall|k: int|
                    0 <= k < i ==> (#[trigger] lines@[k])@ == checkpoint_text(self.checkpoints@[k]),
            decreases self.checkpoints@.len() - i,
        {
            lines.push(checkpoint_summary(&self.checkpoints[i]));
            i = i + 1;
        }
        lines
    }
}

impl App {
    /// Shows the synchronization of a library.
    pub fn sync_view(&self, snapshot: &DashboardSnapshot) -> (panel: SyncPanel)
        ensures
            panel.policy@ == policy_text(snapshot.network_policy@),
            panel.save_enabled == is_idle(self@),
            imports_shown(snapshot.dump_imports@, panel.imports@),
            runs_shown(snapshot.runs@, panel.runs@),
            checkpoints_shown(*snapshot, panel.checkpoints@),
    {
        SyncPanel {
            policy: policy_label(snapshot.network_policy),
            save_enabled: !self.is_busy(),
            imports: snapshot.import_cards(),
            runs: snapshot.run_cards(),
            checkpoints: snapshot.checkpoint_lines(),
        }
    }

    /// Shows the previewed bootstrap and its actions: a preview can be asked for while nothing
    /// runs, and started once there is one.
    pub fn dump_bootstrap_panel(&self) -> (panel: DumpPanel)
        ensures
            match panel.lines {
                Some(lines) => self@.dump_bootstrap_preview is Some && text_views(lines@)
                    == dump_lines(self@.dump_bootstrap_preview->0),
                None => self@.dump_bootstrap_preview is None,
            },
            panel.preview_enabled == is_idle(self@),
            panel.start_enabled == (is_idle(self@) && self@.dump_bootstrap_preview is Some),
    {
        let idle: bool = !self.is_busy();
        match &self.dump_bootstrap_preview {
            None => DumpPanel { lines: None, preview_enabled: idle, start_enabled: false },
            Some(preview) => {
                let mut lines: Vec<String> = Vec::new();
                lines.push(source_line(preview));
                lines.push(trust_line(preview));
                lines.push(scope_line(preview));
                lines.push(budget_line(preview));
                lines.push(transfer_line(preview));
                lines.push(network_line(preview));
                lines.push(parser_line(preview));
                proof {
                    assert(text_views(lines@) =~= dump_lines(preview@));
                }
                DumpPanel { lines: Some(lines), preview_enabled: idle, start_enabled: idle }
            },
        }
    }
}

/// A run is shown with its own jobs: those that succeeded are done, and the total is all of
/// them. It asks for attention exactly when it goes on with failed jobs.
pub proof fn law_runs_show_their_jobs(run: SyncRunStatus, card: RunCard)
    requires
        call_ensures(run_card, (&run,), card),
    ensures
        card.done == run.succeeded_jobs,
        card.total == run.queued_jobs + run.running_jobs + run.succeeded_jobs + run.failed_jobs,
        card.done <= card.total,
        run.running && run.failed_jobs > 0 ==> card.status@ == "attention"@,
        !(run.running && run.failed_jobs > 0) ==> card.status@ == run.state@,
        card.error is Some <==> run.latest_error is Some,
        run.latest_error matches Some(error) ==> card.error->0@ == "Last error ["@ + error.code@
            + "]: "@ + error.message@,
        card.jobs@ == decimal(run.queued_jobs as nat) + " queued · "@ + decimal(
            run.running_jobs as nat,
        ) + " running · "@ + decimal(run.succeeded_jobs as nat) + " succeeded · "@ + decimal(
            run.failed_jobs as nat,
        ) + " failed"@,
{
    assert(card@ == run_shown(run));
    if let Some(error) = run.latest_error {
        reveal_strlit("Last error");
        reveal_strlit(" [");
        reveal_strlit("Last error [");
        assert("Last error"@ + " ["@ =~= "Last error ["@);
        assert(card@.error == Some("Last error"@ + " ["@ + error.code@ + "]: "@ + error.message@));
    }
}

/// An import is shown with its own numbers and state, and is marked exactly when it can be
/// tried again.
pub proof fn law_imports_show_their_progress(import: DumpImportStatus, card: ImportCard)
    requires
        call_ensures(import_card, (&import,), card),
    ensures
        card.state@ == import.state@,
        card.title@ == "Dump import #"@ + decimal(import.import_id as nat) + " · collection "@
            + decimal(import.collection_id as nat) + " · run #"@ + decimal(import.run_id as nat),
        ({
            let counted = decimal(import.pages_scanned as nat) + " pages scanned · "@ + decimal(
                import.imported_pages as nat,
            ) + " selected pages imported · "@ + size_text(import.imported_canonical_bytes)
                + " canonical bytes · attempt "@ + decimal(import.attempt_count as nat);
            card.progress@ == if import.retryable {
                counted + " · retryable"@
            } else {
                counted
            }
        }),
        card.source@ == "Authenticated index "@ + import.dump_digest@
            + " · compressed artifact set "@ + size_text(import.dump_compressed_bytes),
        card.error is Some <==> import.latest_error is Some,
{
    assert(card@ == import_shown(import));
    reveal_strlit("");
    assert(forall|s: Seq<char>| #[trigger] (s + ""@) =~= s);
}

/// The panel shows every import, run and checkpoint in the order in which they were read, and
/// lets the policy be saved exactly while nothing runs.
pub proof fn law_sync_panel_shows_everything(
    app: App,
    snapshot: DashboardSnapshot,
    panel: SyncPanel,
    i: int,
    import: ImportCard,
    run: RunCard,
    line: String,
)
    requires
        call_ensures(App::sync_view, (&app, &snapshot), panel),
        0 <= i < snapshot.dump_imports@.len() ==> call_ensures(
            import_card,
            (&snapshot.dump_imports@[i],),
            import,
        ),
        0 <= i < snapshot.runs@.len() ==> call_ensures(run_card, (&snapshot.runs@[i],), run),
        0 <= i < snapshot.checkpoints@.len() ==> call_ensures(
            checkpoint_summary,
            (&snapshot.checkpoints@[i],),
            line,
        ),
    ensures
        panel.save_enabled <==> app.active_request is None,
        panel.imports@.len() == snapshot.dump_imports@.len(),
        panel.runs@.len() == snapshot.runs@.len(),
        panel.checkpoints@.len() == snapshot.checkpoints@.len(),
        0 <= i < snapshot.dump_imports@.len() ==> panel.imports@[i]@ == import@,
        0 <= i < snapshot.runs@.len() ==> panel.runs@[i]@ == run@,
        0 <= i < snapshot.checkpoints@.len() ==> panel.checkpoints@[i]@ == line@,
        panel.policy@ == "Active policy: up to "@ + decimal(
            snapshot.network_policy@.max_concurrent_requests as nat,
        ) + " concurrent request(s), byte rate "@ + (
        match snapshot.network_policy@.max_download_bytes_per_second {
            Some(rate) => size_text(rate) + "/s"@,
            None => "unlimited"@,
        }) + ", metered-network avoidance "@ + (
        if snapshot.network_policy@.avoid_metered_networks {
            "enabled"@
        } else {
            "disabled"@
        }) + "."@,
{
}

/// A bootstrap can be started exactly when one was previewed and nothing runs; what is shown
/// names its source, the identity that is trusted, its scope and its limits.
pub proof fn law_only_previewed_bootstraps_can_start(app: App, panel: DumpPanel)
    requires
        call_ensures(App::dump_bootstrap_panel, (&app,), panel),
    ensures
        panel.preview_enabled <==> app.active_request is None,
        panel.start_enabled <==> app.active_request is None && app.dump_bootstrap_preview is Some,
        panel.lines is Some <==> app.dump_bootstrap_preview is Some,
        app.dump_bootstrap_preview matches Some(preview) ==> {
            let lines = panel.lines->0@;
            &&& lines.len() == 7
            &&& lines[0]@ == "Source: "@ + preview@.source_endpoint + " ("@
                + preview@.language_code + ", wiki "@ + decimal(preview@.wiki_id as nat) + ")"@
            &&& lines[1]@ == "Trust identity: BLAKE3 "@ + preview@.draft.digest + " for "@
                + preview@.draft.url + " (expected database "@ + preview@.draft.database + ")"@
            &&& lines[2]@ == "Scope: collection "@ + decimal(preview@.draft.collection_id as nat)
                + " “"@ + preview@.collection_name + "”, generation "@ + decimal(
                preview@.collection_generation as nat,
            ) + ", "@ + decimal(preview@.resolved_pages as nat) + " resolved pages"@
            &&& lines[3]@ == "Hard collection budgets: pages "@ + (
            match preview@.budget.maximum_pages {
                Some(pages) => decimal(pages as nat),
                None => "unlimited"@,
            }) + "; canonical bytes "@ + (match preview@.budget.maximum_bytes {
                Some(bytes) => size_text(bytes),
                None => "unlimited"@,
            }) + "."@
        },
{
    if let Some(preview) = app.dump_bootstrap_preview {
        let lines = panel.lines->0@;
        let views = text_views(lines);
        assert(app@.dump_bootstrap_preview == Some(preview@));
        assert(views == dump_lines(preview@));
        assert(views.len() == lines.len());
        assert(views[0] == lines[0]@);
        assert(views[1] == lines[1]@);
        assert(views[2] == lines[2]@);
        assert(views[3] == lines[3]@);
    }
}

} // verus!
