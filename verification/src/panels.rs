//! What the desktop application shows before a library is open, of its contents and of its
//! integrity.

use vstd::prelude::*;
use vstd::string::*;

use crate::desktop::{
    is_idle, App, FindingKind, FullVerificationReport, PathStatus, Tab, VerificationFinding,
    VerificationKind, VerificationState,
};
use crate::labels::{format_bytes, size_text, storage_bytes_label, storage_files_label};
use crate::purge_dialog::text_views;
use crate::snapshot::{DashboardSnapshot, RecentRevision};
use crate::text::{decimal, decimal_text};

verus! {

/// What the main button of the first screen does.
#[derive(Clone, Copy, Debug, PartialEq, Eq, Structural)]
pub enum PrimaryAction {
    Open,
    Create,
    Checking,
}

/// The first screen.
#[derive(Debug, PartialEq, Eq)]
pub struct SetupPanel {
    pub primary: PrimaryAction,
    pub primary_enabled: bool,
    pub path_message: String,
    pub progress: &'static str,
}

/// What is told of a path.
pub open spec fn path_text(status: PathStatus) -> Seq<char> {
    match status {
        PathStatus::Checking => "Checking this location…"@,
        PathStatus::ExistingLibrary =>
            "An existing WikiSyncer library was found at this location."@,
        PathStatus::NewLibrary => "A new library will be initialized at this location."@,
        PathStatus::Unavailable(error) => "This location is unavailable: "@ + error@,
    }
}

/// What the main button of the first screen does for a path.
pub open spec fn primary_action(status: PathStatus) -> PrimaryAction {
    match status {
        PathStatus::ExistingLibrary => PrimaryAction::Open,
        PathStatus::NewLibrary => PrimaryAction::Create,
        _ => PrimaryAction::Checking,
    }
}

/// What is shown of the tab that is chosen.
#[derive(Clone, Copy, Debug, PartialEq, Eq, Structural)]
pub enum DashboardBody {
    Loading,
    Tab(Tab),
}

/// The frame of the dashboard.
#[derive(Debug, PartialEq, Eq)]
pub struct DashboardPanel {
    pub reader_label: &'static str,
    pub actions_enabled: bool,
    pub status: &'static str,
    pub body: DashboardBody,
}

/// A captured revision as it is shown.
#[derive(Debug, PartialEq, Eq)]
pub struct RevisionRow {
    pub title: String,
    pub detail: String,
    pub size: String,
}

/// Plain view of a shown revision.
pub struct RevisionView {
    pub title: Seq<char>,
    pub detail: Seq<char>,
    pub size: Seq<char>,
}

impl View for RevisionRow {
    type V = RevisionView;

    open spec fn view(&self) -> RevisionView {
        RevisionView { title: self.title@, detail: self.detail@, size: self.size@ }
    }
}

/// How a revision is shown.
pub open spec fn revision_shown(revision: RecentRevision) -> RevisionView {
    RevisionView {
        title: revision.title@,
        detail: "Wiki "@ + decimal(revision.wiki_id as nat) + " · revision "@ + decimal(
            revision.revision_id as nat,
        ) + " · "@ + revision.timestamp@,
        size: size_text(revision.source_size),
    }
}

/// The contents of a library in numbers.
#[derive(Debug, PartialEq, Eq)]
pub struct OverviewPanel {
    pub collections: String,
    pub unique_pages: String,
    pub recent_count: String,
    pub library_size: String,
    pub storage_warning: Option<String>,
    pub recent: Vec<RevisionRow>,
}

/// Every recent revision is shown in order.
pub open spec fn revisions_shown(revisions: Seq<RecentRevision>, rows: Seq<RevisionRow>) -> bool {
    &&& rows.len() == revisions.len()
    &&& forall|i: int| 0 <= i < rows.len() ==> (#[trigger] rows[i])@ == revision_shown(revisions[i])
}

/// The integrity of a library.
#[derive(Debug, PartialEq, Eq)]
pub struct IntegrityPanel {
    pub schema_version: String,
    pub unique_objects: String,
    pub files: String,
    pub result: Vec<String>,
    pub controls_enabled: bool,
}

/// How many findings of a report are shown.
pub const SHOWN_FINDINGS: usize = 8;

/// Some finding tells that an anchor was compared.
pub open spec fn names_anchor(findings: Seq<VerificationFinding>) -> bool {
    exists|i: int|
        0 <= i < findings.len() && ((#[trigger] findings[i]).kind
            == FindingKind::TrustedHeadSignatureInvalid || findings[i].kind
            == FindingKind::TrustedHeadMismatch)
}

/// What a report counted.
pub open spec fn coverage_text(report: FullVerificationReport) -> Seq<char> {
    "Verified "@ + decimal(report.objects_verified as nat) + " of "@ + decimal(
        report.objects_at_start as nat,
    ) + " logical objects ("@ + decimal(report.canonical_bytes_verified as nat)
        + " canonical bytes), "@ + decimal(report.manifests_identity_verified as nat) + " of "@
        + decimal(report.manifests_at_start as nat) + " manifests, and "@ + decimal(
        report.metadata_records_examined as nat,
    ) + " metadata references."@
}

/// What a report established.
pub open spec fn verdict_text(report: FullVerificationReport) -> Seq<char> {
    if report.verified_since_capture {
        "Complete: the stable captured library is internally verified since capture. This is an integrity result, not proof that its content is true."@
    } else {
        "Full verification did not establish complete clean coverage. Review the findings below before trusting or refreshing an anchor."@
    }
}

/// How many findings a report has.
pub open spec fn findings_text(report: FullVerificationReport) -> Seq<char> {
    decimal(report.finding_count as nat) + " finding(s); "@ + decimal(report.findings@.len())
        + " detailed finding(s) retained; "@ + decimal(report.omitted_findings as nat)
        + " omitted."@
}

/// What a report tells of the external anchor, where one was compared.
pub open spec fn anchor_lines(report: FullVerificationReport) -> Seq<Seq<char>> {
    if !report.trusted_head_authenticated && !names_anchor(report.findings@) {
        Seq::empty()
    } else if report.authenticated_against_trusted_head {
        seq![
            "External anchor authenticated: its Ed25519 signature is valid and its exact manifest head matches this fully verified library."@,
        ]
    } else {
        seq![
            "External anchor did not authenticate this library. Do not replace or refresh it until the mismatch or invalid signature is understood."@,
        ]
    }
}

/// One finding as it is shown.
pub open spec fn finding_text(finding: VerificationFinding) -> Seq<char> {
    "• "@ + finding.name@ + ": "@ + finding.message@
}

/// The first findings as they are shown.
pub open spec fn finding_lines(findings: Seq<VerificationFinding>) -> Seq<Seq<char>> {
    findings.take(
        if findings.len() < SHOWN_FINDINGS {
            findings.len() as int
        } else {
            SHOWN_FINDINGS as int
        },
    ).map_values(|finding: VerificationFinding| finding_text(finding))
}

/// The lines of a report.
pub open spec fn report_lines(report: FullVerificationReport) -> Seq<Seq<char>> {
    seq![coverage_text(report), verdict_text(report), findings_text(report)] + anchor_lines(report)
        + finding_lines(report.findings@)
}

/// The lines of a verification's state.
pub open spec fn verification_lines(state: VerificationState) -> Seq<Seq<char>> {
    match state {
        VerificationState::NotRun => seq!["No read verification has run in this session."@],
        VerificationState::Running(VerificationKind::Local) => seq![
            "Reading and hash-verifying the full library, manifest chain, and metadata references…"@,
        ],
        VerificationState::Running(VerificationKind::TrustedHead) => seq![
            "Running full verification and comparing the manifest-chain head with the external Ed25519 anchor…"@,
        ],
        VerificationState::Running(VerificationKind::AnchorRefresh) => seq![
            "Signing the observed head in memory, then running full authenticated verification before publishing the external anchor…"@,
        ],
        VerificationState::Complete(report) => report_lines(report),
        VerificationState::Failed(error) => seq!["Verification stopped: "@ + error@],
    }
}

fn anchor_named(findings: &Vec<VerificationFinding>) -> (named: bool)
    ensures
        named == names_anchor(findings@),
{
    let mut i: usize = 0;
    while i < findings.len()
        invariant
            i <= findings@.len(),
            forall|k: int|
                0 <= k < i ==> (#[trigger] findings@[k]).kind
                    != FindingKind::TrustedHeadSignatureInvalid && findings@[k].kind
                    != FindingKind::TrustedHeadMismatch,
        decreases findings@.len() - i,
    {
        let kind = findings[i].kind;
        if kind == FindingKind::TrustedHeadSignatureInvalid || kind
            == FindingKind::TrustedHeadMismatch {
            return true;
        }
        i = i + 1;
    }
    false
}

fn coverage_line(report: &FullVerificationReport) -> (s: String)
    ensures
        s@ == coverage_text(*report),
{
    let mut s = "Verified ".to_owned();
    s.append(decimal_text(report.objects_verified).as_str());
    s.append(" of ");
    s.append(decimal_text(report.objects_at_start).as_str());
    s.append(" logical objects (");
    s.append(decimal_text(report.canonical_bytes_verified).as_str());
    s.append(" canonical bytes), ");
    s.append(decimal_text(report.manifests_identity_verified).as_str());
    s.append(" of ");
    s.append(decimal_text(report.manifests_at_start).as_str());
    s.append(" manifests, and ");
    s.append(decimal_text(report.metadata_records_examined).as_str());
    s.append(" metadata references.");
    s
}

fn findings_line(report: &FullVerificationReport) -> (s: String)
    ensures
        s@ == findings_text(*report),
{
    let mut s = decimal_text(report.finding_count);
    s.append(" finding(s); ");
    s.append(decimal_text(report.findings.len() as u64).as_str());
    s.append(" detailed finding(s) retained; ");
    s.append(decimal_text(report.omitted_findings).as_str());
    s.append(" omitted.");
    s
}

fn finding_line(finding: &VerificationFinding) -> (s: String)
    ensures
        s@ == finding_text(*finding),
{
    let mut s = "• ".to_owned();
    s.append(finding.name.as_str());
    s.append(": ");
    s.append(finding.message.as_str());
    s
}

/// Shows a report line by line.
pub fn verification_report_view(report: &FullVerificationReport) -> (lines: Vec<String>)
    ensures
        text_views(lines@) == report_lines(*report),
{
    let mut lines: Vec<String> = Vec::new();
    lines.push(coverage_line(report));
    lines.push(
        (if report.verified_since_capture {
            "Complete: the stable captured library is internally verified since capture. This is an integrity result, not proof that its content is true."
        } else {
            "Full verification did not establish complete clean coverage. Review the findings below before trusting or refreshing an anchor."
        }).to_owned(),
    );
    lines.push(findings_line(report));
    let ghost opening = seq![coverage_text(*report), verdict_text(*report), findings_text(*report)];
    proof {
        assert(text_views(lines@) =~= opening);
    }
    if report.trusted_head_authenticated || anchor_named(&report.findings) {
        lines.push(
            (if report.authenticated_against_trusted_head {
                "External anchor authenticated: its Ed25519 signature is valid and its exact manifest head matches this fully verified library."
            } else {
                "External anchor did not authenticate this library. Do not replace or refresh it until the mismatch or invalid signature is understood."
            }).to_owned(),
        );
    }
    let ghost head = opening + anchor_lines(*report);
    proof {
        assert(text_views(lines@) =~= head);
    }
    let count: usize = if report.findings.len() < SHOWN_FINDINGS {
        report.findings.len()
    } else {
        SHOWN_FINDINGS
    };
    let ghost shown = finding_lines(report.findings@);
    let mut i: usize = 0;
    proof {
        assert(text_views(lines@) =~= head + shown.take(0));
    }
    while i < count
        invariant
            i <= count <= report.findings@.len(),
            shown.len() == count,
            shown == finding_lines(report.findings@),
            forall|k: int|
                0 <= k < count ==> shown[k] == finding_text(#[trigger] report.findings@[k]),
            text_views(lines@) == head + shown.take(i as int),
        decreases count - i,
    {
        let ghost before = lines@;
        lines.push(finding_line(&report.findings[i]));
        proof {
            assert(shown[i as int] == finding_text(report.findings@[i as int]));
            assert(text_views(lines@) =~= text_views(before).push(shown[i as int]));
            assert(head + shown.take(i + 1) =~= (head + shown.take(i as int)).push(
                shown[i as int],
            ));
        }
        i = i + 1;
    }
    proof {
        assert(shown.take(count as int) =~= shown);
    }
    lines
}

/// Shows where a verification stands.
pub fn verification_view(state: &VerificationState) -> (lines: Vec<String>)
    ensures
        text_views(lines@) == verification_lines(*state),
{
    let line = match state {
        VerificationState::NotRun => "No read verification has run in this session.".to_owned(),
        VerificationState::Running(kind) => match kind {
            VerificationKind::Local =>
                "Reading and hash-verifying the full library, manifest chain, and metadata references…".to_owned(),
            VerificationKind::TrustedHead =>
                "Running full verification and comparing the manifest-chain head with the external Ed25519 anchor…".to_owned(),
            VerificationKind::AnchorRefresh =>
                "Signing the observed head in memory, then running full authenticated verification before publishing the external anchor…".to_owned(),
        },
        VerificationState::Complete(report) => return verification_report_view(report),
        VerificationState::Failed(error) => {
            let mut line = "Verification stopped: ".to_owned();
            line.append(error.as_str());
            line
        },
    };
    let mut lines: Vec<String> = Vec::new();
    lines.push(line);
    proof {
        assert(text_views(lines@) =~= verification_lines(*state));
    }
    lines
}

/// Shows a captured revision.
pub fn revision_row(revision: &RecentRevision) -> (row: RevisionRow)
    ensures
        row@ == revision_shown(*revision),
{
    let mut detail = "Wiki ".to_owned();
    detail.append(decimal_text(revision.wiki_id).as_str());
    detail.append(" · revision ");
    detail.append(decimal_text(revision.revision_id).as_str());
    detail.append(" · ");
    detail.append(revision.timestamp.as_str());
    RevisionRow { title: revision.title.clone(), detail, size: format_bytes(revision.source_size) }
}

/// Shows the contents of a library in numbers.
pub fn overview_view(snapshot: &DashboardSnapshot) -> (panel: OverviewPanel)
    ensures
        panel.collections@ == decimal(snapshot.collections@.len()),
        panel.unique_pages@ == decimal(snapshot.unique_page_count as nat),
        panel.recent_count@ == decimal(snapshot.recent_revisions@.len()),
        panel.library_size@ == match snapshot.storage_usage {
            Ok(usage) => size_text(usage.bytes),
            Err(_) => "Unavailable"@,
        },
        match panel.storage_warning {
            Some(warning) => snapshot.storage_usage is Err && warning@
                == "Storage scan unavailable: "@ + snapshot.storage_usage->Err_0@,
            None => snapshot.storage_usage is Ok,
        },
        revisions_shown(snapshot.recent_revisions@, panel.recent@),
{
    let mut recent: Vec<RevisionRow> = Vec::new();
    let mut i: usize = 0;
    while i < snapshot.recent_revisions.len()
        invariant
            i == recent@.len(),
            i <= snapshot.recent_revisions@.len(),
            forall|k: int|
                0 <= k < i ==> (#[trigger] recent@[k])@ == revision_shown(
                    snapshot.recent_revisions@[k],
                ),
        decreases snapshot.recent_revisions@.len() - i,
    {
        recent.push(revision_row(&snapshot.recent_revisions[i]));
        i = i + 1;
    }
    let storage_warning = match &snapshot.storage_usage {
        Ok(_) => None,
        Err(error) => {
            let mut warning = "Storage scan unavailable: ".to_owned();
            warning.append(error.as_str());
            Some(warning)
        },
    };
    OverviewPanel {
        collections: decimal_text(snapshot.collections.len() as u64),
        unique_pages: decimal_text(snapshot.unique_page_count as u64),
        recent_count: decimal_text(snapshot.recent_revisions.len() as u64),
        library_size: storage_bytes_label(&snapshot.storage_usage),
        storage_warning,
        recent,
    }
}

impl App {
    /// Shows the first screen.
    pub fn setup_view(&self) -> (panel: SetupPanel)
        ensures
            panel.primary == primary_action(self@.path_status),
            panel.primary_enabled == match primary_action(self@.path_status) {
                PrimaryAction::Open => is_idle(self@),
                PrimaryAction::Create => is_idle(self@) && self@.privacy_acknowledged,
                PrimaryAction::Checking => false,
            },
            panel.path_message@ == path_text(self@.path_status),
            panel.progress@ == if is_idle(self@) {
                ""@
            } else {
                "Opening…"@
            },
    {
        let idle: bool = !self.is_busy();
        let (primary, primary_enabled) = match &self.path_status {
            PathStatus::ExistingLibrary => (PrimaryAction::Open, idle),
            PathStatus::NewLibrary => (PrimaryAction::Create, idle && self.privacy_acknowledged),
            _ => (PrimaryAction::Checking, false),
        };
        let path_message = match &self.path_status {
            PathStatus::Checking => "Checking this location…".to_owned(),
            PathStatus::ExistingLibrary =>
                "An existing WikiSyncer library was found at this location.".to_owned(),
            PathStatus::NewLibrary =>
                "A new library will be initialized at this location.".to_owned(),
            PathStatus::Unavailable(error) => {
                let mut message = "This location is unavailable: ".to_owned();
                message.append(error.as_str());
                message
            },
        };
        SetupPanel {
            primary,
            primary_enabled,
            path_message,
            progress: if idle {
                ""
            } else {
                "Opening…"
            },
        }
    }

    /// Shows the frame of the dashboard.
    pub fn dashboard_view(&self) -> (panel: DashboardPanel)
        ensures
            panel.reader_label@ == if self@.reader is Some {
                "Open reader"@
            } else {
                "Start reader"@
            },
            panel.actions_enabled == is_idle(self@),
            panel.status@ == if is_idle(self@) {
                "Offline library"@
            } else {
                "Working…"@
            },
            panel.body == if self@.snapshot is Some {
                DashboardBody::Tab(self@.tab)
            } else {
                DashboardBody::Loading
            },
    {
        DashboardPanel {
            reader_label: if self.reader.is_some() {
                "Open reader"
            } else {
                "Start reader"
            },
            actions_enabled: !self.is_busy(),
            status: if self.is_busy() {
                "Working…"
            } else {
                "Offline library"
            },
            body: if self.snapshot.is_some() {
                DashboardBody::Tab(self.tab)
            } else {
                DashboardBody::Loading
            },
        }
    }

    /// Shows the integrity of a library.
    pub fn integrity_view(&self, snapshot: &DashboardSnapshot) -> (panel: IntegrityPanel)
        ensures
            panel.schema_version@ == decimal(snapshot.schema_version as nat),
            panel.unique_objects@ == decimal(snapshot.recent_unique_object_count as nat),
            panel.files@ == match snapshot.storage_usage {
                Ok(usage) => decimal(usage.files as nat),
                Err(_) => "Unavailable"@,
            },
            text_views(panel.result@) == verification_lines(self.verification),
            panel.controls_enabled == (is_idle(self@) && !(self@.verification is Running)),
    {
        IntegrityPanel {
            schema_version: decimal_text(snapshot.schema_version as u64),
            unique_objects: decimal_text(snapshot.recent_unique_object_count as u64),
            files: storage_files_label(&snapshot.storage_usage),
            result: verification_view(&self.verification),
            controls_enabled: !self.is_busy() && !matches!(
                self.verification,
                VerificationState::Running(_)
            ),
        }
    }
}

/// The first screen offers to open what exists and to create what does not, never both, while
/// nothing runs; a new library also needs the acknowledgement.
pub proof fn law_first_screen_offers_what_is_possible(app: App, panel: SetupPanel)
    requires
        call_ensures(App::setup_view, (&app,), panel),
    ensures
        panel.primary == PrimaryAction::Open <==> app.path_status is ExistingLibrary,
        panel.primary == PrimaryAction::Create <==> app.path_status is NewLibrary,
        panel.primary_enabled && panel.primary == PrimaryAction::Open <==> app.path_status
            is ExistingLibrary && app.active_request is None,
        panel.primary_enabled && panel.primary == PrimaryAction::Create <==> app.path_status
            is NewLibrary && app.active_request is None && app.privacy_acknowledged,
        panel.primary == PrimaryAction::Checking ==> !panel.primary_enabled,
        app.path_status matches PathStatus::Unavailable(error) ==> panel.path_message@
            == "This location is unavailable: "@ + error@,
{
}

/// The dashboard allows actions exactly while nothing runs, and shows the chosen tab exactly
/// once a library was read.
pub proof fn law_dashboard_shows_where_things_stand(app: App, panel: DashboardPanel)
    requires
        call_ensures(App::dashboard_view, (&app,), panel),
    ensures
        panel.actions_enabled <==> app.active_request is None,
        panel.body == DashboardBody::Loading <==> app.snapshot is None,
        app.snapshot is Some ==> panel.body == DashboardBody::Tab(app.tab),
        panel.reader_label@ == if app.reader is Some {
            "Open reader"@
        } else {
            "Start reader"@
        },
        app.active_request is Some ==> panel.status@ == "Working…"@,
        app.active_request is None ==> panel.status@ == "Offline library"@,
{
}

/// A verification can be asked for exactly while nothing runs and none is under way; the numbers
/// are those of the library.
pub proof fn law_integrity_shows_the_library(
    app: App,
    snapshot: DashboardSnapshot,
    panel: IntegrityPanel,
    lines: Vec<String>,
)
    requires
        call_ensures(App::integrity_view, (&app, &snapshot), panel),
        call_ensures(verification_view, (&app.verification,), lines),
    ensures
        panel.controls_enabled <==> app.active_request is None && !(app.verification is Running),
        panel.schema_version@ == decimal(snapshot.schema_version as nat),
        panel.unique_objects@ == decimal(snapshot.recent_unique_object_count as nat),
        snapshot.storage_usage matches Ok(usage) ==> panel.files@ == decimal(usage.files as nat),
        snapshot.storage_usage is Err ==> panel.files@ == "Unavailable"@,
        panel.result@.len() == lines@.len(),
        forall|i: int| 0 <= i < lines@.len() ==> (#[trigger] panel.result@[i])@ == lines@[i]@,
{
    assert(text_views(panel.result@) == text_views(lines@));
    assert(text_views(panel.result@).len() == panel.result@.len());
    assert(text_views(lines@).len() == lines@.len());
    assert forall|i: int| 0 <= i < lines@.len() implies (#[trigger] panel.result@[i])@
        == lines@[i]@ by {
        assert(text_views(panel.result@)[i] == panel.result@[i]@);
        assert(text_views(lines@)[i] == lines@[i]@);
    }
}

/// A report is shown as three lines, one more where an anchor was compared, and one for each of
/// the first eight findings. It reads as complete exactly when everything was verified, and as
/// authenticated exactly when the anchor was.
pub proof fn law_reports_show_their_verdict(report: FullVerificationReport, lines: Vec<String>)
    requires
        call_ensures(verification_report_view, (&report,), lines),
    ensures
        ({
            let compared = report.trusted_head_authenticated || exists|i: int|
                0 <= i < report.findings@.len() && ((#[trigger] report.findings@[i]).kind
                    == FindingKind::TrustedHeadSignatureInvalid || report.findings@[i].kind
                    == FindingKind::TrustedHeadMismatch);
            let start: int = if compared {
                4
            } else {
                3
            };
            let shown: int = if report.findings@.len() < 8 {
                report.findings@.len() as int
            } else {
                8
            };
            &&& lines@.len() == start + shown
            &&& lines@[1]@ == (if report.verified_since_capture {
                "Complete: the stable captured library is internally verified since capture. This is an integrity result, not proof that its content is true."@
            } else {
                "Full verification did not establish complete clean coverage. Review the findings below before trusting or refreshing an anchor."@
            })
            &&& compared ==> lines@[3]@ == (if report.authenticated_against_trusted_head {
                "External anchor authenticated: its Ed25519 signature is valid and its exact manifest head matches this fully verified library."@
            } else {
                "External anchor did not authenticate this library. Do not replace or refresh it until the mismatch or invalid signature is understood."@
            })
            &&& forall|i: int|
                0 <= i < shown ==> (#[trigger] lines@[start + i])@ == "• "@
                    + report.findings@[i].name@ + ": "@ + report.findings@[i].message@
        }),
{
    let views = text_views(lines@);
    assert(views.len() == lines@.len());
    assert(forall|i: int| 0 <= i < lines@.len() ==> #[trigger] views[i] == lines@[i]@);
    assert(lines@[1]@ == views[1]);
    let anchor = anchor_lines(report);
    if anchor.len() > 0 {
        assert(lines@[3]@ == views[3]);
        assert(views[3] == anchor[0]);
    }
    let shown = finding_lines(report.findings@);
    let start = 3 + anchor.len() as int;
    assert forall|i: int| 0 <= i < shown.len() implies (#[trigger] lines@[start + i])@ == "• "@
        + report.findings@[i].name@ + ": "@ + report.findings@[i].message@ by {
        assert(views[start + i] == shown[i]);
        assert(lines@[start + i]@ == views[start + i]);
    }
}

/// A report tells how much of what there was it verified, and how many findings it has.
pub proof fn law_reports_show_their_counts(report: FullVerificationReport, lines: Vec<String>)
    requires
        call_ensures(verification_report_view, (&report,), lines),
    ensures
        lines@.len() >= 3,
        lines@[0]@ == "Verified "@ + decimal(report.objects_verified as nat) + " of "@ + decimal(
            report.objects_at_start as nat,
        ) + " logical objects ("@ + decimal(report.canonical_bytes_verified as nat)
            + " canonical bytes), "@ + decimal(report.manifests_identity_verified as nat)
            + " of "@ + decimal(report.manifests_at_start as nat) + " manifests, and "@ + decimal(
            report.metadata_records_examined as nat,
        ) + " metadata references."@,
        lines@[2]@ == decimal(report.finding_count as nat) + " finding(s); "@ + decimal(
            report.findings@.len(),
        ) + " detailed finding(s) retained; "@ + decimal(report.omitted_findings as nat)
            + " omitted."@,
{
    let views = text_views(lines@);
    assert(views.len() == lines@.len());
    assert(views[0] == lines@[0]@);
    assert(views[2] == lines@[2]@);
}

/// A verification that is not complete is one line: that none ran, which one runs, or why it
/// stopped.
pub proof fn law_unfinished_verifications_are_one_line(
    state: VerificationState,
    lines: Vec<String>,
    report: Vec<String>,
)
    requires
        call_ensures(verification_view, (&state,), lines),
        state matches VerificationState::Complete(done) ==> call_ensures(
            verification_report_view,
            (&done,),
            report,
        ),
    ensures
        !(state is Complete) ==> lines@.len() == 1,
        state matches VerificationState::Failed(error) ==> lines@[0]@ == "Verification stopped: "@
            + error@,
        state is NotRun ==> lines@[0]@ == "No read verification has run in this session."@,
        state is Complete ==> text_views(lines@) == text_views(report@),
{
    let views = text_views(lines@);
    assert(views.len() == lines@.len());
    if !(state is Complete) {
        assert(views[0] == lines@[0]@);
    }
}

/// The overview counts what was read, and every recent revision is shown under its own title.
pub proof fn law_overview_counts_what_was_read(snapshot: DashboardSnapshot, panel: OverviewPanel)
    requires
        call_ensures(overview_view, (&snapshot,), panel),
    ensures
        panel.collections@ == decimal(snapshot.collections@.len()),
        panel.unique_pages@ == decimal(snapshot.unique_page_count as nat),
        panel.recent_count@ == decimal(snapshot.recent_revisions@.len()),
        panel.storage_warning is Some <==> snapshot.storage_usage is Err,
        panel.recent@.len() == snapshot.recent_revisions@.len(),
        forall|i: int|
            0 <= i < panel.recent@.len() ==> {
                let shown = #[trigger] panel.recent@[i];
                let read = snapshot.recent_revisions@[i];
                &&& shown.title@ == read.title@
                &&& shown.detail@ == "Wiki "@ + decimal(read.wiki_id as nat) + " · revision "@
                    + decimal(read.revision_id as nat) + " · "@ + read.timestamp@
                &&& shown.size@ == size_text(read.source_size)
            },
{
    assert forall|i: int| 0 <= i < panel.recent@.len() implies {
        let shown = #[trigger] panel.recent@[i];
        let read = snapshot.recent_revisions@[i];
        &&& shown.title@ == read.title@
        &&& shown.detail@ == "Wiki "@ + decimal(read.wiki_id as nat) + " · revision "@ + decimal(
            read.revision_id as nat,
        ) + " · "@ + read.timestamp@
        &&& shown.size@ == size_text(read.source_size)
    } by {
        assert(panel.recent@[i]@ == revision_shown(snapshot.recent_revisions@[i]));
    }
}

} // verus!
