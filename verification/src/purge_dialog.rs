//! The dialog in which people confirm a permanent payload purge.

use vstd::prelude::*;
use vstd::string::*;

use crate::labels::{format_bytes, format_signed_bytes, signed_size_text, size_text};
use crate::model::CollectionId;
use crate::purge::{
    CollectionPurgeOutcome, CollectionPurgeRequest, PurgeJournalState, PurgeRequestView,
};
use crate::text::{
    decimal, decimal_text, holds_text, lemma_neighbours, lemma_strung, same_text, strung,
};

verus! {

/// A read-only preview of what a purge would remove.
#[derive(Debug, PartialEq, Eq)]
pub struct PurgePreview {
    pub collection_id: CollectionId,
    pub collection_name: String,
    pub fingerprint: String,
    pub catalog_fingerprint: String,
    pub object_count: u64,
    pub wikitext_object_count: u64,
    pub media_object_count: u64,
    pub logical_bytes: u64,
    pub reclaimable_bytes: u64,
    pub loose_object_count: u64,
    pub affected_pack_count: u64,
    pub whole_pack_count: u64,
    pub mixed_pack_count: u64,
}

/// A purge that waits for its confirmations.
#[derive(Debug, PartialEq, Eq)]
pub struct CollectionPurgeDialog {
    pub collection_id: CollectionId,
    pub preview: Option<PurgePreview>,
    pub typed_name: String,
    pub typed_fingerprint: String,
    pub payload_only_acknowledged: bool,
    pub external_copies_acknowledged: bool,
}

/// Plain view of a purge dialog.
pub struct PurgeDialogView {
    pub collection_id: u64,
    pub preview: Option<PurgePreview>,
    pub typed_name: Seq<char>,
    pub typed_fingerprint: Seq<char>,
    pub payload_only_acknowledged: bool,
    pub external_copies_acknowledged: bool,
}

impl View for CollectionPurgeDialog {
    type V = PurgeDialogView;

    open spec fn view(&self) -> PurgeDialogView {
        PurgeDialogView {
            collection_id: self.collection_id@,
            preview: self.preview,
            typed_name: self.typed_name@,
            typed_fingerprint: self.typed_fingerprint@,
            payload_only_acknowledged: self.payload_only_acknowledged,
            external_copies_acknowledged: self.external_copies_acknowledged,
        }
    }
}

/// No confirmation has been given.
pub open spec fn unconfirmed(dialog: PurgeDialogView) -> bool {
    &&& dialog.typed_name == Seq::<char>::empty()
    &&& dialog.typed_fingerprint == Seq::<char>::empty()
    &&& !dialog.payload_only_acknowledged
    &&& !dialog.external_copies_acknowledged
}

/// Both texts were typed exactly and both consequences were acknowledged.
pub open spec fn confirmed(dialog: PurgeDialogView) -> bool {
    dialog.preview matches Some(preview) && dialog.typed_name == preview.collection_name@
        && dialog.typed_fingerprint == preview.fingerprint@ && dialog.payload_only_acknowledged
        && dialog.external_copies_acknowledged
}

/// The request of a confirmed dialog.
pub open spec fn purge_confirmation(dialog: PurgeDialogView) -> Option<PurgeRequestView> {
    match dialog.preview {
        Some(preview) => if confirmed(dialog) {
            Some(
                PurgeRequestView {
                    collection_id: preview.collection_id@,
                    collection_name: preview.collection_name@,
                    preview_fingerprint: preview.fingerprint@,
                    payload_only_acknowledged: true,
                    external_copies_not_erased_acknowledged: true,
                },
            )
        } else {
            None
        },
        None => None,
    }
}

/// What is shown of a purge dialog.
#[derive(Debug, PartialEq, Eq)]
pub enum PurgePanel {
    /// The preview is still being computed.
    Computing { title: String },
    /// The preview, line by line, and whether the purge may be started.
    Ready { lines: Vec<String>, confirm_enabled: bool },
}

/// The lines of a preview.
pub open spec fn preview_lines(preview: PurgePreview) -> Seq<Seq<char>> {
    seq![
        "Exact collection name: "@ + preview.collection_name@,
        "Exact preview fingerprint: "@ + preview.fingerprint@,
        "Catalog fingerprint: "@ + preview.catalog_fingerprint@,
        "Objects: "@ + decimal(preview.object_count as nat) + " total · "@ + decimal(
            preview.wikitext_object_count as nat,
        ) + " wikitext · "@ + decimal(preview.media_object_count as nat) + " media"@,
        "Logical payload: "@ + size_text(preview.logical_bytes) + " · estimated reclaimable: "@
            + size_text(preview.reclaimable_bytes),
        "Storage layout: "@ + decimal(preview.loose_object_count as nat) + " loose objects · "@
            + decimal(preview.affected_pack_count as nat) + " affected packs · "@ + decimal(
            preview.whole_pack_count as nat,
        ) + " whole packs · "@ + decimal(preview.mixed_pack_count as nat) + " mixed packs"@,
    ]
}

/// A panel shows a dialog.
pub open spec fn purge_shown(dialog: PurgeDialogView, enabled: bool, panel: PurgePanel) -> bool {
    match (dialog.preview, panel) {
        (None, PurgePanel::Computing { title }) => title@
            == "Read-only payload purge preview · collection "@ + decimal(
            dialog.collection_id as nat,
        ),
        (Some(preview), PurgePanel::Ready { lines, confirm_enabled }) => text_views(lines@)
            == preview_lines(preview) && confirm_enabled == (enabled && confirmed(dialog)),
        _ => false,
    }
}

/// Texts as plain data.
pub open spec fn text_views(texts: Seq<String>) -> Seq<Seq<char>> {
    texts.map_values(|text: String| text@)
}

fn labelled(label: &str, value: &str) -> (line: String)
    ensures
        line@ == label@ + value@,
{
    let mut line = label.to_owned();
    line.append(value);
    line
}

impl CollectionPurgeDialog {
    /// Opens the dialog of a collection without a preview.
    pub fn new(collection_id: CollectionId) -> (dialog: CollectionPurgeDialog)
        ensures
            dialog.collection_id == collection_id,
            dialog.preview is None,
            unconfirmed(dialog@),
    {
        CollectionPurgeDialog {
            collection_id,
            preview: None,
            typed_name: String::new(),
            typed_fingerprint: String::new(),
            payload_only_acknowledged: false,
            external_copies_acknowledged: false,
        }
    }

    /// Shows a preview; what was confirmed of an earlier one no longer counts.
    pub fn install_preview(&mut self, preview: PurgePreview)
        ensures
            final(self).collection_id == old(self).collection_id,
            final(self).preview == Some(preview),
            unconfirmed(final(self)@),
    {
        self.clear_confirmations();
        self.preview = Some(preview);
    }

    /// Forgets every confirmation.
    pub fn clear_confirmations(&mut self)
        ensures
            final(self).collection_id == old(self).collection_id,
            final(self).preview == old(self).preview,
            unconfirmed(final(self)@),
    {
        self.typed_name = String::new();
        self.typed_fingerprint = String::new();
        self.payload_only_acknowledged = false;
        self.external_copies_acknowledged = false;
    }

    /// Whether every confirmation matches the preview.
    pub fn is_confirmed(&self) -> (b: bool)
        ensures
            b == confirmed(self@),
    {
        match &self.preview {
            Some(preview) => same_text(self.typed_name.as_str(), preview.collection_name.as_str())
                && same_text(self.typed_fingerprint.as_str(), preview.fingerprint.as_str())
                && self.payload_only_acknowledged && self.external_copies_acknowledged,
            None => false,
        }
    }

    /// The request that the confirmations authorize, where they do.
    pub fn confirmed_request(&self) -> (request: Option<CollectionPurgeRequest>)
        ensures
            match request {
                Some(request) => purge_confirmation(self@) == Some(request@),
                None => purge_confirmation(self@) is None,
            },
    {
        let confirmed: bool = self.is_confirmed();
        match &self.preview {
            Some(preview) => if confirmed {
                Some(
                    CollectionPurgeRequest {
                        collection_id: preview.collection_id,
                        collection_name: self.typed_name.clone(),
                        preview_fingerprint: self.typed_fingerprint.clone(),
                        payload_only_acknowledged: self.payload_only_acknowledged,
                        external_copies_not_erased_acknowledged: self.external_copies_acknowledged,
                    },
                )
            } else {
                None
            },
            None => None,
        }
    }

    /// What to show; nothing may be started while other work runs.
    pub fn collection_purge_view(&self, enabled: bool) -> (panel: PurgePanel)
        ensures
            purge_shown(self@, enabled, panel),
    {
        let confirmed: bool = self.is_confirmed();
        match &self.preview {
            None => PurgePanel::Computing {
                title: labelled(
                    "Read-only payload purge preview · collection ",
                    decimal_text(self.collection_id.get()).as_str(),
                ),
            },
            Some(preview) => {
                let mut lines: Vec<String> = Vec::new();
                lines.push(labelled("Exact collection name: ", preview.collection_name.as_str()));
                lines.push(labelled("Exact preview fingerprint: ", preview.fingerprint.as_str()));
                lines.push(labelled("Catalog fingerprint: ", preview.catalog_fingerprint.as_str()));
                let mut line = labelled("Objects: ", decimal_text(preview.object_count).as_str());
                line.append(" total · ");
                line.append(decimal_text(preview.wikitext_object_count).as_str());
                line.append(" wikitext · ");
                line.append(decimal_text(preview.media_object_count).as_str());
                line.append(" media");
                lines.push(line);
                let mut line = labelled(
                    "Logical payload: ",
                    format_bytes(preview.logical_bytes).as_str(),
                );
                line.append(" · estimated reclaimable: ");
                line.append(format_bytes(preview.reclaimable_bytes).as_str());
                lines.push(line);
                let mut line = labelled(
                    "Storage layout: ",
                    decimal_text(preview.loose_object_count).as_str(),
                );
                line.append(" loose objects · ");
                line.append(decimal_text(preview.affected_pack_count).as_str());
                line.append(" affected packs · ");
                line.append(decimal_text(preview.whole_pack_count).as_str());
                line.append(" whole packs · ");
                line.append(decimal_text(preview.mixed_pack_count).as_str());
                line.append(" mixed packs");
                lines.push(line);
                proof {
                    assert(text_views(lines@) =~= preview_lines(*preview));
                }
                PurgePanel::Ready { lines, confirm_enabled: enabled && confirmed }
            },
        }
    }
}

/// The name of a journal state.
pub open spec fn state_name(state: PurgeJournalState) -> Seq<char> {
    match state {
        PurgeJournalState::Authorized => "Authorized"@,
        PurgeJournalState::Repacking => "Repacking"@,
        PurgeJournalState::Cleaning => "Cleaning"@,
        PurgeJournalState::Succeeded => "Succeeded"@,
        PurgeJournalState::Failed => "Failed"@,
    }
}

fn journal_state_name(state: PurgeJournalState) -> (name: &'static str)
    ensures
        name@ == state_name(state),
{
    match state {
        PurgeJournalState::Authorized => "Authorized",
        PurgeJournalState::Repacking => "Repacking",
        PurgeJournalState::Cleaning => "Cleaning",
        PurgeJournalState::Succeeded => "Succeeded",
        PurgeJournalState::Failed => "Failed",
    }
}

/// Refuses a receipt that does not report durable success.
pub fn ensure_completed_purge_outcome(outcome: &CollectionPurgeOutcome) -> (r: Result<(), String>)
    ensures
        match r {
            Ok(()) => outcome.progress.state == PurgeJournalState::Succeeded,
            Err(message) => outcome.progress.state != PurgeJournalState::Succeeded && message@
                == "Purge "@ + decimal(outcome.purge_id as nat)
                + " returned without a durable succeeded state ("@ + state_name(
                outcome.progress.state,
            ) + ")."@,
        },
{
    if outcome.progress.state == PurgeJournalState::Succeeded {
        return Ok(());
    }
    let mut message = labelled("Purge ", decimal_text(outcome.purge_id).as_str());
    message.append(" returned without a durable succeeded state (");
    message.append(journal_state_name(outcome.progress.state));
    message.append(").");
    Err(message)
}

/// What is shown of a finished purge.
pub open spec fn outcome_summary(outcome: CollectionPurgeOutcome) -> Seq<char> {
    "Purge "@ + decimal(outcome.purge_id as nat) + " completed durably: "@ + decimal(
        outcome.progress.retired_file_count as nat,
    ) + " files / "@ + size_text(outcome.progress.retired_file_bytes) + " retired, "@ + size_text(
        outcome.progress.replacement_file_bytes,
    ) + " replacement bytes written, "@ + signed_size_text(
        outcome.progress.net_reclaimed_file_bytes,
    ) + " net bytes reclaimed, and "@ + decimal(outcome.progress.retired_pack_count as nat)
        + " packs retired. Audit metadata and hashes remain."@
}

/// Describes a finished purge.
pub fn purge_outcome_summary(outcome: &CollectionPurgeOutcome) -> (s: String)
    ensures
        s@ == outcome_summary(*outcome),
{
    let mut s = labelled("Purge ", decimal_text(outcome.purge_id).as_str());
    s.append(" completed durably: ");
    s.append(decimal_text(outcome.progress.retired_file_count).as_str());
    s.append(" files / ");
    s.append(format_bytes(outcome.progress.retired_file_bytes).as_str());
    s.append(" retired, ");
    s.append(format_bytes(outcome.progress.replacement_file_bytes).as_str());
    s.append(" replacement bytes written, ");
    s.append(format_signed_bytes(outcome.progress.net_reclaimed_file_bytes).as_str());
    s.append(" net bytes reclaimed, and ");
    s.append(decimal_text(outcome.progress.retired_pack_count).as_str());
    s.append(" packs retired. Audit metadata and hashes remain.");
    s
}

/// Only a dialog with a preview, both exact texts and both acknowledgements authorizes a
/// purge, and what it authorizes repeats the preview.
pub proof fn law_purge_needs_every_confirmation(dialog: PurgeDialogView)
    ensures
        purge_confirmation(dialog) is Some <==> confirmed(dialog),
        unconfirmed(dialog) ==> purge_confirmation(dialog) is None,
        purge_confirmation(dialog) matches Some(request) ==> dialog.preview matches Some(preview)
            && request.collection_id == preview.collection_id@ && request.collection_name
            == preview.collection_name@ && request.preview_fingerprint == preview.fingerprint@,
{
}

/// A purge may be confirmed exactly when there is a preview, its collection name and its
/// fingerprint were typed to the letter, and both consequences were acknowledged; while other
/// work runs it cannot be started.
pub proof fn law_confirmation_is_exact(
    dialog: CollectionPurgeDialog,
    enabled: bool,
    confirmed: bool,
    request: Option<CollectionPurgeRequest>,
    panel: PurgePanel,
)
    requires
        call_ensures(CollectionPurgeDialog::is_confirmed, (&dialog,), confirmed),
        call_ensures(CollectionPurgeDialog::confirmed_request, (&dialog,), request),
        call_ensures(CollectionPurgeDialog::collection_purge_view, (&dialog, enabled), panel),
    ensures
        confirmed <==> (dialog.preview matches Some(preview) && dialog.typed_name@
            == preview.collection_name@ && dialog.typed_fingerprint@ == preview.fingerprint@
            && dialog.payload_only_acknowledged && dialog.external_copies_acknowledged),
        request is Some <==> confirmed,
        request matches Some(request) ==> request@.collection_id
            == dialog.preview->0.collection_id@ && request@.collection_name == dialog.typed_name@
            && request@.preview_fingerprint == dialog.typed_fingerprint@
            && request@.payload_only_acknowledged
            && request@.external_copies_not_erased_acknowledged,
        panel matches PurgePanel::Ready { lines, confirm_enabled } ==> confirm_enabled == (enabled
            && confirmed),
        panel is Ready <==> dialog.preview is Some,
{
}

/// Only a purge whose journal says that it succeeded is taken for done.
pub proof fn law_only_a_succeeded_purge_is_done(
    outcome: CollectionPurgeOutcome,
    r: Result<(), String>,
)
    requires
        call_ensures(ensure_completed_purge_outcome, (&outcome,), r),
    ensures
        r is Ok <==> outcome.progress.state == PurgeJournalState::Succeeded,
{
}

/// The summary of a purge tells what was retired, rewritten and reclaimed.
pub proof fn law_purge_summary_names_each_count(outcome: CollectionPurgeOutcome)
    ensures
        holds_text(outcome_summary(outcome), "Purge "@ + decimal(outcome.purge_id as nat) + " completed durably: "@),
        holds_text(outcome_summary(outcome), " completed durably: "@ + decimal(outcome.progress.retired_file_count as nat) + " files / "@),
        holds_text(outcome_summary(outcome), " files / "@ + size_text(outcome.progress.retired_file_bytes) + " retired, "@),
        holds_text(outcome_summary(outcome), " retired, "@ + size_text(outcome.progress.replacement_file_bytes) + " replacement bytes written, "@),
        holds_text(outcome_summary(outcome), " replacement bytes written, "@ + signed_size_text(outcome.progress.net_reclaimed_file_bytes) + " net bytes reclaimed, and "@),
        holds_text(outcome_summary(outcome), " net bytes reclaimed, and "@ + decimal(outcome.progress.retired_pack_count as nat) + " packs retired. Audit metadata and hashes remain."@),
{
    lemma_strung();
    let parts0 = Seq::<Seq<char>>::empty();
    let parts1 = parts0.push("Purge "@);
    let parts2 = parts1.push(decimal(outcome.purge_id as nat));
    let parts3 = parts2.push(" completed durably: "@);
    let parts4 = parts3.push(decimal(outcome.progress.retired_file_count as nat));
    let parts5 = parts4.push(" files / "@);
    let parts6 = parts5.push(size_text(outcome.progress.retired_file_bytes));
    let parts7 = parts6.push(" retired, "@);
    let parts8 = parts7.push(size_text(outcome.progress.replacement_file_bytes));
    let parts9 = parts8.push(" replacement bytes written, "@);
    let parts10 = parts9.push(signed_size_text(outcome.progress.net_reclaimed_file_bytes));
    let parts11 = parts10.push(" net bytes reclaimed, and "@);
    let parts12 = parts11.push(decimal(outcome.progress.retired_pack_count as nat));
    let parts13 = parts12.push(" packs retired. Audit metadata and hashes remain."@);
    let parts = parts13;
    assert(strung(parts) == outcome_summary(outcome));
    lemma_neighbours(parts, 0);
    lemma_neighbours(parts, 2);
    lemma_neighbours(parts, 4);
    lemma_neighbours(parts, 6);
    lemma_neighbours(parts, 8);
    lemma_neighbours(parts, 10);
}

/// A purge preview tells its objects by kind.
pub proof fn law_purge_preview_counts_objects(preview: PurgePreview)
    ensures
        holds_text(preview_lines(preview)[3], "Objects: "@ + decimal(preview.object_count as nat) + " total · "@),
        holds_text(preview_lines(preview)[3], " total · "@ + decimal(preview.wikitext_object_count as nat) + " wikitext · "@),
        holds_text(preview_lines(preview)[3], " wikitext · "@ + decimal(preview.media_object_count as nat) + " media"@),
{
    lemma_strung();
    let parts0 = Seq::<Seq<char>>::empty();
    let parts1 = parts0.push("Objects: "@);
    let parts2 = parts1.push(decimal(preview.object_count as nat));
    let parts3 = parts2.push(" total · "@);
    let parts4 = parts3.push(decimal(preview.wikitext_object_count as nat));
    let parts5 = parts4.push(" wikitext · "@);
    let parts6 = parts5.push(decimal(preview.media_object_count as nat));
    let parts7 = parts6.push(" media"@);
    let parts = parts7;
    assert(strung(parts) == preview_lines(preview)[3]);
    lemma_neighbours(parts, 0);
    lemma_neighbours(parts, 2);
    lemma_neighbours(parts, 4);
}

/// A purge preview tells what its files hold and how they are laid out.
pub proof fn law_purge_preview_counts_files(preview: PurgePreview)
    ensures
        holds_text(preview_lines(preview)[5], "Storage layout: "@ + decimal(preview.loose_object_count as nat) + " loose objects · "@),
        holds_text(preview_lines(preview)[5], " loose objects · "@ + decimal(preview.affected_pack_count as nat) + " affected packs · "@),
        holds_text(preview_lines(preview)[5], " affected packs · "@ + decimal(preview.whole_pack_count as nat) + " whole packs · "@),
        holds_text(preview_lines(preview)[5], " whole packs · "@ + decimal(preview.mixed_pack_count as nat) + " mixed packs"@),
{
    lemma_strung();
    let parts0 = Seq::<Seq<char>>::empty();
    let parts1 = parts0.push("Storage layout: "@);
    let parts2 = parts1.push(decimal(preview.loose_object_count as nat));
    let parts3 = parts2.push(" loose objects · "@);
    let parts4 = parts3.push(decimal(preview.affected_pack_count as nat));
    let parts5 = parts4.push(" affected packs · "@);
    let parts6 = parts5.push(decimal(preview.whole_pack_count as nat));
    let parts7 = parts6.push(" whole packs · "@);
    let parts8 = parts7.push(decimal(preview.mixed_pack_count as nat));
    let parts9 = parts8.push(" mixed packs"@);
    let parts = parts9;
    assert(strung(parts) == preview_lines(preview)[5]);
    lemma_neighbours(parts, 0);
    lemma_neighbours(parts, 2);
    lemma_neighbours(parts, 4);
    lemma_neighbours(parts, 6);
}

/// A purge preview shows the name and the fingerprints to be confirmed, and both sizes.
pub proof fn law_purge_preview_shows_what_is_confirmed(preview: PurgePreview)
    ensures
        preview_lines(preview).len() == 6,
        preview_lines(preview)[0] == "Exact collection name: "@ + preview.collection_name@,
        preview_lines(preview)[1] == "Exact preview fingerprint: "@ + preview.fingerprint@,
        preview_lines(preview)[2] == "Catalog fingerprint: "@ + preview.catalog_fingerprint@,
        preview_lines(preview)[4] == "Logical payload: "@ + size_text(preview.logical_bytes)
            + " · estimated reclaimable: "@ + size_text(preview.reclaimable_bytes),
{
}

/// A newly shown preview and cleared confirmations leave nothing confirmed; the dialog stays
/// that of its collection.
pub proof fn law_a_new_preview_is_unconfirmed(preview: PurgePreview)
    ensures
        forall|dialog: &mut CollectionPurgeDialog, nothing: ()| #[trigger]
            call_ensures(CollectionPurgeDialog::install_preview, (dialog, preview), nothing) ==> {
                &&& (*final(dialog)).collection_id == (*dialog).collection_id
                &&& (*final(dialog)).preview == Some(preview)
                &&& (*final(dialog)).typed_name@.len() == 0
                &&& (*final(dialog)).typed_fingerprint@.len() == 0
                &&& !(*final(dialog)).payload_only_acknowledged
                &&& !(*final(dialog)).external_copies_acknowledged
            },
        forall|dialog: &mut CollectionPurgeDialog, nothing: ()| #[trigger]
            call_ensures(CollectionPurgeDialog::clear_confirmations, (dialog,), nothing) ==> {
                &&& (*final(dialog)).collection_id == (*dialog).collection_id
                &&& (*final(dialog)).preview == (*dialog).preview
                &&& (*final(dialog)).typed_name@.len() == 0
                &&& (*final(dialog)).typed_fingerprint@.len() == 0
                &&& !(*final(dialog)).payload_only_acknowledged
                &&& !(*final(dialog)).external_copies_acknowledged
            },
{
}

/// A dialog without a preview says that it is being computed, and for which collection. One with
/// a preview can be confirmed only while nothing else runs, once everything was typed and
/// acknowledged.
pub proof fn law_dialog_shows_how_far_it_is(
    dialog: CollectionPurgeDialog,
    enabled: bool,
    panel: PurgePanel,
)
    requires
        call_ensures(CollectionPurgeDialog::collection_purge_view, (&dialog, enabled), panel),
    ensures
        dialog@.preview is None ==> (panel matches PurgePanel::Computing { title } && title@
            == "Read-only payload purge preview · collection "@ + decimal(
            dialog@.collection_id as nat,
        )),
        dialog@.preview matches Some(preview) ==> (panel matches PurgePanel::Ready {
            lines,
            confirm_enabled,
        } && lines@.len() == 6 && (confirm_enabled <==> enabled && dialog@.typed_name
            == preview.collection_name@ && dialog@.typed_fingerprint == preview.fingerprint@
            && dialog@.payload_only_acknowledged && dialog@.external_copies_acknowledged)),
{
    if let PurgePanel::Ready { lines, confirm_enabled } = panel {
        assert(text_views(lines@).len() == lines@.len());
    }
}

} // verus!
