//! The form in which people state a bootstrap from a current dump.

use vstd::prelude::*;
use vstd::string::*;

use crate::dump_bootstrap::{
    default_acquisition, default_parser, dump_request_error, hex_digest, CurrentDumpBootstrapPreview,
    CurrentDumpBootstrapRequest, DumpAcquisitionLimits, DumpDigest, DumpLimits, DumpPreviewView,
    DumpRequestView, TrustedDumpIndex,
};
use crate::error::OperationError;
use crate::forms::Stated;
use crate::model::{BudgetView, CollectionBudget, CollectionId, HistoryPolicy, HistoryView, WikiId};
use crate::stored::{ConfigurationView, StoredCollectionConfiguration};
use crate::text::{decimal, decimal_text, parse_unsigned, trim, trimmed, unsigned_value};

verus! {

/// What is asked of the digest that authenticates a dump.
pub const INDEPENDENT_ANCHOR_NOTICE: &'static str =
    "Enter a BLAKE3 digest retained through an independent trusted channel. A legacy checksum downloaded beside the dump index is not an independent trust anchor.";

/// A bootstrap as people state it.
#[derive(Debug, PartialEq, Eq)]
pub struct DumpBootstrapForm {
    pub collection_id: String,
    pub trusted_index_url: String,
    pub trusted_index_digest: String,
    pub expected_database: String,
    pub max_index_bytes: String,
    pub max_artifact_bytes: String,
    pub max_total_artifact_bytes: String,
    pub max_artifacts: String,
    pub max_elapsed_seconds: String,
    pub max_compressed_bytes: String,
    pub max_decompressed_bytes: String,
    pub max_pages: String,
    pub max_page_xml_bytes: String,
    pub max_text_bytes: String,
}

/// Plain view of a bootstrap form.
pub struct DumpFormView {
    pub collection_id: Seq<char>,
    pub trusted_index_url: Seq<char>,
    pub trusted_index_digest: Seq<char>,
    pub expected_database: Seq<char>,
    pub max_index_bytes: Seq<char>,
    pub max_artifact_bytes: Seq<char>,
    pub max_total_artifact_bytes: Seq<char>,
    pub max_artifacts: Seq<char>,
    pub max_elapsed_seconds: Seq<char>,
    pub max_compressed_bytes: Seq<char>,
    pub max_decompressed_bytes: Seq<char>,
    pub max_pages: Seq<char>,
    pub max_page_xml_bytes: Seq<char>,
    pub max_text_bytes: Seq<char>,
}

impl View for DumpBootstrapForm {
    type V = DumpFormView;

    open spec fn view(&self) -> DumpFormView {
        DumpFormView {
            collection_id: self.collection_id@,
            trusted_index_url: self.trusted_index_url@,
            trusted_index_digest: self.trusted_index_digest@,
            expected_database: self.expected_database@,
            max_index_bytes: self.max_index_bytes@,
            max_artifact_bytes: self.max_artifact_bytes@,
            max_total_artifact_bytes: self.max_total_artifact_bytes@,
            max_artifacts: self.max_artifacts@,
            max_elapsed_seconds: self.max_elapsed_seconds@,
            max_compressed_bytes: self.max_compressed_bytes@,
            max_decompressed_bytes: self.max_decompressed_bytes@,
            max_pages: self.max_pages@,
            max_page_xml_bytes: self.max_page_xml_bytes@,
            max_text_bytes: self.max_text_bytes@,
        }
    }
}

impl Clone for DumpBootstrapForm {
    fn clone(&self) -> (copy: Self)
        ensures
            copy@ == self@,
    {
        DumpBootstrapForm {
            collection_id: self.collection_id.clone(),
            trusted_index_url: self.trusted_index_url.clone(),
            trusted_index_digest: self.trusted_index_digest.clone(),
            expected_database: self.expected_database.clone(),
            max_index_bytes: self.max_index_bytes.clone(),
            max_artifact_bytes: self.max_artifact_bytes.clone(),
            max_total_artifact_bytes: self.max_total_artifact_bytes.clone(),
            max_artifacts: self.max_artifacts.clone(),
            max_elapsed_seconds: self.max_elapsed_seconds.clone(),
            max_compressed_bytes: self.max_compressed_bytes.clone(),
            max_decompressed_bytes: self.max_decompressed_bytes.clone(),
            max_pages: self.max_pages.clone(),
            max_page_xml_bytes: self.max_page_xml_bytes.clone(),
            max_text_bytes: self.max_text_bytes.clone(),
        }
    }
}

/// The form before anything was typed.
pub open spec fn blank_dump_form(
    acquisition: DumpAcquisitionLimits,
    parser: DumpLimits,
) -> DumpFormView {
    DumpFormView {
        collection_id: ""@,
        trusted_index_url: ""@,
        trusted_index_digest: ""@,
        expected_database: "enwiki"@,
        max_index_bytes: decimal(acquisition.max_index_bytes as nat),
        max_artifact_bytes: decimal(acquisition.max_artifact_bytes as nat),
        max_total_artifact_bytes: decimal(
            if acquisition.max_total_artifact_bytes <= parser.max_compressed_bytes {
                acquisition.max_total_artifact_bytes as nat
            } else {
                parser.max_compressed_bytes as nat
            },
        ),
        max_artifacts: decimal(acquisition.max_artifacts as nat),
        max_elapsed_seconds: decimal(acquisition.max_elapsed_seconds as nat),
        max_compressed_bytes: decimal(parser.max_compressed_bytes as nat),
        max_decompressed_bytes: decimal(parser.max_decompressed_bytes as nat),
        max_pages: decimal(parser.max_pages as nat),
        max_page_xml_bytes: decimal(parser.max_page_xml_bytes as nat),
        max_text_bytes: decimal(parser.max_text_bytes as nat),
    }
}

impl Default for DumpBootstrapForm {
    fn default() -> (form: Self)
        ensures
            form@ == blank_dump_form(default_acquisition(), default_parser()),
    {
        let acquisition = DumpAcquisitionLimits::default();
        let parser = DumpLimits::default();
        let total: u64 = if acquisition.max_total_artifact_bytes <= parser.max_compressed_bytes {
            acquisition.max_total_artifact_bytes
        } else {
            parser.max_compressed_bytes
        };
        DumpBootstrapForm {
            collection_id: "".to_owned(),
            trusted_index_url: "".to_owned(),
            trusted_index_digest: "".to_owned(),
            expected_database: "enwiki".to_owned(),
            max_index_bytes: decimal_text(acquisition.max_index_bytes as u64),
            max_artifact_bytes: decimal_text(acquisition.max_artifact_bytes),
            max_total_artifact_bytes: decimal_text(total),
            max_artifacts: decimal_text(acquisition.max_artifacts as u64),
            max_elapsed_seconds: decimal_text(acquisition.max_elapsed_seconds),
            max_compressed_bytes: decimal_text(parser.max_compressed_bytes),
            max_decompressed_bytes: decimal_text(parser.max_decompressed_bytes),
            max_pages: decimal_text(parser.max_pages),
            max_page_xml_bytes: decimal_text(parser.max_page_xml_bytes),
            max_text_bytes: decimal_text(parser.max_text_bytes as u64),
        }
    }
}

/// The positive number that a field states.
pub open spec fn stated_positive(label: Seq<char>, text: Seq<char>) -> Stated<u64> {
    match unsigned_value(trimmed(text), u64::MAX as nat) {
        None => Err(label + " must be a positive integer."@),
        Some(value) => if value == 0 {
            Err(label + " must be greater than zero."@)
        } else {
            Ok(value as u64)
        },
    }
}

/// The positive number of the machine's size that a field states.
pub open spec fn stated_size(label: Seq<char>, text: Seq<char>) -> Stated<usize> {
    match stated_positive(label, text) {
        Err(message) => Err(message),
        Ok(value) => if value > usize::MAX {
            Err(label + " is too large on this platform."@)
        } else {
            Ok(value as usize)
        },
    }
}

fn with_label(label: &str, rest: &str) -> (message: String)
    ensures
        message@ == label@ + rest@,
{
    let mut message = label.to_owned();
    message.append(rest);
    message
}

fn parse_u64(label: &str, value: &str) -> (r: Result<u64, String>)
    ensures
        match r {
            Ok(number) => stated_positive(label@, value@) == Ok::<u64, Seq<char>>(number),
            Err(message) => stated_positive(label@, value@) == Err::<u64, Seq<char>>(message@),
        },
{
    match parse_unsigned(trim(value).as_str(), u64::MAX) {
        None => Err(with_label(label, " must be a positive integer.")),
        Some(number) => if number == 0 {
            Err(with_label(label, " must be greater than zero."))
        } else {
            Ok(number)
        },
    }
}

fn parse_usize(label: &str, value: &str) -> (r: Result<usize, String>)
    ensures
        match r {
            Ok(number) => stated_size(label@, value@) == Ok::<usize, Seq<char>>(number),
            Err(message) => stated_size(label@, value@) == Err::<usize, Seq<char>>(message@),
        },
{
    let number: u64 = parse_u64(label, value)?;
    if number > usize::MAX as u64 {
        Err(with_label(label, " is too large on this platform."))
    } else {
        Ok(number as usize)
    }
}

/// The transfer ceilings that a form states.
pub open spec fn stated_acquisition(form: DumpFormView) -> Stated<DumpAcquisitionLimits> {
    match stated_size("Maximum index bytes"@, form.max_index_bytes) {
        Err(message) => Err(message),
        Ok(max_index_bytes) => match stated_positive(
            "Maximum bytes per artifact"@,
            form.max_artifact_bytes,
        ) {
            Err(message) => Err(message),
            Ok(max_artifact_bytes) => match stated_positive(
                "Maximum total downloaded/stored artifact bytes"@,
                form.max_total_artifact_bytes,
            ) {
                Err(message) => Err(message),
                Ok(max_total_artifact_bytes) => match stated_size(
                    "Maximum artifact count"@,
                    form.max_artifacts,
                ) {
                    Err(message) => Err(message),
                    Ok(max_artifacts) => match stated_positive(
                        "Maximum acquisition seconds"@,
                        form.max_elapsed_seconds,
                    ) {
                        Err(message) => Err(message),
                        Ok(max_elapsed_seconds) => if max_artifact_bytes
                            > max_total_artifact_bytes {
                            Err(
                                "Maximum bytes per artifact cannot exceed the total artifact byte limit."@,
                            )
                        } else {
                            Ok(
                                DumpAcquisitionLimits {
                                    max_index_bytes,
                                    max_artifact_bytes,
                                    max_total_artifact_bytes,
                                    max_artifacts,
                                    max_elapsed_seconds,
                                },
                            )
                        },
                    },
                },
            },
        },
    }
}

/// The parser ceilings that a form states; the others keep their defaults.
pub open spec fn stated_parser(form: DumpFormView) -> Stated<DumpLimits> {
    match stated_positive("Maximum compressed parser bytes"@, form.max_compressed_bytes) {
        Err(message) => Err(message),
        Ok(max_compressed_bytes) => match stated_positive(
            "Maximum decompressed parser bytes"@,
            form.max_decompressed_bytes,
        ) {
            Err(message) => Err(message),
            Ok(max_decompressed_bytes) => match stated_positive(
                "Maximum scanned pages"@,
                form.max_pages,
            ) {
                Err(message) => Err(message),
                Ok(max_pages) => match stated_positive(
                    "Maximum XML bytes per page"@,
                    form.max_page_xml_bytes,
                ) {
                    Err(message) => Err(message),
                    Ok(max_page_xml_bytes) => match stated_size(
                        "Maximum revision text bytes"@,
                        form.max_text_bytes,
                    ) {
                        Err(message) => Err(message),
                        Ok(max_text_bytes) => if max_text_bytes > max_page_xml_bytes {
                            Err(
                                "Maximum revision text bytes cannot exceed maximum XML bytes per page."@,
                            )
                        } else {
                            Ok(
                                DumpLimits {
                                    max_compressed_bytes,
                                    max_decompressed_bytes,
                                    max_pages,
                                    max_page_xml_bytes,
                                    max_text_bytes,
                                    ..default_parser()
                                },
                            )
                        },
                    },
                },
            },
        },
    }
}

/// A bootstrap that was read from a form.
#[derive(Debug, PartialEq, Eq)]
pub struct DumpBootstrapDraft {
    pub collection_id: CollectionId,
    pub trusted_index_url: String,
    pub trusted_index_digest: DumpDigest,
    pub expected_database: String,
    pub acquisition_limits: DumpAcquisitionLimits,
    pub parser_limits: DumpLimits,
}

/// Plain view of a bootstrap draft.
pub struct DumpDraftView {
    pub collection_id: u64,
    pub url: Seq<char>,
    pub digest: Seq<char>,
    pub database: Seq<char>,
    pub acquisition: DumpAcquisitionLimits,
    pub parser: DumpLimits,
}

impl View for DumpBootstrapDraft {
    type V = DumpDraftView;

    open spec fn view(&self) -> DumpDraftView {
        DumpDraftView {
            collection_id: self.collection_id@,
            url: self.trusted_index_url@,
            digest: self.trusted_index_digest@,
            database: self.expected_database@,
            acquisition: self.acquisition_limits,
            parser: self.parser_limits,
        }
    }
}

impl Clone for DumpBootstrapDraft {
    fn clone(&self) -> (copy: Self)
        ensures
            copy@ == self@,
    {
        DumpBootstrapDraft {
            collection_id: self.collection_id,
            trusted_index_url: self.trusted_index_url.clone(),
            trusted_index_digest: self.trusted_index_digest.clone(),
            expected_database: self.expected_database.clone(),
            acquisition_limits: self.acquisition_limits,
            parser_limits: self.parser_limits,
        }
    }
}

/// The bootstrap that a form states; `index_policy` is the transfer client's verdict on
/// its index address.
pub open spec fn stated_dump(form: DumpFormView, index_policy: Stated<()>) -> Stated<
    DumpDraftView,
> {
    match stated_positive("Collection ID"@, form.collection_id) {
        Err(message) => Err(message),
        Ok(collection_id) => match hex_digest(trimmed(form.trusted_index_digest)) {
            None => Err("Trusted index digest must be exactly 64 hexadecimal BLAKE3 digits."@),
            Some(digest) => match index_policy {
                Err(message) => Err(message),
                Ok(()) => match stated_acquisition(form) {
                    Err(message) => Err(message),
                    Ok(acquisition) => match stated_parser(form) {
                        Err(message) => Err(message),
                        Ok(parser) => if acquisition.max_total_artifact_bytes
                            > parser.max_compressed_bytes {
                            Err(
                                "Maximum total artifact bytes cannot exceed the compressed parser byte limit."@,
                            )
                        } else {
                            Ok(
                                DumpDraftView {
                                    collection_id,
                                    url: trimmed(form.trusted_index_url),
                                    digest,
                                    database: trimmed(form.expected_database),
                                    acquisition,
                                    parser,
                                },
                            )
                        },
                    },
                },
            },
        },
    }
}

/// The request of a draft with its own ceilings.
pub open spec fn draft_request(draft: DumpDraftView) -> DumpRequestView {
    DumpRequestView {
        collection_id: draft.collection_id,
        url: draft.url,
        digest: draft.digest,
        database: draft.database,
        acquisition: draft.acquisition,
        parser: draft.parser,
        generation: None,
    }
}

/// Why a draft cannot be requested: its identity first, then its ceilings.
pub open spec fn draft_error(draft: DumpDraftView) -> Option<Seq<char>> {
    let with_defaults = DumpRequestView {
        acquisition: default_acquisition(),
        parser: default_parser(),
        ..draft_request(draft)
    };
    if dump_request_error(with_defaults) is Some {
        dump_request_error(with_defaults)
    } else {
        dump_request_error(draft_request(draft))
    }
}

/// A bootstrap that waits for its confirmation.
#[derive(Debug, PartialEq, Eq)]
pub struct DumpBootstrapPreview {
    pub draft: DumpBootstrapDraft,
    pub wiki_id: WikiId,
    pub source_endpoint: String,
    pub language_code: String,
    pub collection_name: String,
    pub collection_generation: u64,
    pub resolved_pages: usize,
    pub budget: CollectionBudget,
    pub cache_directory: String,
    pub max_concurrent_requests: u32,
    pub max_download_bytes_per_second: Option<u64>,
    pub avoid_metered_networks: bool,
}

/// Plain view of a previewed bootstrap.
pub struct DumpPanelView {
    pub draft: DumpDraftView,
    pub wiki_id: u64,
    pub source_endpoint: Seq<char>,
    pub language_code: Seq<char>,
    pub collection_name: Seq<char>,
    pub collection_generation: u64,
    pub resolved_pages: usize,
    pub budget: BudgetView,
    pub cache_directory: Seq<char>,
    pub max_concurrent_requests: u32,
    pub max_download_bytes_per_second: Option<u64>,
    pub avoid_metered_networks: bool,
}

impl View for DumpBootstrapPreview {
    type V = DumpPanelView;

    open spec fn view(&self) -> DumpPanelView {
        DumpPanelView {
            draft: self.draft@,
            wiki_id: self.wiki_id@,
            source_endpoint: self.source_endpoint@,
            language_code: self.language_code@,
            collection_name: self.collection_name@,
            collection_generation: self.collection_generation,
            resolved_pages: self.resolved_pages,
            budget: self.budget@,
            cache_directory: self.cache_directory@,
            max_concurrent_requests: self.max_concurrent_requests,
            max_download_bytes_per_second: self.max_download_bytes_per_second,
            avoid_metered_networks: self.avoid_metered_networks,
        }
    }
}

impl Clone for DumpBootstrapPreview {
    fn clone(&self) -> (copy: Self)
        ensures
            copy@ == self@,
    {
        DumpBootstrapPreview {
            draft: self.draft.clone(),
            wiki_id: self.wiki_id,
            source_endpoint: self.source_endpoint.clone(),
            language_code: self.language_code.clone(),
            collection_name: self.collection_name.clone(),
            collection_generation: self.collection_generation,
            resolved_pages: self.resolved_pages,
            budget: self.budget,
            cache_directory: self.cache_directory.clone(),
            max_concurrent_requests: self.max_concurrent_requests,
            max_download_bytes_per_second: self.max_download_bytes_per_second,
            avoid_metered_networks: self.avoid_metered_networks,
        }
    }
}

/// Why a collection cannot be bootstrapped, or nothing.
pub open spec fn scope_error(configuration: ConfigurationView, selected_pages: u64) -> Option<
    Seq<char>,
> {
    if configuration.history_policy != HistoryView::CurrentAndFuture {
        Some("Current-dump bootstrap requires a current-and-future collection history policy."@)
    } else if selected_pages > usize::MAX {
        Some("Resolved scope exceeds this platform's size limit."@)
    } else if configuration.budget.maximum_pages matches Some(maximum) && selected_pages > maximum {
        Some(
            "Resolved scope contains "@ + decimal(selected_pages as nat)
                + " pages and exceeds the hard "@ + decimal(
                configuration.budget.maximum_pages->0 as nat,
            ) + "-page budget."@,
        )
    } else {
        None
    }
}

/// The preview of a draft, from what the service and the store report of it.
pub open spec fn previewed(
    draft: DumpDraftView,
    service: Stated<DumpPreviewView>,
    configuration: Stated<Option<ConfigurationView>>,
) -> Stated<DumpPanelView> {
    match service {
        Err(message) => Err(message),
        Ok(service) => match configuration {
            Err(message) => Err(message),
            Ok(None) => Err("Collection configuration is unavailable."@),
            Ok(Some(configuration)) => match scope_error(configuration, service.selected_pages) {
                Some(message) => Err(message),
                None => Ok(
                    DumpPanelView {
                        draft,
                        wiki_id: service.wiki_id,
                        source_endpoint: service.source_api_endpoint,
                        language_code: service.source_language_code,
                        collection_name: configuration.name,
                        collection_generation: configuration.generation,
                        resolved_pages: service.selected_pages as usize,
                        budget: configuration.budget,
                        cache_directory: service.cache_directory,
                        max_concurrent_requests: service.max_concurrent_requests,
                        max_download_bytes_per_second: service.max_download_bytes_per_second,
                        avoid_metered_networks: service.avoid_metered_networks,
                    },
                ),
            },
        },
    }
}

/// What the service reported, as plain data.
pub open spec fn service_view(
    service: Result<CurrentDumpBootstrapPreview, OperationError>,
) -> Stated<DumpPreviewView> {
    match service {
        Ok(preview) => Ok(preview@),
        Err(error) => Err(error@.message),
    }
}

/// What the store reported, as plain data.
pub open spec fn configuration_view(
    configuration: Result<Option<StoredCollectionConfiguration>, String>,
) -> Stated<Option<ConfigurationView>> {
    match configuration {
        Ok(Some(configuration)) => Ok(Some(configuration@)),
        Ok(None) => Ok(None),
        Err(message) => Err(message@),
    }
}

fn validate_collection(configuration: &StoredCollectionConfiguration) -> (r: Result<(), String>)
    ensures
        match r {
            Ok(()) => configuration@.history_policy == HistoryView::CurrentAndFuture,
            Err(message) => configuration@.history_policy != HistoryView::CurrentAndFuture
                && message@
                == "Current-dump bootstrap requires a current-and-future collection history policy."@,
        },
{
    match configuration.history_policy {
        HistoryPolicy::CurrentAndFuture => Ok(()),
        _ => Err(
            "Current-dump bootstrap requires a current-and-future collection history policy.".to_owned(),
        ),
    }
}

impl DumpBootstrapForm {
    fn acquisition_limits(&self) -> (r: Result<DumpAcquisitionLimits, String>)
        ensures
            match r {
                Ok(limits) => stated_acquisition(self@) == Ok::<DumpAcquisitionLimits, Seq<char>>(
                    limits,
                ),
                Err(message) => stated_acquisition(self@) == Err::<
                    DumpAcquisitionLimits,
                    Seq<char>,
                >(message@),
            },
    {
        let max_index_bytes: usize = parse_usize(
            "Maximum index bytes",
            self.max_index_bytes.as_str(),
        )?;
        let max_artifact_bytes: u64 = parse_u64(
            "Maximum bytes per artifact",
            self.max_artifact_bytes.as_str(),
        )?;
        let max_total_artifact_bytes: u64 = parse_u64(
            "Maximum total downloaded/stored artifact bytes",
            self.max_total_artifact_bytes.as_str(),
        )?;
        let max_artifacts: usize = parse_usize(
            "Maximum artifact count",
            self.max_artifacts.as_str(),
        )?;
        let max_elapsed_seconds: u64 = parse_u64(
            "Maximum acquisition seconds",
            self.max_elapsed_seconds.as_str(),
        )?;
        if max_artifact_bytes > max_total_artifact_bytes {
            return Err(
                "Maximum bytes per artifact cannot exceed the total artifact byte limit.".to_owned(),
            );
        }
        Ok(
            DumpAcquisitionLimits {
                max_index_bytes,
                max_artifact_bytes,
                max_total_artifact_bytes,
                max_artifacts,
                max_elapsed_seconds,
            },
        )
    }

    fn parser_limits(&self) -> (r: Result<DumpLimits, String>)
        ensures
            match r {
                Ok(limits) => stated_parser(self@) == Ok::<DumpLimits, Seq<char>>(limits),
                Err(message) => stated_parser(self@) == Err::<DumpLimits, Seq<char>>(message@),
            },
    {
        let defaults = DumpLimits::default();
        let max_compressed_bytes: u64 = parse_u64(
            "Maximum compressed parser bytes",
            self.max_compressed_bytes.as_str(),
        )?;
        let max_decompressed_bytes: u64 = parse_u64(
            "Maximum decompressed parser bytes",
            self.max_decompressed_bytes.as_str(),
        )?;
        let max_pages: u64 = parse_u64("Maximum scanned pages", self.max_pages.as_str())?;
        let max_page_xml_bytes: u64 = parse_u64(
            "Maximum XML bytes per page",
            self.max_page_xml_bytes.as_str(),
        )?;
        let max_text_bytes: usize = parse_usize(
            "Maximum revision text bytes",
            self.max_text_bytes.as_str(),
        )?;
        if max_text_bytes as u64 > max_page_xml_bytes {
            return Err(
                "Maximum revision text bytes cannot exceed maximum XML bytes per page.".to_owned(),
            );
        }
        Ok(
            DumpLimits {
                max_compressed_bytes,
                max_decompressed_bytes,
                max_pages,
                max_page_xml_bytes,
                max_text_bytes,
                max_metadata_field_bytes: defaults.max_metadata_field_bytes,
                max_siteinfo_bytes: defaults.max_siteinfo_bytes,
                max_namespaces: defaults.max_namespaces,
            },
        )
    }

    /// Reads the bootstrap, given the transfer client's verdict on the index address.
    pub fn draft(&self, index_policy: Result<(), String>) -> (r: Result<
        DumpBootstrapDraft,
        String,
    >)
        ensures
            crate::forms::states(
                r,
                stated_dump(
                    self@,
                    match index_policy {
                        Ok(()) => Ok(()),
                        Err(message) => Err(message@),
                    },
                ),
            ),
    {
        let raw: u64 = parse_u64("Collection ID", self.collection_id.as_str())?;
        let collection_id = match CollectionId::new(raw) {
            Ok(collection_id) => collection_id,
            Err(error) => return Err(error.message().to_owned()),
        };
        let trusted_index_digest = match DumpDigest::from_hex(
            trim(self.trusted_index_digest.as_str()).as_str(),
        ) {
            Ok(digest) => digest,
            Err(_) => return Err(
                "Trusted index digest must be exactly 64 hexadecimal BLAKE3 digits.".to_owned(),
            ),
        };
        let trusted_index_url = trim(self.trusted_index_url.as_str());
        let expected_database = trim(self.expected_database.as_str());
        index_policy?;
        let acquisition_limits = self.acquisition_limits()?;
        let parser_limits = self.parser_limits()?;
        if acquisition_limits.max_total_artifact_bytes > parser_limits.max_compressed_bytes {
            return Err(
                "Maximum total artifact bytes cannot exceed the compressed parser byte limit.".to_owned(),
            );
        }
        Ok(
            DumpBootstrapDraft {
                collection_id,
                trusted_index_url,
                trusted_index_digest,
                expected_database,
                acquisition_limits,
                parser_limits,
            },
        )
    }
}

impl DumpBootstrapDraft {
    /// The request of this draft.
    pub fn request(&self) -> (r: Result<CurrentDumpBootstrapRequest, String>)
        ensures
            match r {
                Ok(request) => draft_error(self@) is None && request@ == draft_request(self@),
                Err(message) => draft_error(self@) == Some(message@),
            },
    {
        let trusted_index = TrustedDumpIndex {
            url: self.trusted_index_url.clone(),
            digest: self.trusted_index_digest.clone(),
            expected_database: self.expected_database.clone(),
        };
        let request = match CurrentDumpBootstrapRequest::new(self.collection_id, trusted_index) {
            Ok(request) => request,
            Err(error) => return Err(error.into_message()),
        };
        match request.with_limits(self.acquisition_limits, self.parser_limits) {
            Ok(request) => Ok(request),
            Err(error) => Err(error.into_message()),
        }
    }

    /// Previews this draft from what the service and the store report of it.
    pub fn preview(
        self,
        service: Result<CurrentDumpBootstrapPreview, OperationError>,
        configuration: Result<Option<StoredCollectionConfiguration>, String>,
    ) -> (r: Result<DumpBootstrapPreview, String>)
        ensures
            crate::forms::states(
                r,
                previewed(self@, service_view(service), configuration_view(configuration)),
            ),
    {
        let service = match service {
            Ok(service) => service,
            Err(error) => return Err(error.into_message()),
        };
        let configuration = match configuration? {
            Some(configuration) => configuration,
            None => return Err("Collection configuration is unavailable.".to_owned()),
        };
        validate_collection(&configuration)?;
        if service.selected_pages > usize::MAX as u64 {
            return Err("Resolved scope exceeds this platform's size limit.".to_owned());
        }
        let resolved_pages: usize = service.selected_pages as usize;
        if let Some(maximum) = configuration.budget.maximum_pages() {
            if service.selected_pages > maximum.get() {
                let mut message = "Resolved scope contains ".to_owned();
                message.append(decimal_text(service.selected_pages).as_str());
                message.append(" pages and exceeds the hard ");
                message.append(decimal_text(maximum.get()).as_str());
                message.append("-page budget.");
                return Err(message);
            }
        }
        Ok(
            DumpBootstrapPreview {
                draft: self,
                wiki_id: service.wiki_id,
                source_endpoint: service.source_api_endpoint,
                language_code: service.source_language_code,
                collection_name: configuration.name,
                collection_generation: configuration.generation,
                resolved_pages,
                budget: configuration.budget,
                cache_directory: service.cache_directory,
                max_concurrent_requests: service.max_concurrent_requests,
                max_download_bytes_per_second: service.max_download_bytes_per_second,
                avoid_metered_networks: service.avoid_metered_networks,
            },
        )
    }
}

/// What a confirmed bootstrap may be started with: the collection must still be the one
/// that was previewed.
pub fn confirmed_bootstrap(preview: &DumpBootstrapPreview, current_generation: Result<u64, String>) -> (r:
    Result<CurrentDumpBootstrapRequest, String>)
    ensures
        match r {
            Ok(request) => draft_error(preview@.draft) is None && current_generation == Ok::<
                u64,
                String,
            >(preview.collection_generation) && request@ == (DumpRequestView {
                generation: Some(preview.collection_generation),
                ..draft_request(preview@.draft)
            }),
            Err(message) => match draft_error(preview@.draft) {
                Some(error) => message@ == error,
                None => match current_generation {
                    Err(error) => message@ == error@,
                    Ok(current) => current != preview.collection_generation && message@
                        == "The collection changed after the dump bootstrap preview. Refresh, preview the current scope and budgets again, then confirm."@,
                },
            },
        },
{
    let request = preview.draft.request()?;
    let request = request.with_expected_collection_generation(preview.collection_generation);
    let current: u64 = current_generation?;
    if current != preview.collection_generation {
        return Err(
            "The collection changed after the dump bootstrap preview. Refresh, preview the current scope and budgets again, then confirm.".to_owned(),
        );
    }
    Ok(request)
}

/// A preview never shows a scope above the collection's hard page budget, and it is bound
/// to the generation of a collection that keeps current revisions.
pub proof fn law_dump_preview_respects_the_budget(
    draft: DumpDraftView,
    service: Stated<DumpPreviewView>,
    configuration: Stated<Option<ConfigurationView>>,
)
    requires
        previewed(draft, service, configuration) is Ok,
    ensures
        ({
            let panel = previewed(draft, service, configuration)->Ok_0;
            &&& panel.budget.maximum_pages matches Some(maximum) ==> panel.resolved_pages <= maximum
            &&& configuration matches Ok(Some(stored))
            &&& panel.collection_generation == stored.generation
            &&& stored.history_policy == HistoryView::CurrentAndFuture
        }),
{
}

/// A confirmed bootstrap starts only for the generation that was previewed, and asks for
/// exactly what was previewed.
pub proof fn law_confirmed_bootstrap_is_the_previewed_one(
    preview: DumpBootstrapPreview,
    current_generation: Result<u64, String>,
    asked: Result<CurrentDumpBootstrapRequest, String>,
    r: Result<CurrentDumpBootstrapRequest, String>,
)
    requires
        call_ensures(DumpBootstrapDraft::request, (&preview.draft,), asked),
        call_ensures(confirmed_bootstrap, (&preview, current_generation), r),
    ensures
        r is Ok <==> asked is Ok && current_generation == Ok::<u64, String>(
            preview.collection_generation,
        ),
        asked matches Ok(request) ==> request@.collection_id == preview@.draft.collection_id
            && request@.url == preview@.draft.url && request@.digest == preview@.draft.digest
            && request@.database == preview@.draft.database && request@.acquisition
            == preview@.draft.acquisition && request@.parser == preview@.draft.parser,
        r matches Ok(request) ==> request@ == (DumpRequestView {
            generation: Some(preview.collection_generation),
            ..asked->Ok_0@
        }),
{
}

/// A draft is previewed exactly when the service previews it and the stored collection keeps
/// current and future revisions and has room for the selected pages; the preview shows the
/// collection as it is stored.
pub proof fn law_fitting_collections_are_previewed(
    draft: DumpBootstrapDraft,
    service: CurrentDumpBootstrapPreview,
    stored: StoredCollectionConfiguration,
    r: Result<DumpBootstrapPreview, String>,
)
    requires
        call_ensures(
            DumpBootstrapDraft::preview,
            (
                draft,
                Ok::<CurrentDumpBootstrapPreview, OperationError>(service),
                Ok::<Option<StoredCollectionConfiguration>, String>(Some(stored)),
            ),
            r,
        ),
        service.selected_pages <= usize::MAX,
    ensures
        r is Ok <==> stored@.history_policy == HistoryView::CurrentAndFuture && (
        stored@.budget.maximum_pages matches Some(limit) ==> service.selected_pages <= limit),
        r matches Ok(preview) ==> {
            &&& preview.draft@ == draft@
            &&& preview.resolved_pages == service.selected_pages
            &&& preview.wiki_id@ == service.wiki_id@
            &&& preview.source_endpoint@ == service.source_api_endpoint@
            &&& preview.language_code@ == service.source_language_code@
            &&& preview.collection_name@ == stored@.name
            &&& preview.collection_generation == stored@.generation
            &&& preview.budget@ == stored@.budget
            &&& preview.max_concurrent_requests == service.max_concurrent_requests
            &&& preview.max_download_bytes_per_second == service.max_download_bytes_per_second
            &&& preview.avoid_metered_networks == service.avoid_metered_networks
            &&& preview.cache_directory@ == service.cache_directory@
        },
{
}

/// A bootstrap form is read only if the transfer client accepts its index; what is read has
/// positive ceilings, in which one artifact fits the transfer, the transfer what is parsed, and
/// one text its page. Everything is read without the blanks around it.
pub proof fn law_bootstrap_form_is_consistent(
    form: DumpBootstrapForm,
    index_policy: Result<(), String>,
    r: Result<DumpBootstrapDraft, String>,
)
    requires
        call_ensures(DumpBootstrapForm::draft, (&form, index_policy), r),
    ensures
        r matches Ok(draft) ==> {
            &&& index_policy is Ok
            &&& draft@.collection_id > 0
            &&& draft@.url == trimmed(form@.trusted_index_url)
            &&& draft@.database == trimmed(form@.expected_database)
            &&& hex_digest(trimmed(form@.trusted_index_digest)) == Some(draft@.digest)
            &&& 0 < draft@.acquisition.max_artifact_bytes
                <= draft@.acquisition.max_total_artifact_bytes
                <= draft@.parser.max_compressed_bytes
            &&& 0 < draft@.acquisition.max_index_bytes && 0 < draft@.acquisition.max_artifacts && 0
                < draft@.acquisition.max_elapsed_seconds
            &&& 0 < draft@.parser.max_decompressed_bytes && 0 < draft@.parser.max_pages
            &&& 0 < draft@.parser.max_text_bytes <= draft@.parser.max_page_xml_bytes
        },
{
}

/// Every ceiling of a bootstrap is the number in its own field.
pub proof fn law_bootstrap_form_states_its_fields(
    form: DumpBootstrapForm,
    index_policy: Result<(), String>,
    r: Result<DumpBootstrapDraft, String>,
)
    requires
        call_ensures(DumpBootstrapForm::draft, (&form, index_policy), r),
        r is Ok,
    ensures
        ({
            let acquisition = r->Ok_0@.acquisition;
            let parser = r->Ok_0@.parser;
            let max = u64::MAX as nat;
            &&& unsigned_value(trimmed(form@.collection_id), max) == Some(
                r->Ok_0@.collection_id as nat,
            )
            &&& unsigned_value(trimmed(form@.max_index_bytes), max) == Some(
                acquisition.max_index_bytes as nat,
            )
            &&& unsigned_value(trimmed(form@.max_artifact_bytes), max) == Some(
                acquisition.max_artifact_bytes as nat,
            )
            &&& unsigned_value(trimmed(form@.max_total_artifact_bytes), max) == Some(
                acquisition.max_total_artifact_bytes as nat,
            )
            &&& unsigned_value(trimmed(form@.max_artifacts), max) == Some(
                acquisition.max_artifacts as nat,
            )
            &&& unsigned_value(trimmed(form@.max_elapsed_seconds), max) == Some(
                acquisition.max_elapsed_seconds as nat,
            )
            &&& unsigned_value(trimmed(form@.max_compressed_bytes), max) == Some(
                parser.max_compressed_bytes as nat,
            )
            &&& unsigned_value(trimmed(form@.max_decompressed_bytes), max) == Some(
                parser.max_decompressed_bytes as nat,
            )
            &&& unsigned_value(trimmed(form@.max_pages), max) == Some(parser.max_pages as nat)
            &&& unsigned_value(trimmed(form@.max_page_xml_bytes), max) == Some(
                parser.max_page_xml_bytes as nat,
            )
            &&& unsigned_value(trimmed(form@.max_text_bytes), max) == Some(
                parser.max_text_bytes as nat,
            )
        }),
{
}

/// A form with a digest of the right form and positive numbers in all its fields is accepted
/// exactly when its ceilings contain each other: an artifact in all artifacts, all artifacts in
/// what the parser reads, and a text in its page.
pub proof fn law_consistent_forms_are_accepted(
    form: DumpBootstrapForm,
    numbers: Seq<u64>,
    r: Result<DumpBootstrapDraft, String>,
)
    requires
        call_ensures(DumpBootstrapForm::draft, (&form, Ok::<(), String>(())), r),
        numbers.len() == 11,
        forall|i: int| 0 <= i < 11 ==> 0 < #[trigger] numbers[i] <= usize::MAX,
        hex_digest(trimmed(form@.trusted_index_digest)) is Some,
        ({
            let max = u64::MAX as nat;
            &&& unsigned_value(trimmed(form@.collection_id), max) == Some(numbers[0] as nat)
            &&& unsigned_value(trimmed(form@.max_index_bytes), max) == Some(numbers[1] as nat)
            &&& unsigned_value(trimmed(form@.max_artifact_bytes), max) == Some(numbers[2] as nat)
            &&& unsigned_value(trimmed(form@.max_total_artifact_bytes), max) == Some(
                numbers[3] as nat,
            )
            &&& unsigned_value(trimmed(form@.max_artifacts), max) == Some(numbers[4] as nat)
            &&& unsigned_value(trimmed(form@.max_elapsed_seconds), max) == Some(numbers[5] as nat)
            &&& unsigned_value(trimmed(form@.max_compressed_bytes), max) == Some(numbers[6] as nat)
            &&& unsigned_value(trimmed(form@.max_decompressed_bytes), max) == Some(
                numbers[7] as nat,
            )
            &&& unsigned_value(trimmed(form@.max_pages), max) == Some(numbers[8] as nat)
            &&& unsigned_value(trimmed(form@.max_page_xml_bytes), max) == Some(numbers[9] as nat)
            &&& unsigned_value(trimmed(form@.max_text_bytes), max) == Some(numbers[10] as nat)
        }),
    ensures
        r is Ok <==> numbers[2] <= numbers[3] <= numbers[6] && numbers[10] <= numbers[9],
{
    assert forall|i: int| 0 <= i < 11 implies (#[trigger] numbers[i] as usize) as u64
        == numbers[i] by {
        assert(0 < numbers[i] <= usize::MAX);
    }
}

/// A draft can be requested exactly when its own request is within the service's bounds.
pub proof fn law_drafts_within_bounds_are_requested(
    draft: DumpBootstrapDraft,
    r: Result<CurrentDumpBootstrapRequest, String>,
)
    requires
        call_ensures(DumpBootstrapDraft::request, (&draft,), r),
    ensures
        r is Ok <==> dump_request_error(draft_request(draft@)) is None,
{
}

} // verus!
