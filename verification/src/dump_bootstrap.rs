//! Service boundary for authenticated current-dump bootstrap.
//!
//! A request binds one collection to one authenticated dump index and to bounded limits.
//! Previews and execution plans are computed here from what the library stores; transfer
//! and import stay with the caller.

use vstd::prelude::*;
use vstd::string::*;

use crate::collection::text_bytes;
use crate::error::{failure, OperationError};
use crate::model::{
    positive_value, BudgetView, CollectionBudget, CollectionId, HistoryPolicy,
    NetworkTransferPolicy, NetworkView, WikiId,
};
use crate::network::{MeteredNetworkState, MeteredNetworkStatus};
use crate::source::StoredSource;
use crate::text::chars_of;
use crate::wire::byte_len;

verus! {

pub const MAX_INDEX_URL_BYTES: usize = 4_096;

pub const MAX_DATABASE_BYTES: usize = 64;

pub const MAX_INDEX_BYTES: usize = 16_777_216;

pub const MAX_ARTIFACT_BYTES: u64 = 549_755_813_888;

pub const MAX_TOTAL_ARTIFACT_BYTES: u64 = 2_199_023_255_552;

pub const MAX_ARTIFACTS: usize = 256;

pub const MAX_ELAPSED_SECONDS: u64 = 86_400;

pub const MAX_COMPRESSED_BYTES: u64 = 2_199_023_255_552;

pub const MAX_DECOMPRESSED_BYTES: u64 = 8_796_093_022_208;

pub const MAX_PAGES: u64 = 100_000_000;

pub const MAX_PAGE_XML_BYTES: u64 = 134_217_728;

pub const MAX_TEXT_BYTES: usize = 67_108_864;

pub const MAX_METADATA_FIELD_BYTES: usize = 65_536;

pub const MAX_SITEINFO_BYTES: u64 = 4_194_304;

pub const MAX_NAMESPACES: usize = 1_024;

/// Library-relative private cache directory of dumps.
pub const DUMP_CACHE_DIRECTORY: &'static str = "cache/dumps";

/// Digits of a hexadecimal digest.
pub const DIGEST_DIGITS: usize = 64;

pub open spec fn is_hex_digit(c: char) -> bool {
    '0' <= c <= '9' || 'a' <= c <= 'f' || 'A' <= c <= 'F'
}

/// A hexadecimal digit in lower case.
pub open spec fn lower_hex(c: char) -> char {
    if 'A' <= c <= 'F' {
        (c as u32 + 32) as char
    } else {
        c
    }
}

/// The digest that a text names: exactly 64 hexadecimal digits, in lower case.
pub open spec fn hex_digest(text: Seq<char>) -> Option<Seq<char>> {
    if text.len() == DIGEST_DIGITS && forall|i: int|
        0 <= i < text.len() ==> is_hex_digit(#[trigger] text[i]) {
        Some(text.map_values(|c: char| lower_hex(c)))
    } else {
        None
    }
}

/// What a malformed digest is answered.
pub open spec fn digest_message() -> Seq<char> {
    "dump digest must be exactly 64 hexadecimal digits"@
}

/// A digest retained through an independent trusted channel.
#[derive(Debug, PartialEq, Eq)]
pub struct DumpDigest {
    text: String,
}

impl View for DumpDigest {
    type V = Seq<char>;

    closed spec fn view(&self) -> Seq<char> {
        self.text@
    }
}

impl DumpDigest {
    #[verifier::type_invariant]
    spec fn canonical(self) -> bool {
        hex_digest(self.text@) == Some(self.text@)
    }

    /// Reads a digest from its hexadecimal notation.
    pub fn from_hex(text: &str) -> (r: Result<DumpDigest, &'static str>)
        ensures
            match r {
                Ok(digest) => hex_digest(text@) == Some(digest@),
                Err(message) => hex_digest(text@) is None && message@ == digest_message(),
            },
    {
        let chars = chars_of(text);
        if chars.len() != DIGEST_DIGITS {
            return Err("dump digest must be exactly 64 hexadecimal digits");
        }
        let mut lowered: String = String::new();
        let ghost expected = text@.map_values(|c: char| lower_hex(c));
        let mut i: usize = 0;
        while i < chars.len()
            invariant
                i <= chars@.len(),
                chars@ == text@,
                chars@.len() == DIGEST_DIGITS,
                expected == text@.map_values(|c: char| lower_hex(c)),
                lowered@ == expected.take(i as int),
                forall|k: int| 0 <= k < i ==> is_hex_digit(#[trigger] text@[k]),
            decreases chars@.len() - i,
        {
            let c: char = chars[i];
            let digit: bool = '0' <= c && c <= '9';
            let lower: bool = 'a' <= c && c <= 'f';
            let upper: bool = 'A' <= c && c <= 'F';
            if !digit && !lower && !upper {
                assert(!is_hex_digit(text@[i as int]));
                return Err("dump digest must be exactly 64 hexadecimal digits");
            }
            if upper {
                let code: u8 = (c as u32 + 32) as u8;
                lowered.push(code as char);
            } else {
                lowered.push(c);
            }
            proof {
                assert(lowered@ =~= expected.take(i + 1));
            }
            i = i + 1;
        }
        proof {
            assert(expected.take(i as int) =~= expected);
            assert forall|k: int| 0 <= k < expected.len() implies is_hex_digit(
                #[trigger] expected[k],
            ) && lower_hex(expected[k]) == expected[k] by {
                assert(is_hex_digit(text@[k]));
            }
            assert(expected.map_values(|c: char| lower_hex(c)) =~= expected);
        }
        Ok(DumpDigest { text: lowered })
    }

    /// The digest in lower-case hexadecimal notation.
    pub fn to_hex(&self) -> (text: String)
        ensures
            text@ == self@,
            hex_digest(self@) == Some(self@),
    {
        proof {
            use_type_invariant(self);
        }
        self.text.clone()
    }
}

impl Clone for DumpDigest {
    fn clone(&self) -> (copy: Self)
        ensures
            copy@ == self@,
    {
        proof {
            use_type_invariant(self);
        }
        DumpDigest { text: self.text.clone() }
    }
}

/// Identity of a dump index that the caller has authenticated.
///
/// Whether its URL may be contacted is for the transfer client to say.
#[derive(Debug, PartialEq, Eq)]
pub struct TrustedDumpIndex {
    pub url: String,
    pub digest: DumpDigest,
    pub expected_database: String,
}

impl Clone for TrustedDumpIndex {
    fn clone(&self) -> (copy: Self)
        ensures
            copy.url@ == self.url@,
            copy.digest@ == self.digest@,
            copy.expected_database@ == self.expected_database@,
    {
        TrustedDumpIndex {
            url: self.url.clone(),
            digest: self.digest.clone(),
            expected_database: self.expected_database.clone(),
        }
    }
}

/// Ceilings of a dump transfer.
#[derive(Clone, Copy, Debug, PartialEq, Eq, Structural)]
pub struct DumpAcquisitionLimits {
    pub max_index_bytes: usize,
    pub max_artifact_bytes: u64,
    pub max_total_artifact_bytes: u64,
    pub max_artifacts: usize,
    pub max_elapsed_seconds: u64,
}

/// The transfer ceilings of a request that names none.
pub open spec fn default_acquisition() -> DumpAcquisitionLimits {
    DumpAcquisitionLimits {
        max_index_bytes: 1_048_576,
        max_artifact_bytes: 68_719_476_736,
        max_total_artifact_bytes: 274_877_906_944,
        max_artifacts: 64,
        max_elapsed_seconds: 21_600,
    }
}

impl Default for DumpAcquisitionLimits {
    fn default() -> (limits: Self)
        ensures
            limits == default_acquisition(),
    {
        DumpAcquisitionLimits {
            max_index_bytes: 1_048_576,
            max_artifact_bytes: 68_719_476_736,
            max_total_artifact_bytes: 274_877_906_944,
            max_artifacts: 64,
            max_elapsed_seconds: 21_600,
        }
    }
}

/// Ceilings of the streaming dump parser.
#[derive(Clone, Copy, Debug, PartialEq, Eq, Structural)]
pub struct DumpLimits {
    pub max_compressed_bytes: u64,
    pub max_decompressed_bytes: u64,
    pub max_pages: u64,
    pub max_page_xml_bytes: u64,
    pub max_text_bytes: usize,
    pub max_metadata_field_bytes: usize,
    pub max_siteinfo_bytes: u64,
    pub max_namespaces: usize,
}

/// The parser ceilings of a request that names none.
pub open spec fn default_parser() -> DumpLimits {
    DumpLimits {
        max_compressed_bytes: 274_877_906_944,
        max_decompressed_bytes: 1_099_511_627_776,
        max_pages: 50_000_000,
        max_page_xml_bytes: 67_108_864,
        max_text_bytes: 33_554_432,
        max_metadata_field_bytes: 16_384,
        max_siteinfo_bytes: 1_048_576,
        max_namespaces: 256,
    }
}

impl Default for DumpLimits {
    fn default() -> (limits: Self)
        ensures
            limits == default_parser(),
    {
        DumpLimits {
            max_compressed_bytes: 274_877_906_944,
            max_decompressed_bytes: 1_099_511_627_776,
            max_pages: 50_000_000,
            max_page_xml_bytes: 67_108_864,
            max_text_bytes: 33_554_432,
            max_metadata_field_bytes: 16_384,
            max_siteinfo_bytes: 1_048_576,
            max_namespaces: 256,
        }
    }
}

/// Transfer ceilings within the service bounds.
pub open spec fn acquisition_fits(limits: DumpAcquisitionLimits) -> bool {
    &&& 0 < limits.max_index_bytes <= MAX_INDEX_BYTES
    &&& 0 < limits.max_artifact_bytes <= MAX_ARTIFACT_BYTES
    &&& 0 < limits.max_total_artifact_bytes <= MAX_TOTAL_ARTIFACT_BYTES
    &&& limits.max_artifact_bytes <= limits.max_total_artifact_bytes
    &&& 0 < limits.max_artifacts <= MAX_ARTIFACTS
    &&& 0 < limits.max_elapsed_seconds <= MAX_ELAPSED_SECONDS
}

/// Parser ceilings within the service bounds.
pub open spec fn parser_fits(limits: DumpLimits) -> bool {
    &&& 0 < limits.max_compressed_bytes <= MAX_COMPRESSED_BYTES
    &&& 0 < limits.max_decompressed_bytes <= MAX_DECOMPRESSED_BYTES
    &&& 0 < limits.max_pages <= MAX_PAGES
    &&& 0 < limits.max_page_xml_bytes <= MAX_PAGE_XML_BYTES
    &&& 0 < limits.max_text_bytes <= MAX_TEXT_BYTES
    &&& limits.max_text_bytes <= limits.max_page_xml_bytes
    &&& 0 < limits.max_metadata_field_bytes <= MAX_METADATA_FIELD_BYTES
    &&& 0 < limits.max_siteinfo_bytes <= MAX_SITEINFO_BYTES
    &&& 0 < limits.max_namespaces <= MAX_NAMESPACES
}

/// A caller-authenticated request to populate one current-only collection from a dump.
#[derive(Debug, PartialEq, Eq)]
pub struct CurrentDumpBootstrapRequest {
    collection_id: CollectionId,
    trusted_index: TrustedDumpIndex,
    acquisition_limits: DumpAcquisitionLimits,
    parser_limits: DumpLimits,
    expected_collection_generation: Option<u64>,
}

/// Plain view of a dump request.
pub struct DumpRequestView {
    pub collection_id: u64,
    pub url: Seq<char>,
    pub digest: Seq<char>,
    pub database: Seq<char>,
    pub acquisition: DumpAcquisitionLimits,
    pub parser: DumpLimits,
    pub generation: Option<u64>,
}

impl View for CurrentDumpBootstrapRequest {
    type V = DumpRequestView;

    closed spec fn view(&self) -> DumpRequestView {
        DumpRequestView {
            collection_id: self.collection_id@,
            url: self.trusted_index.url@,
            digest: self.trusted_index.digest@,
            database: self.trusted_index.expected_database@,
            acquisition: self.acquisition_limits,
            parser: self.parser_limits,
            generation: self.expected_collection_generation,
        }
    }
}

/// The first service bound that a request violates, if any.
pub open spec fn dump_request_error(request: DumpRequestView) -> Option<Seq<char>> {
    if text_bytes(request.url) > MAX_INDEX_URL_BYTES || text_bytes(request.database)
        > MAX_DATABASE_BYTES {
        Some("dump trust identity exceeds service bounds"@)
    } else if !acquisition_fits(request.acquisition) {
        Some("dump acquisition limits are outside service bounds"@)
    } else if !parser_fits(request.parser) {
        Some("dump parser limits are outside service bounds"@)
    } else {
        None
    }
}

fn validate_parts(
    trusted_index: &TrustedDumpIndex,
    acquisition: DumpAcquisitionLimits,
    parser: DumpLimits,
) -> (r: Result<(), OperationError>)
    ensures
        forall|request: DumpRequestView|
            request.url == trusted_index.url@ && request.database
                == trusted_index.expected_database@ && request.acquisition == acquisition
                && request.parser == parser ==> match r {
                Ok(()) => dump_request_error(request) is None,
                Err(error) => #[trigger] dump_request_error(request) is Some && error@ == failure(
                    dump_request_error(request)->0,
                ),
            },
{
    if byte_len(trusted_index.url.as_str()) > MAX_INDEX_URL_BYTES || byte_len(
        trusted_index.expected_database.as_str(),
    ) > MAX_DATABASE_BYTES {
        return Err(OperationError::failed("dump trust identity exceeds service bounds"));
    }
    if acquisition.max_index_bytes == 0 || acquisition.max_index_bytes > MAX_INDEX_BYTES
        || acquisition.max_artifact_bytes == 0 || acquisition.max_artifact_bytes
        > MAX_ARTIFACT_BYTES || acquisition.max_total_artifact_bytes == 0
        || acquisition.max_total_artifact_bytes > MAX_TOTAL_ARTIFACT_BYTES
        || acquisition.max_artifact_bytes > acquisition.max_total_artifact_bytes
        || acquisition.max_artifacts == 0 || acquisition.max_artifacts > MAX_ARTIFACTS
        || acquisition.max_elapsed_seconds == 0 || acquisition.max_elapsed_seconds
        > MAX_ELAPSED_SECONDS {
        return Err(OperationError::failed("dump acquisition limits are outside service bounds"));
    }
    if parser.max_compressed_bytes == 0 || parser.max_compressed_bytes > MAX_COMPRESSED_BYTES
        || parser.max_decompressed_bytes == 0 || parser.max_decompressed_bytes
        > MAX_DECOMPRESSED_BYTES || parser.max_pages == 0 || parser.max_pages > MAX_PAGES
        || parser.max_page_xml_bytes == 0 || parser.max_page_xml_bytes > MAX_PAGE_XML_BYTES
        || parser.max_text_bytes == 0 || parser.max_text_bytes > MAX_TEXT_BYTES
        || parser.max_text_bytes as u64 > parser.max_page_xml_bytes
        || parser.max_metadata_field_bytes == 0 || parser.max_metadata_field_bytes
        > MAX_METADATA_FIELD_BYTES || parser.max_siteinfo_bytes == 0 || parser.max_siteinfo_bytes
        > MAX_SITEINFO_BYTES || parser.max_namespaces == 0 || parser.max_namespaces
        > MAX_NAMESPACES {
        return Err(OperationError::failed("dump parser limits are outside service bounds"));
    }
    Ok(())
}

impl CurrentDumpBootstrapRequest {
    #[verifier::type_invariant]
    spec fn within_bounds(self) -> bool {
        dump_request_error(self@) is None
    }

    /// Creates a request with bounded service defaults.
    pub fn new(collection_id: CollectionId, trusted_index: TrustedDumpIndex) -> (r: Result<
        Self,
        OperationError,
    >)
        ensures
            ({
                let view = DumpRequestView {
                    collection_id: collection_id@,
                    url: trusted_index.url@,
                    digest: trusted_index.digest@,
                    database: trusted_index.expected_database@,
                    acquisition: default_acquisition(),
                    parser: default_parser(),
                    generation: None,
                };
                match r {
                    Ok(request) => dump_request_error(view) is None && request@ == view,
                    Err(error) => dump_request_error(view) is Some && error@ == failure(
                        dump_request_error(view)->0,
                    ),
                }
            }),
    {
        let acquisition_limits = DumpAcquisitionLimits::default();
        let parser_limits = DumpLimits::default();
        validate_parts(&trusted_index, acquisition_limits, parser_limits)?;
        Ok(
            CurrentDumpBootstrapRequest {
                collection_id,
                trusted_index,
                acquisition_limits,
                parser_limits,
                expected_collection_generation: None,
            },
        )
    }

    /// Replaces transfer and streaming-parser ceilings without weakening service bounds.
    pub fn with_limits(
        self,
        acquisition_limits: DumpAcquisitionLimits,
        parser_limits: DumpLimits,
    ) -> (r: Result<Self, OperationError>)
        ensures
            ({
                let view = DumpRequestView {
                    acquisition: acquisition_limits,
                    parser: parser_limits,
                    ..self@
                };
                match r {
                    Ok(request) => dump_request_error(view) is None && request@ == view,
                    Err(error) => dump_request_error(view) is Some && error@ == failure(
                        dump_request_error(view)->0,
                    ),
                }
            }),
    {
        validate_parts(&self.trusted_index, acquisition_limits, parser_limits)?;
        Ok(
            CurrentDumpBootstrapRequest {
                collection_id: self.collection_id,
                trusted_index: self.trusted_index,
                acquisition_limits,
                parser_limits,
                expected_collection_generation: self.expected_collection_generation,
            },
        )
    }

    /// Binds execution to the exact collection generation observed by a preview.
    pub fn with_expected_collection_generation(self, generation: u64) -> (request: Self)
        ensures
            request@ == (DumpRequestView { generation: Some(generation), ..self@ }),
    {
        proof {
            use_type_invariant(&self);
        }
        CurrentDumpBootstrapRequest {
            collection_id: self.collection_id,
            trusted_index: self.trusted_index,
            acquisition_limits: self.acquisition_limits,
            parser_limits: self.parser_limits,
            expected_collection_generation: Some(generation),
        }
    }

    /// Durable collection scope.
    pub fn collection_id(&self) -> (id: CollectionId)
        ensures
            id@ == self@.collection_id,
    {
        self.collection_id
    }

    /// Caller-retained authenticated index identity.
    pub fn trusted_index(&self) -> (index: &TrustedDumpIndex)
        ensures
            index.url@ == self@.url,
            index.digest@ == self@.digest,
            index.expected_database@ == self@.database,
    {
        &self.trusted_index
    }

    /// Bounded acquisition ceilings.
    pub fn acquisition_limits(&self) -> (limits: DumpAcquisitionLimits)
        ensures
            limits == self@.acquisition,
    {
        self.acquisition_limits
    }

    /// Bounded streaming parser ceilings.
    pub fn parser_limits(&self) -> (limits: DumpLimits)
        ensures
            limits == self@.parser,
    {
        self.parser_limits
    }

    /// Collection generation that execution must still observe.
    pub fn expected_collection_generation(&self) -> (generation: Option<u64>)
        ensures
            generation == self@.generation,
    {
        self.expected_collection_generation
    }

    /// No request exceeds the service bounds.
    pub(crate) fn bounded(&self)
        ensures
            dump_request_error(self@) is None,
    {
        proof {
            use_type_invariant(self);
        }
    }
}

impl Clone for CurrentDumpBootstrapRequest {
    fn clone(&self) -> (copy: Self)
        ensures
            copy@ == self@,
    {
        proof {
            use_type_invariant(self);
        }
        CurrentDumpBootstrapRequest {
            collection_id: self.collection_id,
            trusted_index: self.trusted_index.clone(),
            acquisition_limits: self.acquisition_limits,
            parser_limits: self.parser_limits,
            expected_collection_generation: self.expected_collection_generation,
        }
    }
}

/// Network-free summary of source, scope, trust identity, and all effective limits.
#[derive(Debug, PartialEq, Eq)]
pub struct CurrentDumpBootstrapPreview {
    pub collection_id: CollectionId,
    pub wiki_id: WikiId,
    pub collection_generation: u64,
    pub source_api_endpoint: String,
    pub source_language_code: String,
    pub selected_pages: u64,
    pub index_url: String,
    pub index_digest: String,
    pub expected_database: String,
    pub acquisition_limits: DumpAcquisitionLimits,
    pub parser_limits: DumpLimits,
    pub max_concurrent_requests: u32,
    pub max_download_bytes_per_second: Option<u64>,
    pub avoid_metered_networks: bool,
    pub maximum_collection_pages: Option<u64>,
    pub maximum_collection_canonical_bytes: Option<u64>,
    /// Library-relative private cache directory; dump bytes are never unpacked here.
    pub cache_directory: String,
}

/// Plain view of a dump preview.
pub struct DumpPreviewView {
    pub collection_id: u64,
    pub wiki_id: u64,
    pub collection_generation: u64,
    pub source_api_endpoint: Seq<char>,
    pub source_language_code: Seq<char>,
    pub selected_pages: u64,
    pub index_url: Seq<char>,
    pub index_digest: Seq<char>,
    pub expected_database: Seq<char>,
    pub acquisition_limits: DumpAcquisitionLimits,
    pub parser_limits: DumpLimits,
    pub max_concurrent_requests: u32,
    pub max_download_bytes_per_second: Option<u64>,
    pub avoid_metered_networks: bool,
    pub maximum_collection_pages: Option<u64>,
    pub maximum_collection_canonical_bytes: Option<u64>,
    pub cache_directory: Seq<char>,
}

impl View for CurrentDumpBootstrapPreview {
    type V = DumpPreviewView;

    open spec fn view(&self) -> DumpPreviewView {
        DumpPreviewView {
            collection_id: self.collection_id@,
            wiki_id: self.wiki_id@,
            collection_generation: self.collection_generation,
            source_api_endpoint: self.source_api_endpoint@,
            source_language_code: self.source_language_code@,
            selected_pages: self.selected_pages,
            index_url: self.index_url@,
            index_digest: self.index_digest@,
            expected_database: self.expected_database@,
            acquisition_limits: self.acquisition_limits,
            parser_limits: self.parser_limits,
            max_concurrent_requests: self.max_concurrent_requests,
            max_download_bytes_per_second: self.max_download_bytes_per_second,
            avoid_metered_networks: self.avoid_metered_networks,
            maximum_collection_pages: self.maximum_collection_pages,
            maximum_collection_canonical_bytes: self.maximum_collection_canonical_bytes,
            cache_directory: self.cache_directory@,
        }
    }
}

/// What the library stores of a collection that a dump may populate.
#[derive(Clone, Copy, Debug, PartialEq, Eq, Structural)]
pub struct BootstrapConfiguration {
    pub wiki_id: WikiId,
    pub generation: u64,
    pub history_policy: HistoryPolicy,
    pub budget: CollectionBudget,
}

/// Everything that a preview reads from the library. Where no configuration is stored, no
/// source is either.
#[derive(Debug, PartialEq, Eq)]
pub struct BootstrapInputs {
    pub configuration: Result<Option<BootstrapConfiguration>, String>,
    pub source: Result<Option<StoredSource>, String>,
    pub member_count: Result<usize, String>,
    pub network_policy: Result<NetworkTransferPolicy, String>,
}

/// What keeps a collection from being populated, given its number of resolved pages.
pub open spec fn selection_error(
    request: DumpRequestView,
    budget: BudgetView,
    selected_pages: nat,
) -> Option<Seq<char>> {
    if selected_pages == 0 {
        Some("current dump bootstrap requires at least one resolved page"@)
    } else if selected_pages > request.parser.max_pages {
        Some("selected page count exceeds the requested dump page ceiling"@)
    } else if budget.maximum_pages is Some && selected_pages > budget.maximum_pages->0 {
        Some("selected page count exceeds the collection hard page budget"@)
    } else {
        None
    }
}

/// The preview of a request, or the first reason that there is none.
pub open spec fn dump_preview(request: DumpRequestView, inputs: BootstrapInputs) -> Result<
    DumpPreviewView,
    Seq<char>,
> {
    match inputs.configuration {
        Err(message) => Err(message@),
        Ok(None) => Err("collection has no committed configuration"@),
        Ok(Some(configuration)) => if !(configuration.history_policy is CurrentAndFuture) {
            Err("current dump bootstrap requires the current-and-future history policy"@)
        } else {
            match inputs.source {
                Err(message) => Err(message@),
                Ok(None) => Err("collection source is missing"@),
                Ok(Some(source)) => if request.generation is Some && request.generation->0
                    != configuration.generation {
                    Err("collection changed after the current dump bootstrap preview"@)
                } else {
                    match inputs.member_count {
                        Err(message) => Err(message@),
                        Ok(count) => match selection_error(
                            request,
                            configuration.budget@,
                            count as nat,
                        ) {
                            Some(message) => Err(message),
                            None => match inputs.network_policy {
                                Err(message) => Err(message@),
                                Ok(policy) => Ok(
                                    DumpPreviewView {
                                        collection_id: request.collection_id,
                                        wiki_id: configuration.wiki_id@,
                                        collection_generation: configuration.generation,
                                        source_api_endpoint: source.api_endpoint@,
                                        source_language_code: source.language_code@,
                                        selected_pages: count as u64,
                                        index_url: request.url,
                                        index_digest: request.digest,
                                        expected_database: request.database,
                                        acquisition_limits: request.acquisition,
                                        parser_limits: request.parser,
                                        max_concurrent_requests: policy@.max_concurrent_requests,
                                        max_download_bytes_per_second:
                                            policy@.max_download_bytes_per_second,
                                        avoid_metered_networks: policy@.avoid_metered_networks,
                                        maximum_collection_pages:
                                            configuration.budget@.maximum_pages,
                                        maximum_collection_canonical_bytes:
                                            configuration.budget@.maximum_bytes,
                                        cache_directory: DUMP_CACHE_DIRECTORY@,
                                    },
                                ),
                            },
                        },
                    }
                },
            }
        },
    }
}

fn limit(value: Option<crate::model::PositiveU64>) -> (r: Option<u64>)
    ensures
        r == positive_value(value),
{
    match value {
        Some(value) => Some(value.get()),
        None => None,
    }
}

/// Validates and previews a dump bootstrap without opening a network connection.
pub fn preview_current_dump_bootstrap(
    request: &CurrentDumpBootstrapRequest,
    inputs: BootstrapInputs,
) -> (r: Result<CurrentDumpBootstrapPreview, OperationError>)
    ensures
        match r {
            Ok(preview) => dump_preview(request@, inputs) == Ok::<DumpPreviewView, Seq<char>>(
                preview@,
            ),
            Err(error) => dump_preview(request@, inputs) is Err && error@ == failure(
                dump_preview(request@, inputs)->Err_0,
            ),
        },
{
    let configuration = match inputs.configuration {
        Err(message) => return Err(OperationError::failed(message.as_str())),
        Ok(None) => return Err(
            OperationError::failed("collection has no committed configuration"),
        ),
        Ok(Some(configuration)) => configuration,
    };
    match configuration.history_policy {
        HistoryPolicy::CurrentAndFuture => {},
        _ => return Err(
            OperationError::failed(
                "current dump bootstrap requires the current-and-future history policy",
            ),
        ),
    }
    let source = match inputs.source {
        Err(message) => return Err(OperationError::failed(message.as_str())),
        Ok(None) => return Err(OperationError::failed("collection source is missing")),
        Ok(Some(source)) => source,
    };
    if let Some(expected) = request.expected_collection_generation {
        if expected != configuration.generation {
            return Err(
                OperationError::failed(
                    "collection changed after the current dump bootstrap preview",
                ),
            );
        }
    }
    let selected_pages: u64 = match inputs.member_count {
        Err(message) => return Err(OperationError::failed(message.as_str())),
        Ok(count) => count as u64,
    };
    if selected_pages == 0 {
        return Err(
            OperationError::failed("current dump bootstrap requires at least one resolved page"),
        );
    }
    if selected_pages > request.parser_limits.max_pages {
        return Err(
            OperationError::failed("selected page count exceeds the requested dump page ceiling"),
        );
    }
    let maximum_collection_pages: Option<u64> = limit(configuration.budget.maximum_pages());
    if let Some(maximum) = maximum_collection_pages {
        if selected_pages > maximum {
            return Err(
                OperationError::failed(
                    "selected page count exceeds the collection hard page budget",
                ),
            );
        }
    }
    let policy = match inputs.network_policy {
        Err(message) => return Err(OperationError::failed(message.as_str())),
        Ok(policy) => policy,
    };
    Ok(
        CurrentDumpBootstrapPreview {
            collection_id: request.collection_id,
            wiki_id: configuration.wiki_id,
            collection_generation: configuration.generation,
            source_api_endpoint: source.api_endpoint,
            source_language_code: source.language_code,
            selected_pages,
            index_url: request.trusted_index.url.clone(),
            index_digest: request.trusted_index.digest.to_hex(),
            expected_database: request.trusted_index.expected_database.clone(),
            acquisition_limits: request.acquisition_limits,
            parser_limits: request.parser_limits,
            max_concurrent_requests: policy.max_concurrent_requests(),
            max_download_bytes_per_second: policy.max_download_bytes_per_second(),
            avoid_metered_networks: policy.avoid_metered_networks(),
            maximum_collection_pages,
            maximum_collection_canonical_bytes: limit(configuration.budget.maximum_bytes()),
            cache_directory: DUMP_CACHE_DIRECTORY.to_owned(),
        },
    )
}

/// Transfer settings of an execution.
#[derive(Clone, Copy, Debug, PartialEq, Eq, Structural)]
pub struct DumpTransferPlan {
    pub request_slots: usize,
    pub bytes_per_second: Option<usize>,
}

/// The transfer settings of an execution, or the first reason that it may not start.
pub open spec fn transfer_plan(policy: NetworkView, network: MeteredNetworkStatus) -> Result<
    DumpTransferPlan,
    Seq<char>,
> {
    if policy.avoid_metered_networks && network.state is Metered {
        Err("dump bootstrap is blocked by the library policy while the active network is metered"@)
    } else if policy.max_concurrent_requests > usize::MAX {
        Err("network concurrency policy is too large"@)
    } else if policy.max_download_bytes_per_second is Some
        && policy.max_download_bytes_per_second->0 > usize::MAX {
        Err("network byte-rate policy is too large"@)
    } else {
        Ok(
            DumpTransferPlan {
                request_slots: policy.max_concurrent_requests as usize,
                bytes_per_second: match policy.max_download_bytes_per_second {
                    Some(rate) => Some(rate as usize),
                    None => None,
                },
            },
        )
    }
}

/// Execution starts only from a request that a preview has bound to a generation.
pub fn require_preview_binding(request: &CurrentDumpBootstrapRequest) -> (r: Result<
    (),
    OperationError,
>)
    ensures
        match r {
            Ok(()) => request@.generation is Some,
            Err(error) => request@.generation is None && error@ == failure(
                "current dump bootstrap execution requires a preview-bound collection generation"@,
            ),
        },
{
    if request.expected_collection_generation.is_none() {
        return Err(
            OperationError::failed(
                "current dump bootstrap execution requires a preview-bound collection generation",
            ),
        );
    }
    Ok(())
}

/// Decides whether and how fast an execution may transfer.
pub fn plan_dump_transfer(policy: NetworkTransferPolicy, network: MeteredNetworkStatus) -> (r:
    Result<DumpTransferPlan, OperationError>)
    ensures
        match r {
            Ok(plan) => transfer_plan(policy@, network) == Ok::<DumpTransferPlan, Seq<char>>(plan),
            Err(error) => transfer_plan(policy@, network) is Err && error@ == failure(
                transfer_plan(policy@, network)->Err_0,
            ),
        },
{
    if policy.avoid_metered_networks() && network.state == MeteredNetworkState::Metered {
        return Err(
            OperationError::failed(
                "dump bootstrap is blocked by the library policy while the active network is metered",
            ),
        );
    }
    let requests: u32 = policy.max_concurrent_requests();
    let bytes_per_second: Option<usize> = match policy.max_download_bytes_per_second() {
        Some(rate) => {
            if rate > usize::MAX as u64 {
                return Err(OperationError::failed("network byte-rate policy is too large"));
            }
            Some(rate as usize)
        },
        None => None,
    };
    Ok(DumpTransferPlan { request_slots: requests as usize, bytes_per_second })
}

/// State of a durable dump import.
#[derive(Clone, Copy, Debug, PartialEq, Eq, Structural)]
pub enum DumpImportState {
    Running,
    Succeeded,
    Failed,
}

/// What an import reported, as plain values.
#[derive(Clone, Copy, Debug, PartialEq, Eq, Structural)]
pub struct DumpBootstrapReport {
    pub run_id: u64,
    pub import_id: u64,
    pub import_state: DumpImportState,
    pub resumed: bool,
    pub pages_scanned: u64,
    pub pages_imported: usize,
    pub pages_reused: usize,
    pub pages_absent_from_dump: usize,
    pub closure_pages_checked: usize,
    pub closure_differing_heads: usize,
    pub closure_missing_pages: usize,
    pub closure_pages_captured_from_api: usize,
    pub checkpoint_candidate: u64,
}

/// Successful authenticated acquisition, import, closure, and durable receipt.
#[derive(Debug, PartialEq, Eq)]
pub struct CurrentDumpBootstrapOutcome {
    pub preview: CurrentDumpBootstrapPreview,
    pub run_id: u64,
    pub import_id: u64,
    pub import_state: DumpImportState,
    pub resumed: bool,
    pub pages_scanned: u64,
    pub pages_imported: usize,
    pub pages_reused: usize,
    pub pages_absent_from_dump: usize,
    pub closure_pages_checked: usize,
    pub closure_differing_heads: usize,
    pub closure_missing_pages: usize,
    pub closure_pages_captured_from_api: usize,
    pub checkpoint_committed_through: u64,
}

/// Plain view of a dump receipt: the preview and what was reported.
pub struct DumpOutcomeView {
    pub preview: DumpPreviewView,
    pub report: DumpBootstrapReport,
}

impl View for CurrentDumpBootstrapOutcome {
    type V = DumpOutcomeView;

    open spec fn view(&self) -> DumpOutcomeView {
        DumpOutcomeView {
            preview: self.preview@,
            report: DumpBootstrapReport {
                run_id: self.run_id,
                import_id: self.import_id,
                import_state: self.import_state,
                resumed: self.resumed,
                pages_scanned: self.pages_scanned,
                pages_imported: self.pages_imported,
                pages_reused: self.pages_reused,
                pages_absent_from_dump: self.pages_absent_from_dump,
                closure_pages_checked: self.closure_pages_checked,
                closure_differing_heads: self.closure_differing_heads,
                closure_missing_pages: self.closure_missing_pages,
                closure_pages_captured_from_api: self.closure_pages_captured_from_api,
                checkpoint_candidate: self.checkpoint_committed_through,
            },
        }
    }
}

/// The receipt of an import that has succeeded durably.
pub fn outcome(preview: CurrentDumpBootstrapPreview, report: DumpBootstrapReport) -> (r: Result<
    CurrentDumpBootstrapOutcome,
    OperationError,
>)
    ensures
        match r {
            Ok(outcome) => report.import_state is Succeeded && outcome@ == (DumpOutcomeView {
                preview: preview@,
                report,
            }),
            Err(error) => !(report.import_state is Succeeded) && error@ == failure(
                "dump bootstrap returned without a successful durable import"@,
            ),
        },
{
    match report.import_state {
        DumpImportState::Succeeded => {},
        _ => return Err(
            OperationError::failed("dump bootstrap returned without a successful durable import"),
        ),
    }
    Ok(
        CurrentDumpBootstrapOutcome {
            preview,
            run_id: report.run_id,
            import_id: report.import_id,
            import_state: report.import_state,
            resumed: report.resumed,
            pages_scanned: report.pages_scanned,
            pages_imported: report.pages_imported,
            pages_reused: report.pages_reused,
            pages_absent_from_dump: report.pages_absent_from_dump,
            closure_pages_checked: report.closure_pages_checked,
            closure_differing_heads: report.closure_differing_heads,
            closure_missing_pages: report.closure_missing_pages,
            closure_pages_captured_from_api: report.closure_pages_captured_from_api,
            checkpoint_committed_through: report.checkpoint_candidate,
        },
    )
}

/// A bootstrap that waits for its own runtime cannot run inside another one.
pub fn require_no_runtime(inside_runtime: bool) -> (r: Result<(), OperationError>)
    ensures
        match r {
            Ok(_) => !inside_runtime,
            Err(error) => inside_runtime && error@ == failure(
                "synchronous dump bootstrap cannot run inside a Tokio runtime; use the async direct API"@,
            ),
        },
{
    if inside_runtime {
        return Err(
            OperationError::failed(
                "synchronous dump bootstrap cannot run inside a Tokio runtime; use the async direct API",
            ),
        );
    }
    Ok(())
}

/// The failure to start the runtime of a bootstrap.
pub fn dump_runtime_failed(message: &str) -> (error: OperationError)
    ensures
        error@ == failure("cannot start dump runtime: "@ + message@),
{
    let mut text = "cannot start dump runtime: ".to_owned();
    text.append(message);
    OperationError::failed(text.as_str())
}

/// What stands at one component of the dump cache path.
#[derive(Clone, Debug, PartialEq, Eq)]
pub enum CacheEntry {
    /// A directory with these permission bits.
    Directory { mode: u32 },
    /// A symbolic link or anything else that is no directory.
    Other,
    Missing,
    Unreadable(String),
}

/// What to do with a component of the dump cache path.
#[derive(Clone, Copy, Debug, PartialEq, Eq, Structural)]
pub enum CacheStep {
    Keep,
    /// Create it for its owner alone, then look at it again.
    Create,
}

/// Group and others may not use the directory.
pub open spec fn private_mode(mode: u32) -> bool {
    mode & 0o077 == 0
}

/// Decides on one component of the dump cache path.
pub fn inspect_cache_entry(entry: &CacheEntry) -> (r: Result<CacheStep, OperationError>)
    ensures
        match entry {
            CacheEntry::Directory { mode } => if private_mode(*mode) {
                r == Ok::<CacheStep, OperationError>(CacheStep::Keep)
            } else {
                r is Err && r->Err_0@ == failure(
                    "library dump cache directory permissions are not private"@,
                )
            },
            CacheEntry::Other => r is Err && r->Err_0@ == failure(
                "library dump cache path is not a safe directory"@,
            ),
            CacheEntry::Missing => r == Ok::<CacheStep, OperationError>(CacheStep::Create),
            CacheEntry::Unreadable(message) => r is Err && r->Err_0@ == failure(message@),
        },
{
    match entry {
        CacheEntry::Directory { mode } => {
            if *mode & 0o077 == 0 {
                Ok(CacheStep::Keep)
            } else {
                Err(
                    OperationError::failed(
                        "library dump cache directory permissions are not private",
                    ),
                )
            }
        },
        CacheEntry::Other => Err(
            OperationError::failed("library dump cache path is not a safe directory"),
        ),
        CacheEntry::Missing => Ok(CacheStep::Create),
        CacheEntry::Unreadable(message) => Err(OperationError::failed(message.as_str())),
    }
}

/// Accepts a component that was just created, if it is still a directory.
pub fn inspect_created_entry(entry: &CacheEntry) -> (r: Result<(), OperationError>)
    ensures
        match entry {
            CacheEntry::Directory { mode } => r is Ok,
            CacheEntry::Unreadable(message) => r is Err && r->Err_0@ == failure(message@),
            _ => r is Err && r->Err_0@ == failure(
                "library dump cache path changed during creation"@,
            ),
        },
{
    match entry {
        CacheEntry::Directory { .. } => Ok(()),
        CacheEntry::Unreadable(message) => Err(OperationError::failed(message.as_str())),
        _ => Err(OperationError::failed("library dump cache path changed during creation")),
    }
}

/// A preview is given only for a committed current-and-future collection whose pages stay
/// within the requested ceiling and the hard budget, and for the generation it is bound to.
pub proof fn law_preview_respects_scope(request: DumpRequestView, inputs: BootstrapInputs)
    ensures
        dump_preview(request, inputs) matches Ok(preview) ==> {
            &&& 0 < preview.selected_pages <= request.parser.max_pages
            &&& preview.maximum_collection_pages matches Some(maximum) ==> preview.selected_pages
                <= maximum
            &&& request.generation matches Some(generation) ==> preview.collection_generation
                == generation
            &&& preview.collection_id == request.collection_id
            &&& preview.index_url == request.url && preview.index_digest == request.digest
                && preview.expected_database == request.database
            &&& preview.acquisition_limits == request.acquisition && preview.parser_limits
                == request.parser
        },
{
}

/// A collection that changed after its preview is not populated.
pub proof fn law_stale_preview_is_refused(
    request: DumpRequestView,
    inputs: BootstrapInputs,
    configuration: BootstrapConfiguration,
    source: StoredSource,
)
    requires
        inputs.configuration == Ok::<Option<BootstrapConfiguration>, String>(Some(configuration)),
        inputs.source == Ok::<Option<StoredSource>, String>(Some(source)),
        configuration.history_policy is CurrentAndFuture,
        request.generation is Some,
        request.generation->0 != configuration.generation,
    ensures
        dump_preview(request, inputs) == Err::<DumpPreviewView, Seq<char>>(
            "collection changed after the current dump bootstrap preview"@,
        ),
{
}

/// A bootstrap is held back for its network exactly where the policy avoids metered networks
/// and the network is a metered one; how that was found out does not matter. A bootstrap that
/// may run uses the slots and the rate of the policy.
pub proof fn law_only_a_metered_network_blocks_a_bootstrap(
    policy: NetworkTransferPolicy,
    network: MeteredNetworkStatus,
    r: Result<DumpTransferPlan, OperationError>,
)
    requires
        call_ensures(plan_dump_transfer, (policy, network), r),
        policy@.max_concurrent_requests <= usize::MAX,
        policy@.max_download_bytes_per_second matches Some(rate) ==> rate <= usize::MAX,
    ensures
        r is Err <==> policy@.avoid_metered_networks && network.state
            == MeteredNetworkState::Metered,
        network.state == MeteredNetworkState::Unmetered ==> r is Ok,
        network.state == MeteredNetworkState::Unknown ==> r is Ok,
        !policy@.avoid_metered_networks ==> r is Ok,
        r matches Ok(plan) ==> {
            &&& plan.request_slots == policy@.max_concurrent_requests
            &&& plan.bytes_per_second is Some <==> policy@.max_download_bytes_per_second is Some
            &&& plan.bytes_per_second matches Some(rate) ==> rate
                == policy@.max_download_bytes_per_second->0
        },
{
}

/// A preview is given exactly for a committed collection that keeps current and future
/// revisions, has an existing source, is still of the generation that the request is bound to,
/// and has at least one page but no more than the request and the hard budget allow. It shows
/// the stored source and the limits that will be in force.
pub proof fn law_preview_is_given_for_a_fitting_scope(
    request: CurrentDumpBootstrapRequest,
    inputs: BootstrapInputs,
    configuration: BootstrapConfiguration,
    source: StoredSource,
    pages: usize,
    policy: NetworkTransferPolicy,
    r: Result<CurrentDumpBootstrapPreview, OperationError>,
)
    requires
        inputs.configuration == Ok::<Option<BootstrapConfiguration>, String>(Some(configuration)),
        inputs.source == Ok::<Option<StoredSource>, String>(Some(source)),
        inputs.member_count == Ok::<usize, String>(pages),
        inputs.network_policy == Ok::<NetworkTransferPolicy, String>(policy),
        call_ensures(preview_current_dump_bootstrap, (&request, inputs), r),
    ensures
        r is Ok <==> {
            &&& configuration.history_policy == HistoryPolicy::CurrentAndFuture
            &&& request@.generation is None || request@.generation == Some(configuration.generation)
            &&& 1 <= pages <= request@.parser.max_pages
            &&& configuration.budget@.maximum_pages matches Some(limit) ==> pages <= limit
        },
        r matches Ok(preview) ==> {
            &&& preview.selected_pages == pages
            &&& preview.collection_id@ == request@.collection_id
            &&& preview.wiki_id@ == configuration.wiki_id@
            &&& preview.collection_generation == configuration.generation
            &&& preview.source_api_endpoint@ == source.api_endpoint@
            &&& preview.source_language_code@ == source.language_code@
            &&& preview.max_concurrent_requests == policy@.max_concurrent_requests
            &&& preview.max_download_bytes_per_second == policy@.max_download_bytes_per_second
            &&& preview.avoid_metered_networks == policy@.avoid_metered_networks
            &&& preview.maximum_collection_pages == configuration.budget@.maximum_pages
            &&& preview.maximum_collection_canonical_bytes == configuration.budget@.maximum_bytes
            &&& preview.cache_directory@ == "cache/dumps"@
        },
{
}

/// Where anything cannot be read of the library, or nothing is stored, there is no preview.
pub proof fn law_preview_needs_the_library(
    request: CurrentDumpBootstrapRequest,
    inputs: BootstrapInputs,
    r: Result<CurrentDumpBootstrapPreview, OperationError>,
)
    requires
        call_ensures(preview_current_dump_bootstrap, (&request, inputs), r),
        r is Ok,
    ensures
        inputs.configuration is Ok && inputs.configuration->Ok_0 is Some,
        inputs.source is Ok && inputs.source->Ok_0 is Some,
        inputs.member_count is Ok,
        inputs.network_policy is Ok,
{
}

/// A receipt is given exactly for an import that succeeded durably, and it repeats preview and
/// report.
pub proof fn law_receipt_needs_a_succeeded_import(
    preview: CurrentDumpBootstrapPreview,
    report: DumpBootstrapReport,
    r: Result<CurrentDumpBootstrapOutcome, OperationError>,
)
    requires
        call_ensures(outcome, (preview, report), r),
    ensures
        r is Ok <==> report.import_state == DumpImportState::Succeeded,
        r matches Ok(receipt) ==> {
            &&& receipt.preview@ == preview@
            &&& receipt.import_state == DumpImportState::Succeeded
            &&& receipt.run_id == report.run_id && receipt.import_id == report.import_id
            &&& receipt.resumed == report.resumed && receipt.pages_scanned == report.pages_scanned
            &&& receipt.pages_imported == report.pages_imported && receipt.pages_reused
                == report.pages_reused && receipt.pages_absent_from_dump
                == report.pages_absent_from_dump
            &&& receipt.closure_pages_checked == report.closure_pages_checked
                && receipt.closure_differing_heads == report.closure_differing_heads
                && receipt.closure_missing_pages == report.closure_missing_pages
                && receipt.closure_pages_captured_from_api
                == report.closure_pages_captured_from_api
            &&& receipt.checkpoint_committed_through == report.checkpoint_candidate
        },
{
}

/// Execution needs a request that a preview bound to a generation, and cannot wait for its own
/// runtime inside another one.
pub proof fn law_execution_needs_a_bound_request(
    request: CurrentDumpBootstrapRequest,
    generation: u64,
    inside_runtime: bool,
    bound: CurrentDumpBootstrapRequest,
    unchecked: Result<(), OperationError>,
    checked: Result<(), OperationError>,
    started: Result<(), OperationError>,
)
    requires
        call_ensures(
            CurrentDumpBootstrapRequest::with_expected_collection_generation,
            (request, generation),
            bound,
        ),
        call_ensures(require_preview_binding, (&request,), unchecked),
        call_ensures(require_preview_binding, (&bound,), checked),
        call_ensures(require_no_runtime, (inside_runtime,), started),
    ensures
        unchecked is Ok <==> request@.generation is Some,
        checked is Ok,
        bound@.generation == Some(generation),
        bound@.collection_id == request@.collection_id && bound@.url == request@.url
            && bound@.digest == request@.digest && bound@.database == request@.database
            && bound@.acquisition == request@.acquisition && bound@.parser == request@.parser,
        started is Ok <==> !inside_runtime,
{
}

/// The cache of dumps is a directory that only its owner can use; anything else is refused, and
/// what is missing is created.
pub proof fn law_dump_cache_is_private(
    entry: CacheEntry,
    inspected: Result<CacheStep, OperationError>,
    created: Result<(), OperationError>,
)
    requires
        call_ensures(inspect_cache_entry, (&entry,), inspected),
        call_ensures(inspect_created_entry, (&entry,), created),
    ensures
        inspected == Ok::<CacheStep, OperationError>(CacheStep::Create) <==> entry is Missing,
        inspected == Ok::<CacheStep, OperationError>(CacheStep::Keep) <==> (
        entry matches CacheEntry::Directory { mode } && mode & 0o077 == 0),
        created is Ok <==> entry is Directory,
{
}

/// A request stays within the service bounds: its texts are short, no ceiling is zero or above
/// what the service allows, one artifact fits the whole transfer and one text its page.
pub proof fn law_requests_stay_within_service_bounds(
    request: CurrentDumpBootstrapRequest,
    acquisition: DumpAcquisitionLimits,
    parser: DumpLimits,
    r: Result<CurrentDumpBootstrapRequest, OperationError>,
)
    requires
        call_ensures(CurrentDumpBootstrapRequest::with_limits, (request, acquisition, parser), r),
    ensures
        r is Ok <==> {
            &&& text_bytes(request@.url) <= 4_096 && text_bytes(request@.database) <= 64
            &&& 1 <= acquisition.max_index_bytes <= 16_777_216
            &&& 1 <= acquisition.max_artifact_bytes <= 549_755_813_888
            &&& 1 <= acquisition.max_total_artifact_bytes <= 2_199_023_255_552
            &&& acquisition.max_artifact_bytes <= acquisition.max_total_artifact_bytes
            &&& 1 <= acquisition.max_artifacts <= 256
            &&& 1 <= acquisition.max_elapsed_seconds <= 86_400
            &&& 1 <= parser.max_compressed_bytes <= 2_199_023_255_552
            &&& 1 <= parser.max_decompressed_bytes <= 8_796_093_022_208
            &&& 1 <= parser.max_pages <= 100_000_000
            &&& 1 <= parser.max_page_xml_bytes <= 134_217_728
            &&& 1 <= parser.max_text_bytes <= 67_108_864
            &&& parser.max_text_bytes <= parser.max_page_xml_bytes
            &&& 1 <= parser.max_metadata_field_bytes <= 65_536
            &&& 1 <= parser.max_siteinfo_bytes <= 4_194_304
            &&& 1 <= parser.max_namespaces <= 1_024
        },
        r matches Ok(limited) ==> limited@.acquisition == acquisition && limited@.parser == parser
            && limited@.collection_id == request@.collection_id && limited@.url == request@.url
            && limited@.digest == request@.digest && limited@.database == request@.database
            && limited@.generation == request@.generation,
{
}

/// A digest is exactly 64 hexadecimal digits; upper and lower case name the same one, and it is
/// told in lower case.
pub proof fn law_digest_is_hexadecimal(
    text: &str,
    r: Result<DumpDigest, &'static str>,
)
    requires
        call_ensures(DumpDigest::from_hex, (text,), r),
    ensures
        r is Ok <==> text@.len() == 64 && forall|i: int|
            0 <= i < 64 ==> {
                let c = #[trigger] text@[i];
                '0' <= c <= '9' || 'a' <= c <= 'f' || 'A' <= c <= 'F'
            },
        r matches Ok(digest) ==> digest@.len() == 64 && forall|i: int|
            0 <= i < 64 ==> {
                let c = text@[i];
                (#[trigger] digest@[i]) as u32 == if 'A' <= c <= 'F' {
                    c as u32 + 32
                } else {
                    c as u32 as int
                }
            },
{
    if text@.len() == 64 && (forall|i: int|
        0 <= i < 64 ==> {
            let c = #[trigger] text@[i];
            '0' <= c <= '9' || 'a' <= c <= 'f' || 'A' <= c <= 'F'
        }) {
        assert forall|i: int| 0 <= i < text@.len() implies is_hex_digit(#[trigger] text@[i]) by {}
    }
    if r is Ok {
        assert forall|i: int| 0 <= i < 64 implies is_hex_digit(#[trigger] text@[i]) by {}
    }
}

} // verus!
