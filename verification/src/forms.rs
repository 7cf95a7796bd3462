//! Forms in which people state a collection, a schedule and a network policy.
//!
//! Every field of a form is the text that was typed. Reading a form gives the value it
//! states or the message that tells what to correct.

use vstd::prelude::*;
use vstd::string::*;

use crate::labels::{clock, clock_text, image_policy_summary, image_text};
use crate::model::{
    thumbnail_error, valid_cadence, valid_network, valid_title, BudgetView, CadenceView,
    CollectionBudget, CollectionId, CollectionRemovalPolicy, CollectionRule, HistoryPolicy,
    HistoryView, ImagePolicy, ImageView, ModelError, NetworkTransferPolicy, NetworkView, PageTitle,
    RuleView, ScheduleCadence, ThumbnailPolicy, ThumbnailView, TitleSelection, UnixTimestamp,
    DEFAULT_MAX_CATEGORY_DEPTH,
};
use crate::stored::{
    CollectionSchedule, ConfigurationView, SettingsView, StoredCollectionConfiguration, StoredWiki,
    WikiView,
};
use crate::text::{
    chars_of, decimal, decimal_text, find_char, parse_signed, parse_unsigned, position_of,
    signed_decimal, signed_decimal_text, signed_value, text_of, trim, trimmed, unsigned_value,
};

verus! {

/// How the pages of a collection are stated.
#[derive(Clone, Copy, Debug, PartialEq, Eq, Structural)]
pub enum SelectionMode {
    Titles,
    TitleList,
    Category,
}

/// How the retained history is stated.
#[derive(Clone, Copy, Debug, PartialEq, Eq, Structural)]
pub enum HistoryMode {
    CurrentAndFuture,
    LastN,
    Since,
    Complete,
}

/// Whether images are acquired.
#[derive(Clone, Copy, Debug, PartialEq, Eq, Structural)]
pub enum ImageMode {
    Off,
    Thumbnails,
}

/// How a schedule is stated.
#[derive(Clone, Copy, Debug, PartialEq, Eq, Structural)]
pub enum ScheduleMode {
    Manual,
    Interval,
    DailyUtc,
}

/// A schedule that was read from a form.
#[derive(Clone, Copy, Debug, PartialEq, Eq, Structural)]
pub struct ScheduleSettings {
    pub cadence: ScheduleCadence,
    pub jitter_seconds: u32,
    pub paused: bool,
}

impl View for ScheduleSettings {
    type V = SettingsView;

    open spec fn view(&self) -> SettingsView {
        SettingsView {
            cadence: self.cadence@,
            jitter_seconds: self.jitter_seconds,
            paused: self.paused,
        }
    }
}

/// What a read of a form gives.
pub type Stated<V> = Result<V, Seq<char>>;

/// A read of a form returned what it states.
pub open spec fn states<T: View>(result: Result<T, String>, expected: Stated<T::V>) -> bool {
    match result {
        Ok(value) => expected == Ok::<T::V, Seq<char>>(value@),
        Err(message) => expected == Err::<T::V, Seq<char>>(message@),
    }
}

/// The schedule interval that a text states in minutes.
pub open spec fn stated_interval(value: Seq<char>) -> Stated<CadenceView> {
    match unsigned_value(trimmed(value), u32::MAX as nat) {
        None => Err("Interval schedule requires a positive number of minutes."@),
        Some(minutes) => if minutes * 60 > u32::MAX {
            Err("Schedule interval is too large."@)
        } else if !valid_cadence(CadenceView::Interval((minutes * 60) as u32)) {
            Err(ModelError::ScheduleOutOfRange.text())
        } else {
            Ok(CadenceView::Interval((minutes * 60) as u32))
        },
    }
}

/// The time of day that a text states in hours and minutes.
pub open spec fn stated_time(value: Seq<char>) -> Stated<CadenceView> {
    let text = trimmed(value);
    let colon = position_of(text, ':');
    if colon >= text.len() {
        Err("Daily UTC schedule must use HH:MM."@)
    } else {
        match unsigned_value(text.subrange(0, colon), u32::MAX as nat) {
            None => Err("Daily UTC hour must be between 00 and 23."@),
            Some(hours) => match unsigned_value(
                text.subrange(colon + 1, text.len() as int),
                u32::MAX as nat,
            ) {
                None => Err("Daily UTC minute must be between 00 and 59."@),
                Some(minutes) => if hours >= 24 || minutes >= 60 {
                    Err("Daily UTC schedule must use a time from 00:00 to 23:59."@)
                } else {
                    Ok(CadenceView::DailyUtc((hours * 3_600 + minutes * 60) as u32))
                },
            },
        }
    }
}

/// The cadence that a form states, given its jitter.
pub open spec fn stated_cadence(mode: ScheduleMode, value: Seq<char>, jitter: nat) -> Stated<
    CadenceView,
> {
    match mode {
        ScheduleMode::Manual => if jitter != 0 {
            Err("Manual schedules cannot have jitter."@)
        } else {
            Ok(CadenceView::Manual)
        },
        ScheduleMode::Interval => stated_interval(value),
        ScheduleMode::DailyUtc => stated_time(value),
    }
}

/// The schedule that a form states.
pub open spec fn stated_schedule(
    mode: ScheduleMode,
    value: Seq<char>,
    jitter_minutes: Seq<char>,
    paused: bool,
) -> Stated<SettingsView> {
    match unsigned_value(trimmed(jitter_minutes), u32::MAX as nat) {
        None => Err("Schedule jitter must be a non-negative number of minutes."@),
        Some(minutes) => if minutes * 60 > u32::MAX {
            Err("Schedule jitter is too large."@)
        } else {
            match stated_cadence(mode, value, minutes * 60) {
                Err(message) => Err(message),
                Ok(cadence) => if cadence matches CadenceView::Interval(seconds) && minutes * 60
                    > seconds {
                    Err("Schedule jitter cannot exceed the interval."@)
                } else if minutes * 60 > 86_400 {
                    Err("Schedule jitter cannot exceed 1,440 minutes."@)
                } else {
                    Ok(SettingsView { cadence, jitter_seconds: (minutes * 60) as u32, paused })
                },
            }
        },
    }
}

fn parse_interval(value: &str) -> (r: Result<ScheduleCadence, String>)
    ensures
        states(r, stated_interval(value@)),
{
    let minutes: u64 = match parse_unsigned(trim(value).as_str(), 0xffff_ffff) {
        Some(minutes) => minutes,
        None => return Err("Interval schedule requires a positive number of minutes.".to_owned()),
    };
    let seconds: u64 = minutes * 60;
    if seconds > 0xffff_ffff {
        return Err("Schedule interval is too large.".to_owned());
    }
    match ScheduleCadence::interval(seconds as u32) {
        Ok(cadence) => Ok(cadence),
        Err(error) => Err(error.message().to_owned()),
    }
}

fn parse_time(value: &str) -> (r: Result<ScheduleCadence, String>)
    ensures
        states(r, stated_time(value@)),
{
    let text = trim(value);
    let chars = chars_of(text.as_str());
    let colon: usize = find_char(&chars, 0, chars.len(), ':');
    proof {
        assert(chars@.subrange(0, chars@.len() as int) =~= chars@);
    }
    if colon >= chars.len() {
        return Err("Daily UTC schedule must use HH:MM.".to_owned());
    }
    let hours: u64 = match parse_unsigned(text_of(&chars, 0, colon).as_str(), 0xffff_ffff) {
        Some(hours) => hours,
        None => return Err("Daily UTC hour must be between 00 and 23.".to_owned()),
    };
    let minutes: u64 = match parse_unsigned(
        text_of(&chars, colon + 1, chars.len()).as_str(),
        0xffff_ffff,
    ) {
        Some(minutes) => minutes,
        None => return Err("Daily UTC minute must be between 00 and 59.".to_owned()),
    };
    if hours >= 24 || minutes >= 60 {
        return Err("Daily UTC schedule must use a time from 00:00 to 23:59.".to_owned());
    }
    match ScheduleCadence::daily_utc((hours * 3_600 + minutes * 60) as u32) {
        Ok(cadence) => Ok(cadence),
        Err(error) => Err(error.message().to_owned()),
    }
}

/// Reads a schedule.
pub fn parse_schedule_settings(
    mode: ScheduleMode,
    value: &str,
    jitter_minutes: &str,
    paused: bool,
) -> (r: Result<ScheduleSettings, String>)
    ensures
        states(r, stated_schedule(mode, value@, jitter_minutes@, paused)),
{
    let minutes: u64 = match parse_unsigned(trim(jitter_minutes).as_str(), 0xffff_ffff) {
        Some(minutes) => minutes,
        None => return Err(
            "Schedule jitter must be a non-negative number of minutes.".to_owned(),
        ),
    };
    let jitter: u64 = minutes * 60;
    if jitter > 0xffff_ffff {
        return Err("Schedule jitter is too large.".to_owned());
    }
    let cadence = match mode {
        ScheduleMode::Manual => {
            if jitter != 0 {
                return Err("Manual schedules cannot have jitter.".to_owned());
            }
            ScheduleCadence::Manual
        },
        ScheduleMode::Interval => parse_interval(value)?,
        ScheduleMode::DailyUtc => parse_time(value)?,
    };
    if let ScheduleCadence::Interval(interval) = cadence {
        if jitter > interval.seconds() as u64 {
            return Err("Schedule jitter cannot exceed the interval.".to_owned());
        }
    }
    if jitter > 86_400 {
        return Err("Schedule jitter cannot exceed 1,440 minutes.".to_owned());
    }
    Ok(ScheduleSettings { cadence, jitter_seconds: jitter as u32, paused })
}

/// What is asked for in the value field of a schedule.
pub fn schedule_value_hint(mode: ScheduleMode) -> (hint: &'static str)
    ensures
        hint@ == match mode {
            ScheduleMode::Manual => "No automatic schedule"@,
            ScheduleMode::Interval => "Interval in minutes (1–527040)"@,
            ScheduleMode::DailyUtc => "Daily UTC time (HH:MM)"@,
        },
{
    match mode {
        ScheduleMode::Manual => "No automatic schedule",
        ScheduleMode::Interval => "Interval in minutes (1–527040)",
        ScheduleMode::DailyUtc => "Daily UTC time (HH:MM)",
    }
}

/// A schedule under edit.
#[derive(Debug, PartialEq, Eq)]
pub struct ScheduleEditor {
    pub collection_id: CollectionId,
    pub mode: ScheduleMode,
    pub value: String,
    pub jitter_minutes: String,
    pub paused: bool,
}

/// Plain view of a schedule under edit.
pub struct ScheduleEditorView {
    pub collection_id: u64,
    pub mode: ScheduleMode,
    pub value: Seq<char>,
    pub jitter_minutes: Seq<char>,
    pub paused: bool,
}

impl View for ScheduleEditor {
    type V = ScheduleEditorView;

    open spec fn view(&self) -> ScheduleEditorView {
        ScheduleEditorView {
            collection_id: self.collection_id@,
            mode: self.mode,
            value: self.value@,
            jitter_minutes: self.jitter_minutes@,
            paused: self.paused,
        }
    }
}

/// How a stored schedule is shown for editing.
pub open spec fn edited_schedule(collection_id: u64, schedule: SettingsView) -> ScheduleEditorView {
    ScheduleEditorView {
        collection_id,
        mode: match schedule.cadence {
            CadenceView::Manual => ScheduleMode::Manual,
            CadenceView::Interval(_) => ScheduleMode::Interval,
            CadenceView::DailyUtc(_) => ScheduleMode::DailyUtc,
        },
        value: match schedule.cadence {
            CadenceView::Manual => ""@,
            CadenceView::Interval(seconds) => decimal(seconds as nat / 60),
            CadenceView::DailyUtc(seconds) => clock(seconds as nat),
        },
        jitter_minutes: decimal(schedule.jitter_seconds as nat / 60),
        paused: schedule.paused,
    }
}

impl ScheduleEditor {
    /// Shows a stored schedule for editing.
    pub fn from_schedule(collection_id: CollectionId, schedule: CollectionSchedule) -> (editor:
        ScheduleEditor)
        ensures
            editor@ == edited_schedule(collection_id@, schedule.settings()),
    {
        let (mode, value) = match schedule.cadence {
            ScheduleCadence::Manual => (ScheduleMode::Manual, "".to_owned()),
            ScheduleCadence::Interval(interval) => (
                ScheduleMode::Interval,
                decimal_text((interval.seconds() / 60) as u64),
            ),
            ScheduleCadence::DailyUtc(time) => (
                ScheduleMode::DailyUtc,
                clock_text(time.seconds_after_midnight()),
            ),
        };
        ScheduleEditor {
            collection_id,
            mode,
            value,
            jitter_minutes: decimal_text((schedule.jitter_seconds / 60) as u64),
            paused: schedule.paused,
        }
    }

    /// Reads the edited schedule.
    pub fn settings(&self) -> (r: Result<ScheduleSettings, String>)
        ensures
            states(
                r,
                stated_schedule(
                    self@.mode,
                    self@.value,
                    self@.jitter_minutes,
                    self@.paused,
                ),
            ),
    {
        parse_schedule_settings(
            self.mode,
            self.value.as_str(),
            self.jitter_minutes.as_str(),
            self.paused,
        )
    }
}

/// A network policy under edit.
#[derive(Debug, PartialEq, Eq)]
pub struct NetworkPolicyEditor {
    pub max_concurrent_requests: String,
    pub max_download_bytes_per_second: String,
    pub avoid_metered_networks: bool,
}

/// Plain view of a network policy under edit.
pub struct NetworkEditorView {
    pub max_concurrent_requests: Seq<char>,
    pub max_download_bytes_per_second: Seq<char>,
    pub avoid_metered_networks: bool,
}

impl View for NetworkPolicyEditor {
    type V = NetworkEditorView;

    open spec fn view(&self) -> NetworkEditorView {
        NetworkEditorView {
            max_concurrent_requests: self.max_concurrent_requests@,
            max_download_bytes_per_second: self.max_download_bytes_per_second@,
            avoid_metered_networks: self.avoid_metered_networks,
        }
    }
}

/// A number, or an empty text where there is none.
pub open spec fn optional_decimal(value: Option<u64>) -> Seq<char> {
    match value {
        Some(value) => decimal(value as nat),
        None => ""@,
    }
}

fn optional_decimal_text(value: Option<u64>) -> (s: String)
    ensures
        s@ == optional_decimal(value),
{
    match value {
        Some(value) => decimal_text(value),
        None => "".to_owned(),
    }
}

/// How a network policy is shown for editing.
pub open spec fn edited_network(policy: NetworkView) -> NetworkEditorView {
    NetworkEditorView {
        max_concurrent_requests: decimal(policy.max_concurrent_requests as nat),
        max_download_bytes_per_second: optional_decimal(policy.max_download_bytes_per_second),
        avoid_metered_networks: policy.avoid_metered_networks,
    }
}

/// The rate that a text states; a blank one states none.
pub open spec fn stated_rate(text: Seq<char>) -> Stated<Option<u64>> {
    if trimmed(text).len() == 0 {
        Ok(None)
    } else {
        match unsigned_value(trimmed(text), u64::MAX as nat) {
            None => Err(
                "Maximum downloaded bytes/second must be a positive integer or blank."@,
            ),
            Some(rate) => Ok(Some(rate as u64)),
        }
    }
}

/// The network policy that an editor states.
pub open spec fn stated_network(editor: NetworkEditorView) -> Stated<NetworkView> {
    match unsigned_value(trimmed(editor.max_concurrent_requests), u32::MAX as nat) {
        None => Err("Maximum concurrent requests must be a positive integer."@),
        Some(requests) => match stated_rate(editor.max_download_bytes_per_second) {
            Err(message) => Err(message),
            Ok(rate) => {
                let policy = NetworkView {
                    max_concurrent_requests: requests as u32,
                    max_download_bytes_per_second: rate,
                    avoid_metered_networks: editor.avoid_metered_networks,
                };
                if valid_network(policy) {
                    Ok(policy)
                } else {
                    Err(ModelError::ZeroLimit.text())
                }
            },
        },
    }
}

impl NetworkPolicyEditor {
    /// Shows a policy for editing.
    pub fn from_policy(policy: NetworkTransferPolicy) -> (editor: NetworkPolicyEditor)
        ensures
            editor@ == edited_network(policy@),
    {
        NetworkPolicyEditor {
            max_concurrent_requests: decimal_text(policy.max_concurrent_requests() as u64),
            max_download_bytes_per_second: optional_decimal_text(
                policy.max_download_bytes_per_second(),
            ),
            avoid_metered_networks: policy.avoid_metered_networks(),
        }
    }

    /// Reads the edited policy.
    pub fn policy(&self) -> (r: Result<NetworkTransferPolicy, String>)
        ensures
            states(r, stated_network(self@)),
    {
        let requests: u64 = match parse_unsigned(
            trim(self.max_concurrent_requests.as_str()).as_str(),
            0xffff_ffff,
        ) {
            Some(requests) => requests,
            None => return Err("Maximum concurrent requests must be a positive integer.".to_owned()),
        };
        let text = trim(self.max_download_bytes_per_second.as_str());
        let rate: Option<u64> = if text.as_str().unicode_len() == 0 {
            None
        } else {
            match parse_unsigned(text.as_str(), u64::MAX) {
                Some(rate) => Some(rate),
                None => return Err(
                    "Maximum downloaded bytes/second must be a positive integer or blank.".to_owned(),
                ),
            }
        };
        match NetworkTransferPolicy::new(requests as u32, rate, self.avoid_metered_networks) {
            Ok(policy) => Ok(policy),
            Err(error) => Err(error.message().to_owned()),
        }
    }
}

/// A collection as people state it.
#[derive(Debug, PartialEq, Eq)]
pub struct CollectionForm {
    pub name: String,
    pub language_code: String,
    pub api_endpoint: String,
    pub selection_mode: SelectionMode,
    pub selection: String,
    pub category_depth: String,
    pub history_mode: HistoryMode,
    pub history_value: String,
    pub maximum_pages: String,
    pub maximum_bytes: String,
    pub removal_policy: CollectionRemovalPolicy,
    pub image_mode: ImageMode,
    pub thumbnail_max_edge_pixels: String,
    pub thumbnail_max_images_per_revision: String,
    pub thumbnail_max_bytes_per_image: String,
    pub schedule_mode: ScheduleMode,
    pub schedule_value: String,
    pub schedule_jitter_minutes: String,
    pub schedule_paused: bool,
}

/// Plain view of a collection form.
pub struct FormView {
    pub name: Seq<char>,
    pub language_code: Seq<char>,
    pub api_endpoint: Seq<char>,
    pub selection_mode: SelectionMode,
    pub selection: Seq<char>,
    pub category_depth: Seq<char>,
    pub history_mode: HistoryMode,
    pub history_value: Seq<char>,
    pub maximum_pages: Seq<char>,
    pub maximum_bytes: Seq<char>,
    pub removal_policy: CollectionRemovalPolicy,
    pub image_mode: ImageMode,
    pub thumbnail_max_edge_pixels: Seq<char>,
    pub thumbnail_max_images_per_revision: Seq<char>,
    pub thumbnail_max_bytes_per_image: Seq<char>,
    pub schedule_mode: ScheduleMode,
    pub schedule_value: Seq<char>,
    pub schedule_jitter_minutes: Seq<char>,
    pub schedule_paused: bool,
}

impl View for CollectionForm {
    type V = FormView;

    open spec fn view(&self) -> FormView {
        FormView {
            name: self.name@,
            language_code: self.language_code@,
            api_endpoint: self.api_endpoint@,
            selection_mode: self.selection_mode,
            selection: self.selection@,
            category_depth: self.category_depth@,
            history_mode: self.history_mode,
            history_value: self.history_value@,
            maximum_pages: self.maximum_pages@,
            maximum_bytes: self.maximum_bytes@,
            removal_policy: self.removal_policy,
            image_mode: self.image_mode,
            thumbnail_max_edge_pixels: self.thumbnail_max_edge_pixels@,
            thumbnail_max_images_per_revision: self.thumbnail_max_images_per_revision@,
            thumbnail_max_bytes_per_image: self.thumbnail_max_bytes_per_image@,
            schedule_mode: self.schedule_mode,
            schedule_value: self.schedule_value@,
            schedule_jitter_minutes: self.schedule_jitter_minutes@,
            schedule_paused: self.schedule_paused,
        }
    }
}

impl Clone for CollectionForm {
    fn clone(&self) -> (copy: Self)
        ensures
            copy@ == self@,
    {
        CollectionForm {
            name: self.name.clone(),
            language_code: self.language_code.clone(),
            api_endpoint: self.api_endpoint.clone(),
            selection_mode: self.selection_mode,
            selection: self.selection.clone(),
            category_depth: self.category_depth.clone(),
            history_mode: self.history_mode,
            history_value: self.history_value.clone(),
            maximum_pages: self.maximum_pages.clone(),
            maximum_bytes: self.maximum_bytes.clone(),
            removal_policy: self.removal_policy,
            image_mode: self.image_mode,
            thumbnail_max_edge_pixels: self.thumbnail_max_edge_pixels.clone(),
            thumbnail_max_images_per_revision: self.thumbnail_max_images_per_revision.clone(),
            thumbnail_max_bytes_per_image: self.thumbnail_max_bytes_per_image.clone(),
            schedule_mode: self.schedule_mode,
            schedule_value: self.schedule_value.clone(),
            schedule_jitter_minutes: self.schedule_jitter_minutes.clone(),
            schedule_paused: self.schedule_paused,
        }
    }
}

/// The form before anything was typed.
pub open spec fn blank_form(thumbnails: ThumbnailView) -> FormView {
    FormView {
        name: ""@,
        language_code: "en"@,
        api_endpoint: "https://en.wikipedia.org/w/api.php"@,
        selection_mode: SelectionMode::Titles,
        selection: ""@,
        category_depth: "0"@,
        history_mode: HistoryMode::CurrentAndFuture,
        history_value: ""@,
        maximum_pages: "10000"@,
        maximum_bytes: ""@,
        removal_policy: CollectionRemovalPolicy::StopTrackingRetainHistory,
        image_mode: ImageMode::Off,
        thumbnail_max_edge_pixels: decimal(thumbnails.maximum_edge_pixels as nat),
        thumbnail_max_images_per_revision: decimal(thumbnails.maximum_images_per_revision as nat),
        thumbnail_max_bytes_per_image: decimal(thumbnails.maximum_bytes_per_image as nat),
        schedule_mode: ScheduleMode::Manual,
        schedule_value: ""@,
        schedule_jitter_minutes: "0"@,
        schedule_paused: false,
    }
}

/// The bounds that are offered before any were chosen.
pub open spec fn default_thumbnails() -> ThumbnailView {
    ThumbnailView {
        maximum_edge_pixels: 640,
        maximum_images_per_revision: 8,
        maximum_bytes_per_image: 1_048_576,
    }
}

impl Default for CollectionForm {
    fn default() -> (form: Self)
        ensures
            form@ == blank_form(default_thumbnails()),
    {
        let thumbnails = ThumbnailPolicy::default();
        CollectionForm {
            name: "".to_owned(),
            language_code: "en".to_owned(),
            api_endpoint: "https://en.wikipedia.org/w/api.php".to_owned(),
            selection_mode: SelectionMode::Titles,
            selection: "".to_owned(),
            category_depth: "0".to_owned(),
            history_mode: HistoryMode::CurrentAndFuture,
            history_value: "".to_owned(),
            maximum_pages: "10000".to_owned(),
            maximum_bytes: "".to_owned(),
            removal_policy: CollectionRemovalPolicy::StopTrackingRetainHistory,
            image_mode: ImageMode::Off,
            thumbnail_max_edge_pixels: decimal_text(thumbnails.maximum_edge_pixels().get() as u64),
            thumbnail_max_images_per_revision: decimal_text(
                thumbnails.maximum_images_per_revision().get() as u64,
            ),
            thumbnail_max_bytes_per_image: decimal_text(thumbnails.maximum_bytes_per_image().get()),
            schedule_mode: ScheduleMode::Manual,
            schedule_value: "".to_owned(),
            schedule_jitter_minutes: "0".to_owned(),
            schedule_paused: false,
        }
    }
}

/// The rule that a form states; `titles` is what the selection states as a title list.
pub open spec fn stated_rule(form: FormView, titles: Stated<Seq<Seq<char>>>) -> Stated<RuleView> {
    match form.selection_mode {
        SelectionMode::Titles => match titles {
            Ok(titles) => Ok(RuleView::ExplicitTitles(titles)),
            Err(message) => Err(message),
        },
        SelectionMode::TitleList => match titles {
            Ok(titles) => Ok(RuleView::TitleList(titles)),
            Err(message) => Err(message),
        },
        SelectionMode::Category => if !valid_title(form.selection) {
            Err(ModelError::BlankTitle.text())
        } else {
            match unsigned_value(trimmed(form.category_depth), u16::MAX as nat) {
                None => Err("Category depth must be an integer from 0 to 16."@),
                Some(depth) => if depth > DEFAULT_MAX_CATEGORY_DEPTH {
                    Err("Category depth must be an integer from 0 to 16."@)
                } else {
                    Ok(
                        RuleView::Category {
                            title: form.selection,
                            recursion_depth: depth as u16,
                        },
                    )
                },
            }
        },
    }
}

/// The history policy that a form states.
pub open spec fn stated_history(form: FormView) -> Stated<HistoryView> {
    match form.history_mode {
        HistoryMode::CurrentAndFuture => Ok(HistoryView::CurrentAndFuture),
        HistoryMode::Complete => Ok(HistoryView::Complete),
        HistoryMode::LastN => match unsigned_value(trimmed(form.history_value), u32::MAX as nat) {
            None => Err("Last-N history requires a positive revision count."@),
            Some(count) => if count == 0 {
                Err(ModelError::ZeroLimit.text())
            } else {
                Ok(HistoryView::LastN(count as u32))
            },
        },
        HistoryMode::Since => match signed_value(trimmed(form.history_value)) {
            None => Err("Since history requires Unix seconds in UTC."@),
            Some(seconds) => Ok(HistoryView::Since(seconds as i64)),
        },
    }
}

/// The limit that a text states; a blank one states none.
pub open spec fn stated_limit(text: Seq<char>, message: Seq<char>) -> Stated<Option<u64>> {
    if trimmed(text).len() == 0 {
        Ok(None)
    } else {
        match unsigned_value(trimmed(text), u64::MAX as nat) {
            None => Err(message),
            Some(limit) => if limit == 0 {
                Err(ModelError::ZeroLimit.text())
            } else {
                Ok(Some(limit as u64))
            },
        }
    }
}

/// The budget that a form states.
pub open spec fn stated_budget(form: FormView) -> Stated<BudgetView> {
    match stated_limit(form.maximum_pages, "Maximum pages must be a positive integer."@) {
        Err(message) => Err(message),
        Ok(maximum_pages) => match stated_limit(
            form.maximum_bytes,
            "Maximum bytes must be a positive integer."@,
        ) {
            Err(message) => Err(message),
            Ok(maximum_bytes) => Ok(BudgetView { maximum_pages, maximum_bytes }),
        },
    }
}

/// The image policy that a form states.
pub open spec fn stated_images(form: FormView) -> Stated<ImageView> {
    match form.image_mode {
        ImageMode::Off => Ok(ImageView::Off),
        ImageMode::Thumbnails => match unsigned_value(
            trimmed(form.thumbnail_max_edge_pixels),
            u32::MAX as nat,
        ) {
            None => Err("Thumbnail edge must be a positive pixel count."@),
            Some(edge) => match unsigned_value(
                trimmed(form.thumbnail_max_images_per_revision),
                u32::MAX as nat,
            ) {
                None => Err("Thumbnail count must be a positive number per revision."@),
                Some(images) => match unsigned_value(
                    trimmed(form.thumbnail_max_bytes_per_image),
                    u64::MAX as nat,
                ) {
                    None => Err("Thumbnail byte limit must be a positive number per image."@),
                    Some(bytes) => match thumbnail_error(edge as u32, images as u32, bytes as u64) {
                        Some(error) => Err(error.text()),
                        None => Ok(
                            ImageView::Thumbnails(
                                ThumbnailView {
                                    maximum_edge_pixels: edge as u32,
                                    maximum_images_per_revision: images as u32,
                                    maximum_bytes_per_image: bytes as u64,
                                },
                            ),
                        ),
                    },
                },
            },
        },
    }
}

/// Titles with a line break between each two.
pub open spec fn lines(titles: Seq<Seq<char>>) -> Seq<char>
    decreases titles.len(),
{
    if titles.len() == 0 {
        ""@
    } else if titles.len() == 1 {
        titles[0]
    } else {
        lines(titles.drop_last()) + "\n"@ + titles.last()
    }
}

fn title_lines(titles: &TitleSelection) -> (s: String)
    ensures
        s@ == lines(titles@),
{
    let count: usize = titles.len();
    let mut s = titles.get(0).as_str().to_owned();
    let mut i: usize = 1;
    proof {
        assert(titles@.take(1)[0] == titles@[0]);
    }
    while i < count
        invariant
            1 <= i <= count,
            count == titles@.len(),
            s@ == lines(titles@.take(i as int)),
        decreases count - i,
    {
        s.append("\n");
        s.append(titles.get(i).as_str());
        proof {
            assert(titles@.take(i + 1).drop_last() =~= titles@.take(i as int));
        }
        i = i + 1;
    }
    proof {
        assert(titles@.take(i as int) =~= titles@);
    }
    s
}

/// How a configuration is shown for editing.
pub open spec fn edited_configuration(
    configuration: ConfigurationView,
    wiki: WikiView,
    schedule: Option<SettingsView>,
) -> FormView {
    let set = match schedule {
        Some(schedule) => schedule,
        None => SettingsView { cadence: CadenceView::Manual, jitter_seconds: 0, paused: false },
    };
    let editor = edited_schedule(configuration.collection_id, set);
    let thumbnails = match configuration.image_policy {
        ImageView::Off => default_thumbnails(),
        ImageView::Thumbnails(policy) => policy,
    };
    FormView {
        name: configuration.name,
        language_code: wiki.language_code,
        api_endpoint: wiki.api_endpoint,
        selection_mode: match configuration.rule {
            RuleView::TitleList(_) => SelectionMode::TitleList,
            RuleView::Category { title, recursion_depth } => SelectionMode::Category,
            _ => SelectionMode::Titles,
        },
        selection: match configuration.rule {
            RuleView::ExplicitTitles(titles) => lines(titles),
            RuleView::TitleList(titles) => lines(titles),
            RuleView::Category { title, recursion_depth } => title,
            RuleView::WholeMainNamespace => ""@,
        },
        category_depth: match configuration.rule {
            RuleView::Category { title, recursion_depth } => decimal(recursion_depth as nat),
            _ => "0"@,
        },
        history_mode: match configuration.history_policy {
            HistoryView::CurrentAndFuture => HistoryMode::CurrentAndFuture,
            HistoryView::LastN(_) => HistoryMode::LastN,
            HistoryView::Since(_) => HistoryMode::Since,
            HistoryView::Complete => HistoryMode::Complete,
        },
        history_value: match configuration.history_policy {
            HistoryView::LastN(count) => decimal(count as nat),
            HistoryView::Since(seconds) => signed_decimal(seconds as int),
            _ => ""@,
        },
        maximum_pages: optional_decimal(configuration.budget.maximum_pages),
        maximum_bytes: optional_decimal(configuration.budget.maximum_bytes),
        removal_policy: configuration.removal_policy,
        image_mode: match configuration.image_policy {
            ImageView::Off => ImageMode::Off,
            ImageView::Thumbnails(_) => ImageMode::Thumbnails,
        },
        thumbnail_max_edge_pixels: decimal(thumbnails.maximum_edge_pixels as nat),
        thumbnail_max_images_per_revision: decimal(thumbnails.maximum_images_per_revision as nat),
        thumbnail_max_bytes_per_image: decimal(thumbnails.maximum_bytes_per_image as nat),
        schedule_mode: editor.mode,
        schedule_value: editor.value,
        schedule_jitter_minutes: editor.jitter_minutes,
        schedule_paused: editor.paused,
    }
}

fn parse_limit(text: &str, message: &str) -> (r: Result<Option<u64>, String>)
    ensures
        match r {
            Ok(limit) => stated_limit(text@, message@) == Ok::<Option<u64>, Seq<char>>(limit)
                && limit != Some(0u64),
            Err(error) => stated_limit(text@, message@) == Err::<Option<u64>, Seq<char>>(error@),
        },
{
    let text = trim(text);
    if text.as_str().unicode_len() == 0 {
        return Ok(None);
    }
    match parse_unsigned(text.as_str(), u64::MAX) {
        None => Err(message.to_owned()),
        Some(limit) => if limit == 0 {
            Err(ModelError::ZeroLimit.message().to_owned())
        } else {
            Ok(Some(limit))
        },
    }
}

/// The schedule of a collection, where it has one.
pub open spec fn settings_of(schedule: Option<CollectionSchedule>) -> Option<SettingsView> {
    match schedule {
        Some(schedule) => Some(schedule.settings()),
        None => None,
    }
}

impl CollectionForm {
    /// Shows a configuration for editing. A whole edition has no form.
    pub fn from_configuration(
        configuration: &StoredCollectionConfiguration,
        wiki: &StoredWiki,
        schedule: Option<CollectionSchedule>,
    ) -> (form: CollectionForm)
        requires
            configuration@.rule !is WholeMainNamespace,
        ensures
            form@ == edited_configuration(configuration@, wiki@, settings_of(schedule)),
    {
        let (selection_mode, selection, category_depth) = match &configuration.rule {
            CollectionRule::WholeMainNamespace => (
                SelectionMode::Titles,
                "".to_owned(),
                "0".to_owned(),
            ),
            CollectionRule::ExplicitTitles(titles) => (
                SelectionMode::Titles,
                title_lines(titles),
                "0".to_owned(),
            ),
            CollectionRule::TitleList(titles) => (
                SelectionMode::TitleList,
                title_lines(titles),
                "0".to_owned(),
            ),
            CollectionRule::Category { title, recursion_depth } => (
                SelectionMode::Category,
                title.as_str().to_owned(),
                decimal_text(*recursion_depth as u64),
            ),
        };
        let (history_mode, history_value) = match configuration.history_policy {
            HistoryPolicy::CurrentAndFuture => (HistoryMode::CurrentAndFuture, "".to_owned()),
            HistoryPolicy::LastN(count) => (HistoryMode::LastN, decimal_text(count.get() as u64)),
            HistoryPolicy::Since(timestamp) => (
                HistoryMode::Since,
                signed_decimal_text(timestamp.as_seconds()),
            ),
            HistoryPolicy::Complete => (HistoryMode::Complete, "".to_owned()),
        };
        let set = match schedule {
            Some(schedule) => schedule,
            None => CollectionSchedule {
                collection_id: configuration.collection_id,
                cadence: ScheduleCadence::Manual,
                jitter_seconds: 0,
                paused: false,
                next_run_at: None,
                last_started_at: None,
            },
        };
        let editor = ScheduleEditor::from_schedule(configuration.collection_id, set);
        let (image_mode, thumbnails) = match configuration.image_policy {
            ImagePolicy::Off => (ImageMode::Off, ThumbnailPolicy::default()),
            ImagePolicy::Thumbnails(policy) => (ImageMode::Thumbnails, policy),
        };
        let pages: Option<u64> = match configuration.budget.maximum_pages() {
            Some(pages) => Some(pages.get()),
            None => None,
        };
        let bytes: Option<u64> = match configuration.budget.maximum_bytes() {
            Some(bytes) => Some(bytes.get()),
            None => None,
        };
        CollectionForm {
            name: configuration.name.clone(),
            language_code: wiki.language_code.clone(),
            api_endpoint: wiki.api_endpoint.clone(),
            selection_mode,
            selection,
            category_depth,
            history_mode,
            history_value,
            maximum_pages: optional_decimal_text(pages),
            maximum_bytes: optional_decimal_text(bytes),
            removal_policy: configuration.removal_policy,
            image_mode,
            thumbnail_max_edge_pixels: decimal_text(thumbnails.maximum_edge_pixels().get() as u64),
            thumbnail_max_images_per_revision: decimal_text(
                thumbnails.maximum_images_per_revision().get() as u64,
            ),
            thumbnail_max_bytes_per_image: decimal_text(thumbnails.maximum_bytes_per_image().get()),
            schedule_mode: editor.mode,
            schedule_value: editor.value,
            schedule_jitter_minutes: editor.jitter_minutes,
            schedule_paused: editor.paused,
        }
    }

    /// Reads the rule, given what the selection states as a title list.
    pub fn rule(&self, titles: Result<TitleSelection, String>) -> (r: Result<
        CollectionRule,
        String,
    >)
        ensures
            states(
                r,
                stated_rule(
                    self@,
                    match titles {
                        Ok(titles) => Ok(titles@),
                        Err(message) => Err(message@),
                    },
                ),
            ),
    {
        match self.selection_mode {
            SelectionMode::Titles => match titles {
                Ok(titles) => Ok(CollectionRule::ExplicitTitles(titles)),
                Err(message) => Err(message),
            },
            SelectionMode::TitleList => match titles {
                Ok(titles) => Ok(CollectionRule::TitleList(titles)),
                Err(message) => Err(message),
            },
            SelectionMode::Category => {
                let title = match PageTitle::new(self.selection.as_str()) {
                    Ok(title) => title,
                    Err(error) => return Err(error.message().to_owned()),
                };
                match parse_unsigned(trim(self.category_depth.as_str()).as_str(), 0xffff) {
                    None => Err("Category depth must be an integer from 0 to 16.".to_owned()),
                    Some(depth) => if depth > DEFAULT_MAX_CATEGORY_DEPTH as u64 {
                        Err("Category depth must be an integer from 0 to 16.".to_owned())
                    } else {
                        Ok(CollectionRule::Category { title, recursion_depth: depth as u16 })
                    },
                }
            },
        }
    }

    /// Reads the history policy.
    pub fn history_policy(&self) -> (r: Result<HistoryPolicy, String>)
        ensures
            states(r, stated_history(self@)),
    {
        match self.history_mode {
            HistoryMode::CurrentAndFuture => Ok(HistoryPolicy::CurrentAndFuture),
            HistoryMode::Complete => Ok(HistoryPolicy::Complete),
            HistoryMode::LastN => {
                let count: u64 = match parse_unsigned(
                    trim(self.history_value.as_str()).as_str(),
                    0xffff_ffff,
                ) {
                    Some(count) => count,
                    None => return Err(
                        "Last-N history requires a positive revision count.".to_owned(),
                    ),
                };
                match HistoryPolicy::last_n(count as u32) {
                    Ok(policy) => Ok(policy),
                    Err(error) => Err(error.message().to_owned()),
                }
            },
            HistoryMode::Since => match parse_signed(trim(self.history_value.as_str()).as_str()) {
                Some(seconds) => Ok(HistoryPolicy::Since(UnixTimestamp::from_seconds(seconds))),
                None => Err("Since history requires Unix seconds in UTC.".to_owned()),
            },
        }
    }

    /// Reads the budget.
    pub fn budget(&self) -> (r: Result<CollectionBudget, String>)
        ensures
            states(r, stated_budget(self@)),
    {
        let mut budget = CollectionBudget::unlimited();
        let pages: Option<u64> = parse_limit(
            self.maximum_pages.as_str(),
            "Maximum pages must be a positive integer.",
        )?;
        if let Some(pages) = pages {
            budget =
            match budget.with_maximum_pages(pages) {
                Ok(budget) => budget,
                Err(error) => return Err(error.message().to_owned()),
            };
        }
        let bytes: Option<u64> = parse_limit(
            self.maximum_bytes.as_str(),
            "Maximum bytes must be a positive integer.",
        )?;
        if let Some(bytes) = bytes {
            budget =
            match budget.with_maximum_bytes(bytes) {
                Ok(budget) => budget,
                Err(error) => return Err(error.message().to_owned()),
            };
        }
        Ok(budget)
    }

    /// Reads the image policy.
    pub fn image_policy(&self) -> (r: Result<ImagePolicy, String>)
        ensures
            states(r, stated_images(self@)),
    {
        match self.image_mode {
            ImageMode::Off => Ok(ImagePolicy::Off),
            ImageMode::Thumbnails => {
                let edge: u64 = match parse_unsigned(
                    trim(self.thumbnail_max_edge_pixels.as_str()).as_str(),
                    0xffff_ffff,
                ) {
                    Some(edge) => edge,
                    None => return Err("Thumbnail edge must be a positive pixel count.".to_owned()),
                };
                let images: u64 = match parse_unsigned(
                    trim(self.thumbnail_max_images_per_revision.as_str()).as_str(),
                    0xffff_ffff,
                ) {
                    Some(images) => images,
                    None => return Err(
                        "Thumbnail count must be a positive number per revision.".to_owned(),
                    ),
                };
                let bytes: u64 = match parse_unsigned(
                    trim(self.thumbnail_max_bytes_per_image.as_str()).as_str(),
                    u64::MAX,
                ) {
                    Some(bytes) => bytes,
                    None => return Err(
                        "Thumbnail byte limit must be a positive number per image.".to_owned(),
                    ),
                };
                match ThumbnailPolicy::new(edge as u32, images as u32, bytes) {
                    Ok(policy) => Ok(ImagePolicy::Thumbnails(policy)),
                    Err(error) => Err(error.message().to_owned()),
                }
            },
        }
    }

    /// Reads the schedule.
    pub fn schedule(&self) -> (r: Result<ScheduleSettings, String>)
        ensures
            states(
                r,
                stated_schedule(
                    self@.schedule_mode,
                    self@.schedule_value,
                    self@.schedule_jitter_minutes,
                    self@.schedule_paused,
                ),
            ),
    {
        parse_schedule_settings(
            self.schedule_mode,
            self.schedule_value.as_str(),
            self.schedule_jitter_minutes.as_str(),
            self.schedule_paused,
        )
    }
}

/// What is shown under the image controls of a form.
pub fn image_policy_form_summary(form: &CollectionForm) -> (s: String)
    ensures
        s@ == match stated_images(form@) {
            Ok(policy) => "Configured image policy: "@ + image_text(policy),
            Err(message) => "Thumbnail limits are invalid: "@ + message,
        },
{
    match form.image_policy() {
        Ok(policy) => {
            let mut s = "Configured image policy: ".to_owned();
            s.append(image_policy_summary(policy).as_str());
            s
        },
        Err(message) => {
            let mut s = "Thumbnail limits are invalid: ".to_owned();
            s.append(message.as_str());
            s
        },
    }
}

/// Each kind of schedule asks for its own value.
pub proof fn law_schedule_kinds_ask_for_their_value(mode: ScheduleMode, hint: &'static str)
    requires
        call_ensures(schedule_value_hint, (mode,), hint),
    ensures
        mode is Manual ==> hint@ == "No automatic schedule"@,
        mode is Interval ==> hint@ == "Interval in minutes (1–527040)"@,
        mode is DailyUtc ==> hint@ == "Daily UTC time (HH:MM)"@,
{
}

} // verus!
