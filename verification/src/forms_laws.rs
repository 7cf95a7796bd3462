//! Showing a stored value in a form and reading the form gives the value back.

use vstd::prelude::*;
use vstd::string::*;

use crate::forms::{
    edited_configuration, edited_network, edited_schedule, optional_decimal,
    parse_schedule_settings, stated_budget, stated_history, stated_images, stated_limit,
    stated_network, stated_rule, stated_schedule, stated_time, CollectionForm, HistoryMode,
    ImageMode, NetworkPolicyEditor, ScheduleEditor, ScheduleMode, ScheduleSettings, SelectionMode,
};
use crate::labels::{clock, two_digits};
use crate::model::{
    thumbnail_error, valid_cadence, valid_network, valid_title, BudgetView, CadenceView,
    CollectionBudget, CollectionId, CollectionRule, HistoryPolicy, HistoryView, ImagePolicy,
    ImageView, NetworkTransferPolicy, NetworkView, RuleView, TitleSelection,
    DEFAULT_MAX_CATEGORY_DEPTH,
};
use crate::stored::{
    CollectionSchedule, ConfigurationView, SettingsView, StoredCollectionConfiguration, StoredWiki,
    WikiView,
};
use crate::text::{
    all_digits, decimal, decimal_value, digit_char, is_digit, is_white_space_spec,
    law_decimal_round_trip, law_only_white_space_trims_to_nothing, law_signed_decimal_round_trip,
    lemma_decimal, position_of, signed_decimal, trimmed, unsigned_value,
};

verus! {

proof fn lemma_trim_plain(s: Seq<char>)
    requires
        s.len() > 0,
        !is_white_space_spec(s[0]),
        !is_white_space_spec(s.last()),
    ensures
        trimmed(s) == s,
{
}

proof fn lemma_trim_decimal(n: nat)
    ensures
        trimmed(decimal(n)) == decimal(n),
{
    lemma_decimal(n);
    let s = decimal(n);
    assert(is_digit(s[0]));
    assert(is_digit(s[s.len() - 1]));
    lemma_trim_plain(s);
}

proof fn lemma_trim_signed(n: int)
    ensures
        trimmed(signed_decimal(n)) == signed_decimal(n),
{
    if n < 0 {
        lemma_decimal((-n) as nat);
        let digits = decimal((-n) as nat);
        let s = signed_decimal(n);
        assert(is_digit(digits[digits.len() - 1]));
        assert(s.last() == digits[digits.len() - 1]);
        assert(s[0] == '-');
        lemma_trim_plain(s);
    } else {
        lemma_trim_decimal(n as nat);
    }
}

proof fn lemma_blank()
    ensures
        ""@.len() == 0,
        trimmed(""@).len() == 0,
{
    reveal_strlit("");
}

proof fn lemma_limit(value: Option<u64>, message: Seq<char>)
    requires
        value != Some(0u64),
    ensures
        stated_limit(optional_decimal(value), message) == Ok::<Option<u64>, Seq<char>>(value),
{
    lemma_blank();
    if let Some(limit) = value {
        lemma_trim_decimal(limit as nat);
        lemma_decimal(limit as nat);
        law_decimal_round_trip(limit as nat, u64::MAX as nat);
    }
}

/// An edited network policy that was not changed is the policy itself.
pub proof fn law_network_policy_round_trip(policy: NetworkView)
    requires
        valid_network(policy),
    ensures
        stated_network(edited_network(policy)) == Ok::<NetworkView, Seq<char>>(policy),
{
    lemma_blank();
    lemma_trim_decimal(policy.max_concurrent_requests as nat);
    law_decimal_round_trip(policy.max_concurrent_requests as nat, u32::MAX as nat);
    if let Some(rate) = policy.max_download_bytes_per_second {
        lemma_trim_decimal(rate as nat);
        lemma_decimal(rate as nat);
        law_decimal_round_trip(rate as nat, u64::MAX as nat);
    }
}

proof fn lemma_two_digits(n: nat)
    requires
        n < 100,
    ensures
        two_digits(n).len() > 0,
        all_digits(two_digits(n)),
        unsigned_value(two_digits(n), u32::MAX as nat) == Some(n),
{
    reveal_strlit("0");
    lemma_decimal(n);
    let s = two_digits(n);
    if n < 10 {
        assert(decimal(n) =~= seq![digit_char(n as int)]);
        assert(s =~= seq!['0', digit_char(n as int)]);
        assert(s.drop_last() =~= seq!['0']);
        assert(seq!['0'].drop_last() =~= Seq::<char>::empty());
        assert(decimal_value(Seq::<char>::empty()) == 0);
        assert(decimal_value(seq!['0']) == 0);
        assert(is_digit('0'));
    }
    law_decimal_round_trip(n, u32::MAX as nat);
}

proof fn lemma_position(prefix: Seq<char>, rest: Seq<char>, c: char)
    requires
        forall|i: int| 0 <= i < prefix.len() ==> prefix[i] != c,
        rest.len() > 0,
        rest[0] == c,
    ensures
        position_of(prefix + rest, c) == prefix.len(),
    decreases prefix.len(),
{
    if prefix.len() > 0 {
        let tail = prefix.drop_first();
        assert((prefix + rest).drop_first() =~= tail + rest);
        lemma_position(tail, rest, c);
    } else {
        assert(prefix + rest =~= rest);
    }
}

proof fn lemma_clock(seconds: nat)
    requires
        seconds < 86_400,
        seconds % 60 == 0,
    ensures
        stated_time(clock(seconds)) == Ok::<CadenceView, Seq<char>>(
            CadenceView::DailyUtc(seconds as u32),
        ),
{
    reveal_strlit(":");
    let hours = seconds / 3_600;
    let minutes = seconds % 3_600 / 60;
    lemma_two_digits(hours);
    lemma_two_digits(minutes);
    let head = two_digits(hours);
    let tail = two_digits(minutes);
    let text = clock(seconds);
    assert(text =~= head + (":"@ + tail));
    assert forall|i: int| 0 <= i < head.len() implies head[i] != ':' by {
        assert(is_digit(head[i]));
    }
    lemma_position(head, ":"@ + tail, ':');
    assert(is_digit(head[0]));
    assert(is_digit(tail[tail.len() - 1]));
    assert(text[0] == head[0]);
    assert(text.last() == tail[tail.len() - 1]);
    lemma_trim_plain(text);
    assert(text.subrange(0, head.len() as int) =~= head);
    assert(text.subrange(head.len() as int + 1, text.len() as int) =~= tail);
    assert(hours * 3_600 + minutes * 60 == seconds);
}

/// The schedules that whole minutes can state.
pub open spec fn whole_minutes(schedule: SettingsView) -> bool {
    &&& schedule.jitter_seconds % 60 == 0
    &&& match schedule.cadence {
        CadenceView::Manual => true,
        CadenceView::Interval(seconds) => seconds % 60 == 0,
        CadenceView::DailyUtc(seconds) => seconds % 60 == 0,
    }
}

/// The schedules that can be stored.
pub open spec fn valid_schedule(schedule: SettingsView) -> bool {
    &&& valid_cadence(schedule.cadence)
    &&& schedule.jitter_seconds <= 86_400
    &&& match schedule.cadence {
        CadenceView::Manual => schedule.jitter_seconds == 0,
        CadenceView::Interval(seconds) => schedule.jitter_seconds <= seconds,
        CadenceView::DailyUtc(_) => true,
    }
}

/// An edited schedule of whole minutes that was not changed is the schedule itself.
pub proof fn law_schedule_round_trip(collection_id: u64, schedule: SettingsView)
    requires
        valid_schedule(schedule),
        whole_minutes(schedule),
    ensures
        ({
            let editor = edited_schedule(collection_id, schedule);
            stated_schedule(editor.mode, editor.value, editor.jitter_minutes, editor.paused)
                == Ok::<SettingsView, Seq<char>>(schedule)
        }),
{
    let jitter = schedule.jitter_seconds as nat / 60;
    lemma_trim_decimal(jitter);
    law_decimal_round_trip(jitter, u32::MAX as nat);
    assert(jitter * 60 == schedule.jitter_seconds);
    match schedule.cadence {
        CadenceView::Manual => {},
        CadenceView::Interval(seconds) => {
            lemma_trim_decimal(seconds as nat / 60);
            law_decimal_round_trip(seconds as nat / 60, u32::MAX as nat);
            assert(seconds as nat / 60 * 60 == seconds);
        },
        CadenceView::DailyUtc(seconds) => {
            lemma_clock(seconds as nat);
        },
    }
}

/// The configurations that can be stored.
pub open spec fn valid_configuration(configuration: ConfigurationView) -> bool {
    &&& configuration.budget.maximum_pages != Some(0u64)
    &&& configuration.budget.maximum_bytes != Some(0u64)
    &&& configuration.history_policy != HistoryView::LastN(0)
    &&& configuration.image_policy matches ImageView::Thumbnails(policy) ==> thumbnail_error(
        policy.maximum_edge_pixels,
        policy.maximum_images_per_revision,
        policy.maximum_bytes_per_image,
    ) is None
    &&& configuration.rule matches RuleView::Category { title, recursion_depth } ==> valid_title(
        title,
    )
}

/// A configuration that was opened for editing and not changed states its own history,
/// budget, removal policy and images again.
pub proof fn law_configuration_round_trip(
    configuration: ConfigurationView,
    wiki: WikiView,
    schedule: Option<SettingsView>,
)
    requires
        valid_configuration(configuration),
    ensures
        ({
            let form = edited_configuration(configuration, wiki, schedule);
            &&& stated_history(form) == Ok::<HistoryView, Seq<char>>(configuration.history_policy)
            &&& stated_budget(form) == Ok::<BudgetView, Seq<char>>(configuration.budget)
            &&& stated_images(form) == Ok::<ImageView, Seq<char>>(configuration.image_policy)
            &&& form.removal_policy == configuration.removal_policy
            &&& form.name == configuration.name
        }),
{
    lemma_limit(
        configuration.budget.maximum_pages,
        "Maximum pages must be a positive integer."@,
    );
    lemma_limit(
        configuration.budget.maximum_bytes,
        "Maximum bytes must be a positive integer."@,
    );
    match configuration.history_policy {
        HistoryView::LastN(count) => {
            lemma_trim_decimal(count as nat);
            law_decimal_round_trip(count as nat, u32::MAX as nat);
        },
        HistoryView::Since(seconds) => {
            lemma_trim_signed(seconds as int);
            law_signed_decimal_round_trip(seconds);
        },
        _ => {},
    }
    if let ImageView::Thumbnails(policy) = configuration.image_policy {
        lemma_trim_decimal(policy.maximum_edge_pixels as nat);
        lemma_trim_decimal(policy.maximum_images_per_revision as nat);
        lemma_trim_decimal(policy.maximum_bytes_per_image as nat);
        law_decimal_round_trip(policy.maximum_edge_pixels as nat, u32::MAX as nat);
        law_decimal_round_trip(policy.maximum_images_per_revision as nat, u32::MAX as nat);
        law_decimal_round_trip(policy.maximum_bytes_per_image as nat, u64::MAX as nat);
    }
}

/// A category that was opened for editing and not changed states its own rule again.
pub proof fn law_category_round_trip(
    configuration: ConfigurationView,
    wiki: WikiView,
    schedule: Option<SettingsView>,
    titles: Result<Seq<Seq<char>>, Seq<char>>,
)
    requires
        valid_configuration(configuration),
        configuration.rule matches RuleView::Category { title, recursion_depth } && recursion_depth
            <= DEFAULT_MAX_CATEGORY_DEPTH,
    ensures
        stated_rule(edited_configuration(configuration, wiki, schedule), titles) == Ok::<
            RuleView,
            Seq<char>,
        >(configuration.rule),
{
    if let RuleView::Category { title, recursion_depth } = configuration.rule {
        lemma_trim_decimal(recursion_depth as nat);
        law_decimal_round_trip(recursion_depth as nat, u16::MAX as nat);
    }
}

proof fn lemma_stated_number(n: nat, max: nat)
    ensures
        trimmed(decimal(n)).len() > 0,
        n <= max ==> unsigned_value(trimmed(decimal(n)), max) == Some(n),
        n > max ==> unsigned_value(trimmed(decimal(n)), max) is None,
{
    lemma_trim_decimal(n);
    lemma_decimal(n);
}

/// Minutes make an interval of sixty times as many seconds, with at most as much jitter and at
/// most a day of it; without a schedule there is no jitter either.
pub proof fn law_minutes_state_an_interval(
    minutes: u32,
    jitter: u32,
    value: &str,
    jitter_minutes: &str,
    paused: bool,
    interval: Result<ScheduleSettings, String>,
    manual: Result<ScheduleSettings, String>,
)
    requires
        value@ == decimal(minutes as nat),
        jitter_minutes@ == decimal(jitter as nat),
        call_ensures(
            parse_schedule_settings,
            (ScheduleMode::Interval, value, jitter_minutes, paused),
            interval,
        ),
        call_ensures(
            parse_schedule_settings,
            (ScheduleMode::Manual, value, jitter_minutes, paused),
            manual,
        ),
    ensures
        interval is Ok <==> 0 < minutes <= 71_582_788 && jitter <= minutes && jitter <= 1_440,
        interval matches Ok(settings) ==> settings@ == (SettingsView {
            cadence: CadenceView::Interval((minutes * 60) as u32),
            jitter_seconds: (jitter * 60) as u32,
            paused,
        }),
        manual is Ok <==> jitter == 0,
        manual matches Ok(settings) ==> settings@ == (SettingsView {
            cadence: CadenceView::Manual,
            jitter_seconds: 0,
            paused,
        }),
{
    lemma_stated_number(minutes as nat, u32::MAX as nat);
    lemma_stated_number(jitter as nat, u32::MAX as nat);
}

/// Hours and minutes state that time of the day, and only times that a clock shows are
/// accepted; jitter is at most a day.
pub proof fn law_clock_times_state_a_daily_run(
    hours: u32,
    minutes: u32,
    jitter: u32,
    value: &str,
    jitter_minutes: &str,
    paused: bool,
    r: Result<ScheduleSettings, String>,
)
    requires
        value@ == decimal(hours as nat) + ":"@ + decimal(minutes as nat),
        jitter_minutes@ == decimal(jitter as nat),
        call_ensures(
            parse_schedule_settings,
            (ScheduleMode::DailyUtc, value, jitter_minutes, paused),
            r,
        ),
    ensures
        r is Ok <==> hours < 24 && minutes < 60 && jitter <= 1_440,
        r matches Ok(settings) ==> settings@ == (SettingsView {
            cadence: CadenceView::DailyUtc((hours * 3_600 + minutes * 60) as u32),
            jitter_seconds: (jitter * 60) as u32,
            paused,
        }),
{
    reveal_strlit(":");
    lemma_stated_number(jitter as nat, u32::MAX as nat);
    lemma_decimal(hours as nat);
    lemma_decimal(minutes as nat);
    let head = decimal(hours as nat);
    let tail = decimal(minutes as nat);
    let text = value@;
    assert(text =~= head + (":"@ + tail));
    assert forall|i: int| 0 <= i < head.len() implies head[i] != ':' by {
        assert(is_digit(head[i]));
    }
    lemma_position(head, ":"@ + tail, ':');
    assert(is_digit(head[0]));
    assert(is_digit(tail[tail.len() - 1]));
    assert(text[0] == head[0]);
    assert(text.last() == tail[tail.len() - 1]);
    lemma_trim_plain(text);
    assert(text.subrange(0, head.len() as int) =~= head);
    assert(text.subrange(head.len() as int + 1, text.len() as int) =~= tail);
    law_decimal_round_trip(hours as nat, u32::MAX as nat);
    law_decimal_round_trip(minutes as nat, u32::MAX as nat);
}

/// A network form states its two numbers and its flag; no rate is no limit, and neither number
/// may be zero.
pub proof fn law_network_form_states_its_numbers(
    editor: NetworkPolicyEditor,
    requests: u32,
    rate: Option<u64>,
    r: Result<NetworkTransferPolicy, String>,
)
    requires
        editor.max_concurrent_requests@ == decimal(requests as nat),
        editor.max_download_bytes_per_second@ == (match rate {
            Some(rate) => decimal(rate as nat),
            None => ""@,
        }),
        call_ensures(NetworkPolicyEditor::policy, (&editor,), r),
    ensures
        r is Ok <==> requests > 0 && rate != Some(0u64),
        r matches Ok(policy) ==> policy@ == (NetworkView {
            max_concurrent_requests: requests,
            max_download_bytes_per_second: rate,
            avoid_metered_networks: editor.avoid_metered_networks,
        }),
{
    lemma_blank();
    lemma_stated_number(requests as nat, u32::MAX as nat);
    if let Some(rate) = rate {
        lemma_stated_number(rate as nat, u64::MAX as nat);
    }
}

/// A collection form states its history as chosen: a number of revisions, which is not zero, or
/// the seconds since the epoch, which may be negative.
pub proof fn law_form_states_its_history(
    form: CollectionForm,
    count: u32,
    seconds: i64,
    r: Result<HistoryPolicy, String>,
)
    requires
        call_ensures(CollectionForm::history_policy, (&form,), r),
    ensures
        form.history_mode == HistoryMode::CurrentAndFuture ==> (r matches Ok(policy) && policy
            == HistoryPolicy::CurrentAndFuture),
        form.history_mode == HistoryMode::Complete ==> (r matches Ok(policy) && policy
            == HistoryPolicy::Complete),
        form.history_mode == HistoryMode::LastN && form.history_value@ == decimal(count as nat)
            ==> (if count > 0 {
            r matches Ok(policy) && policy@ == HistoryView::LastN(count)
        } else {
            r is Err
        }),
        form.history_mode == HistoryMode::Since && form.history_value@ == signed_decimal(
            seconds as int,
        ) ==> (r matches Ok(policy) && policy@ == HistoryView::Since(seconds)),
{
    lemma_stated_number(count as nat, u32::MAX as nat);
    lemma_trim_signed(seconds as int);
    law_signed_decimal_round_trip(seconds);
}

/// A collection form states each limit on its own; a blank field is no limit and zero is none
/// that can be set.
pub proof fn law_form_states_its_budget(
    form: CollectionForm,
    pages: Option<u64>,
    bytes: Option<u64>,
    r: Result<CollectionBudget, String>,
)
    requires
        form.maximum_pages@ == (match pages {
            Some(pages) => decimal(pages as nat),
            None => ""@,
        }),
        form.maximum_bytes@ == (match bytes {
            Some(bytes) => decimal(bytes as nat),
            None => ""@,
        }),
        call_ensures(CollectionForm::budget, (&form,), r),
    ensures
        r is Ok <==> pages != Some(0u64) && bytes != Some(0u64),
        r matches Ok(budget) ==> budget@.maximum_pages == pages && budget@.maximum_bytes == bytes,
{
    lemma_blank();
    if let Some(pages) = pages {
        lemma_stated_number(pages as nat, u64::MAX as nat);
    }
    if let Some(bytes) = bytes {
        lemma_stated_number(bytes as nat, u64::MAX as nat);
    }
}

/// A collection form states the three thumbnail bounds in their places, or no images at all.
pub proof fn law_form_states_its_images(
    form: CollectionForm,
    edge: u32,
    images: u32,
    bytes: u64,
    r: Result<ImagePolicy, String>,
)
    requires
        form.thumbnail_max_edge_pixels@ == decimal(edge as nat),
        form.thumbnail_max_images_per_revision@ == decimal(images as nat),
        form.thumbnail_max_bytes_per_image@ == decimal(bytes as nat),
        call_ensures(CollectionForm::image_policy, (&form,), r),
    ensures
        form.image_mode == ImageMode::Off ==> (r matches Ok(policy) && policy == ImagePolicy::Off),
        form.image_mode == ImageMode::Thumbnails ==> (r is Ok <==> 0 < edge <= 4_096 && images > 0
            && bytes > 0),
        form.image_mode == ImageMode::Thumbnails && r is Ok ==> (
        r->Ok_0@ matches ImageView::Thumbnails(policy) && policy.maximum_edge_pixels == edge
            && policy.maximum_images_per_revision == images && policy.maximum_bytes_per_image
            == bytes),
{
    lemma_stated_number(edge as nat, u32::MAX as nat);
    lemma_stated_number(images as nat, u32::MAX as nat);
    lemma_stated_number(bytes as nat, u64::MAX as nat);
}

/// A collection form states the titles that its selection states, or a category that is not
/// blank with a depth of at most sixteen.
pub proof fn law_form_states_its_rule(
    form: CollectionForm,
    titles: Result<TitleSelection, String>,
    depth: u16,
    r: Result<CollectionRule, String>,
)
    requires
        form.category_depth@ == decimal(depth as nat),
        call_ensures(CollectionForm::rule, (&form, titles), r),
    ensures
        form.selection_mode == SelectionMode::Titles ==> match titles {
            Ok(titles) => r matches Ok(rule) && rule@ == RuleView::ExplicitTitles(titles@),
            Err(message) => r matches Err(told) && told@ == message@,
        },
        form.selection_mode == SelectionMode::TitleList ==> match titles {
            Ok(titles) => r matches Ok(rule) && rule@ == RuleView::TitleList(titles@),
            Err(message) => r matches Err(told) && told@ == message@,
        },
        form.selection_mode == SelectionMode::Category ==> {
            &&& r is Ok <==> depth <= 16 && exists|i: int|
                0 <= i < form.selection@.len() && !is_white_space_spec(
                    #[trigger] form.selection@[i],
                )
            &&& r matches Ok(rule) ==> rule@ == (RuleView::Category {
                title: form.selection@,
                recursion_depth: depth,
            })
        },
{
    lemma_stated_number(depth as nat, u16::MAX as nat);
    law_only_white_space_trims_to_nothing(form.selection@);
}

/// A form reads its schedule from its own schedule fields.
pub proof fn law_form_reads_its_own_schedule(
    form: CollectionForm,
    value: &str,
    jitter_minutes: &str,
    r: Result<ScheduleSettings, String>,
    read: Result<ScheduleSettings, String>,
)
    requires
        value@ == form.schedule_value@,
        jitter_minutes@ == form.schedule_jitter_minutes@,
        call_ensures(CollectionForm::schedule, (&form,), r),
        call_ensures(
            parse_schedule_settings,
            (form.schedule_mode, value, jitter_minutes, form.schedule_paused),
            read,
        ),
    ensures
        r is Ok <==> read is Ok,
        r is Ok ==> r->Ok_0@ == read->Ok_0@,
{
}

/// What is shown for editing of a schedule or a configuration is its own: which collection, how
/// it is selected, and where from.
pub proof fn law_editors_show_their_own(
    collection_id: CollectionId,
    schedule: CollectionSchedule,
    editor: ScheduleEditor,
    configuration: StoredCollectionConfiguration,
    wiki: StoredWiki,
    form: CollectionForm,
)
    requires
        call_ensures(ScheduleEditor::from_schedule, (collection_id, schedule), editor),
        configuration@.rule !is WholeMainNamespace,
        call_ensures(
            CollectionForm::from_configuration,
            (&configuration, &wiki, Some(schedule)),
            form,
        ),
    ensures
        editor.collection_id@ == collection_id@,
        editor.paused == schedule.paused,
        editor.mode is Manual <==> schedule.cadence is Manual,
        editor.mode is Interval <==> schedule.cadence is Interval,
        form.name@ == configuration.name@,
        form.language_code@ == wiki.language_code@,
        form.api_endpoint@ == wiki.api_endpoint@,
        form.removal_policy == configuration.removal_policy,
        form.schedule_paused == schedule.paused,
        form.schedule_mode == editor.mode,
        form.schedule_value@ == editor.value@,
        form.schedule_jitter_minutes@ == editor.jitter_minutes@,
        form.selection_mode is Titles <==> configuration.rule is ExplicitTitles,
        form.selection_mode is Category <==> configuration.rule is Category,
        configuration.rule matches CollectionRule::Category { title, recursion_depth }
            ==> form.selection@ == title@ && form.category_depth@ == decimal(
            recursion_depth as nat,
        ),
        configuration.rule matches CollectionRule::ExplicitTitles(titles) ==> (titles@.len() == 1
            ==> form.selection@ == titles@[0]),
{
}

} // verus!
