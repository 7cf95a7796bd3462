//! Texts that the desktop application shows for quantities and states.

use vstd::prelude::*;
use vstd::string::*;

use crate::model::{ImagePolicy, ImageView, ScheduleCadence, CadenceView};
use crate::text::{
    chars_of, decimal, decimal_text, holds_text, lemma_holds_at_end, lemma_holds_longer,
    lemma_holds_text, text_of,
};

verus! {

/// The quotient rounded to the nearest whole number, to the even one of two.
pub open spec fn half_even(n: nat, d: nat) -> nat {
    let q = n / d;
    let r = n % d;
    if 2 * r > d || (2 * r == d && q % 2 == 1) {
        q + 1
    } else {
        q
    }
}

/// The distance of neighbouring 53-bit binary numbers around a 64-bit number.
pub open spec fn spacing(value: nat) -> nat {
    if value < 0x20_0000_0000_0000 {
        1
    } else if value < 0x40_0000_0000_0000 {
        2
    } else if value < 0x80_0000_0000_0000 {
        4
    } else if value < 0x100_0000_0000_0000 {
        8
    } else if value < 0x200_0000_0000_0000 {
        16
    } else if value < 0x400_0000_0000_0000 {
        32
    } else if value < 0x800_0000_0000_0000 {
        64
    } else if value < 0x1000_0000_0000_0000 {
        128
    } else if value < 0x2000_0000_0000_0000 {
        256
    } else if value < 0x4000_0000_0000_0000 {
        512
    } else if value < 0x8000_0000_0000_0000 {
        1_024
    } else {
        2_048
    }
}

/// A number at 53 bits of precision.
pub open spec fn at_precision(value: nat) -> nat {
    half_even(value, spacing(value)) * spacing(value)
}

/// The size of a binary unit.
pub open spec fn unit_size(unit: int) -> nat {
    if unit == 0 {
        1
    } else if unit == 1 {
        0x400
    } else if unit == 2 {
        0x10_0000
    } else if unit == 3 {
        0x4000_0000
    } else {
        0x100_0000_0000
    }
}

/// The largest unit of which a number holds at least one.
pub open spec fn unit_of(value: nat) -> int {
    if value < 0x400 {
        0
    } else if value < 0x10_0000 {
        1
    } else if value < 0x4000_0000 {
        2
    } else if value < 0x100_0000_0000 {
        3
    } else {
        4
    }
}

/// The name of a binary unit.
pub open spec fn unit_name(unit: int) -> Seq<char> {
    if unit == 0 {
        "B"@
    } else if unit == 1 {
        "KiB"@
    } else if unit == 2 {
        "MiB"@
    } else if unit == 3 {
        "GiB"@
    } else {
        "TiB"@
    }
}

/// A size for people: whole bytes, or tenths of a larger unit.
pub open spec fn size_text(bytes: u64) -> Seq<char> {
    let value = at_precision(bytes as nat);
    let unit = unit_of(value);
    if unit == 0 {
        decimal(bytes as nat) + " "@ + unit_name(0)
    } else {
        let tenths = half_even(value * 10, unit_size(unit));
        decimal(tenths / 10) + "."@ + decimal(tenths % 10) + " "@ + unit_name(unit)
    }
}

fn divide_half_even(n: u128, d: u128) -> (q: u128)
    requires
        0 < d <= 0x1_0000_0000_0000,
        n <= 0xffff_ffff_ffff_ffff_ffff,
    ensures
        q == half_even(n as nat, d as nat),
        q <= n + 1,
{
    let q: u128 = n / d;
    let r: u128 = n % d;
    proof {
        vstd::arithmetic::div_mod::lemma_div_is_ordered_by_denominator(n as int, 1, d as int);
        vstd::arithmetic::div_mod::lemma_div_basics(n as int);
        vstd::arithmetic::div_mod::lemma_mod_bound(n as int, d as int);
    }
    if 2 * r > d || (2 * r == d && q % 2 == 1) {
        q + 1
    } else {
        q
    }
}

fn spacing_of(value: u64) -> (s: u64)
    ensures
        s == spacing(value as nat),
        1 <= s <= 2_048,
{
    if value < 0x20_0000_0000_0000 {
        1
    } else if value < 0x40_0000_0000_0000 {
        2
    } else if value < 0x80_0000_0000_0000 {
        4
    } else if value < 0x100_0000_0000_0000 {
        8
    } else if value < 0x200_0000_0000_0000 {
        16
    } else if value < 0x400_0000_0000_0000 {
        32
    } else if value < 0x800_0000_0000_0000 {
        64
    } else if value < 0x1000_0000_0000_0000 {
        128
    } else if value < 0x2000_0000_0000_0000 {
        256
    } else if value < 0x4000_0000_0000_0000 {
        512
    } else if value < 0x8000_0000_0000_0000 {
        1_024
    } else {
        2_048
    }
}

/// Formats a size for people.
pub fn format_bytes(bytes: u64) -> (text: String)
    ensures
        text@ == size_text(bytes),
{
    let s: u128 = spacing_of(bytes) as u128;
    let steps: u128 = divide_half_even(bytes as u128, s);
    proof {
        lemma_at_precision(bytes);
    }
    let value: u128 = steps * s;
    let (unit, size): (&str, u128) = if value < 0x400 {
        let mut text = decimal_text(bytes);
        text.append(" ");
        text.append("B");
        return text;
    } else if value < 0x10_0000 {
        ("KiB", 0x400)
    } else if value < 0x4000_0000 {
        ("MiB", 0x10_0000)
    } else if value < 0x100_0000_0000 {
        ("GiB", 0x4000_0000)
    } else {
        ("TiB", 0x100_0000_0000)
    };
    let tenths: u128 = divide_half_even(value * 10, size);
    proof {
        lemma_tenths(value as nat, size as nat);
    }
    let mut text = decimal_text((tenths / 10) as u64);
    text.append(".");
    text.append(decimal_text((tenths % 10) as u64).as_str());
    text.append(" ");
    text.append(unit);
    text
}

proof fn lemma_at_precision(bytes: u64)
    ensures
        at_precision(bytes as nat) <= 0x1_0000_0000_0000_0800,
        half_even(bytes as nat, spacing(bytes as nat)) <= 0x1_0000_0000_0000_0800,
{
    let s = spacing(bytes as nat);
    let q = bytes as nat / s;
    assert(q * s <= bytes) by (nonlinear_arith)
        requires
            s > 0,
            q == bytes as nat / s,
    ;
    assert((q + 1) * s == q * s + s) by (nonlinear_arith);
    assert(q <= q * s) by (nonlinear_arith)
        requires
            s >= 1,
            q >= 0,
    ;
}

proof fn lemma_tenths(value: nat, size: nat)
    requires
        value <= 0x1_0000_0000_0000_0800,
        size >= 0x400,
    ensures
        half_even(value * 10, size) <= 0x1_0000_0000_0000_0000,
{
    let q = value * 10 / size;
    assert(q * size <= value * 10) by (nonlinear_arith)
        requires
            size > 0,
            q == value * 10 / size,
    ;
    assert(q * 0x400 <= q * size) by (nonlinear_arith)
        requires
            size >= 0x400,
            q >= 0,
    ;
}

/// A signed size for people.
pub open spec fn signed_size_text(bytes: i64) -> Seq<char> {
    if bytes < 0 {
        "-"@ + size_text((-(bytes as int)) as u64)
    } else {
        size_text(bytes as u64)
    }
}

/// Formats a signed size for people.
pub fn format_signed_bytes(bytes: i64) -> (text: String)
    ensures
        text@ == signed_size_text(bytes),
{
    if bytes < 0 {
        let mut text = "-".to_owned();
        let size: u64 = (-(bytes as i128)) as u64;
        text.append(format_bytes(size).as_str());
        text
    } else {
        format_bytes(bytes as u64)
    }
}

/// What a library's directory holds.
#[derive(Clone, Copy, Debug, PartialEq, Eq, Structural)]
pub struct StorageUsage {
    pub bytes: u64,
    pub files: u64,
}

/// Two sizes added up to their ceiling.
pub open spec fn size_sum(a: u64, b: u64) -> u64 {
    if a + b > u64::MAX {
        u64::MAX
    } else {
        (a + b) as u64
    }
}

fn add_sizes(a: u64, b: u64) -> (sum: u64)
    ensures
        sum == size_sum(a, b),
{
    if a > u64::MAX - b {
        u64::MAX
    } else {
        a + b
    }
}

impl StorageUsage {
    /// An empty directory.
    pub fn empty() -> (usage: StorageUsage)
        ensures
            usage == (StorageUsage { bytes: 0, files: 0 }),
    {
        StorageUsage { bytes: 0, files: 0 }
    }

    /// Counts what a subdirectory holds.
    pub fn with_directory(self, child: StorageUsage) -> (usage: StorageUsage)
        ensures
            usage.bytes == size_sum(self.bytes, child.bytes),
            usage.files == size_sum(self.files, child.files),
    {
        StorageUsage {
            bytes: add_sizes(self.bytes, child.bytes),
            files: add_sizes(self.files, child.files),
        }
    }

    /// Counts a regular file.
    pub fn with_file(self, bytes: u64) -> (usage: StorageUsage)
        ensures
            usage.bytes == size_sum(self.bytes, bytes),
            usage.files == size_sum(self.files, 1),
    {
        StorageUsage { bytes: add_sizes(self.bytes, bytes), files: add_sizes(self.files, 1) }
    }
}

/// The size of a library, or that it is not known.
pub fn storage_bytes_label(storage: &Result<StorageUsage, String>) -> (label: String)
    ensures
        label@ == match storage {
            Ok(usage) => size_text(usage.bytes),
            Err(_) => "Unavailable"@,
        },
{
    match storage {
        Ok(usage) => format_bytes(usage.bytes),
        Err(_) => "Unavailable".to_owned(),
    }
}

/// The number of files of a library, or that it is not known.
pub fn storage_files_label(storage: &Result<StorageUsage, String>) -> (label: String)
    ensures
        label@ == match storage {
            Ok(usage) => decimal(usage.files as nat),
            Err(_) => "Unavailable"@,
        },
{
    match storage {
        Ok(usage) => decimal_text(usage.files),
        Err(_) => "Unavailable".to_owned(),
    }
}

/// The upper-case form of a character.
pub uninterp spec fn upper_case(c: char) -> Seq<char>;

/// `char::to_uppercase`, whose result may have several characters. The mapping itself is
/// not described here, only named.
#[verifier::external_body]
fn to_upper_case(c: char) -> (s: String)
    ensures
        s@ == upper_case(c),
{
    c.to_uppercase().to_string()
}

/// A text with another first character.
pub open spec fn with_first(first: Seq<char>, text: Seq<char>) -> Seq<char> {
    if text.len() == 0 {
        text
    } else {
        first + text.subrange(1, text.len() as int)
    }
}

/// Replaces the first character of a text that has one.
pub fn replace_first(first: &str, text: &str) -> (s: String)
    ensures
        s@ == with_first(first@, text@),
{
    let chars = chars_of(text);
    if chars.len() == 0 {
        return String::new();
    }
    let mut s = first.to_owned();
    s.append(text_of(&chars, 1, chars.len()).as_str());
    s
}

/// A text with its first character in upper case.
pub open spec fn titled(text: Seq<char>) -> Seq<char> {
    if text.len() == 0 {
        text
    } else {
        with_first(upper_case(text[0]), text)
    }
}

/// Writes the first character of a text in upper case.
pub fn title_case(text: &str) -> (s: String)
    ensures
        s@ == titled(text@),
{
    let chars = chars_of(text);
    if chars.len() == 0 {
        return String::new();
    }
    replace_first(to_upper_case(chars[0]).as_str(), text)
}

/// A choice among several, marked when it is the chosen one.
pub fn choice_label(label: &str, chosen: bool) -> (s: String)
    ensures
        s@ == if chosen {
            "• "@ + label@
        } else {
            label@
        },
{
    if chosen {
        let mut s = "• ".to_owned();
        s.append(label);
        s
    } else {
        label.to_owned()
    }
}

/// What is shown of an image policy.
pub open spec fn image_text(policy: ImageView) -> Seq<char> {
    match policy {
        ImageView::Off => "off (text capture is independent of media)"@,
        ImageView::Thumbnails(policy) =>
            "saved preview policy only; thumbnail download is not active in this build — edge ≤ "@
            + decimal(policy.maximum_edge_pixels as nat) + " px, ≤ "@ + decimal(
            policy.maximum_images_per_revision as nat,
        ) + " images/revision, ≤ "@ + size_text(policy.maximum_bytes_per_image) + " per image"@,
    }
}

/// Describes an image policy.
pub fn image_policy_summary(policy: ImagePolicy) -> (s: String)
    ensures
        s@ == image_text(policy@),
{
    match policy {
        ImagePolicy::Off => "off (text capture is independent of media)".to_owned(),
        ImagePolicy::Thumbnails(policy) => {
            let mut s =
                "saved preview policy only; thumbnail download is not active in this build — edge ≤ ".to_owned();
            s.append(decimal_text(policy.maximum_edge_pixels().get() as u64).as_str());
            s.append(" px, ≤ ");
            s.append(decimal_text(policy.maximum_images_per_revision().get() as u64).as_str());
            s.append(" images/revision, ≤ ");
            s.append(format_bytes(policy.maximum_bytes_per_image().get()).as_str());
            s.append(" per image");
            s
        },
    }
}

/// A number below one hundred in two digits.
pub open spec fn two_digits(n: nat) -> Seq<char> {
    if n < 10 {
        "0"@ + decimal(n)
    } else {
        decimal(n)
    }
}

/// A time of day in hours and minutes.
pub open spec fn clock(seconds: nat) -> Seq<char> {
    two_digits(seconds / 3_600) + ":"@ + two_digits(seconds % 3_600 / 60)
}

fn append_two_digits(s: &mut String, n: u32)
    ensures
        final(s)@ == old(s)@ + two_digits(n as nat),
{
    if n < 10 {
        s.append("0");
    }
    s.append(decimal_text(n as u64).as_str());
    proof {
        assert(s@ =~= old(s)@ + two_digits(n as nat));
    }
}

/// Formats a time of day.
pub fn clock_text(seconds: u32) -> (s: String)
    ensures
        s@ == clock(seconds as nat),
{
    let mut s = String::new();
    append_two_digits(&mut s, seconds / 3_600);
    s.append(":");
    append_two_digits(&mut s, seconds % 3_600 / 60);
    proof {
        assert(s@ =~= clock(seconds as nat));
    }
    s
}

/// What is shown of a schedule.
pub open spec fn schedule_text(cadence: CadenceView, paused: bool) -> Seq<char> {
    (match cadence {
        CadenceView::Manual => "Manual"@,
        CadenceView::Interval(seconds) => "Every "@ + decimal(seconds as nat / 60) + " min"@,
        CadenceView::DailyUtc(seconds) => "Daily "@ + clock(seconds as nat) + " UTC"@,
    }) + (if paused {
        " · paused"@
    } else {
        ""@
    })
}

/// Describes a schedule.
pub fn schedule_label(cadence: ScheduleCadence, paused: bool) -> (s: String)
    ensures
        s@ == schedule_text(cadence@, paused),
{
    let mut s = match cadence {
        ScheduleCadence::Manual => "Manual".to_owned(),
        ScheduleCadence::Interval(interval) => {
            let mut s = "Every ".to_owned();
            s.append(decimal_text((interval.seconds() / 60) as u64).as_str());
            s.append(" min");
            s
        },
        ScheduleCadence::DailyUtc(time) => {
            let mut s = "Daily ".to_owned();
            s.append(clock_text(time.seconds_after_midnight()).as_str());
            s.append(" UTC");
            s
        },
    };
    s.append(
        if paused {
            " · paused"
        } else {
            ""
        },
    );
    s
}

/// A durable synchronization checkpoint.
#[derive(Clone, Copy, Debug, PartialEq, Eq, Structural)]
pub struct SyncCheckpoint {
    pub wiki_id: u64,
    /// The collection it is limited to, where there is one.
    pub collection_id: Option<u64>,
    pub committed_through: u64,
    /// Where the next window starts.
    pub next_window_start: u64,
    pub overlap_seconds: u64,
}

/// What is shown of a checkpoint.
pub open spec fn checkpoint_text(checkpoint: SyncCheckpoint) -> Seq<char> {
    "Wiki "@ + decimal(checkpoint.wiki_id as nat) + " · "@ + (match checkpoint.collection_id {
        Some(id) => "collection "@ + decimal(id as nat),
        None => "all collections"@,
    }) + " · committed through "@ + decimal(checkpoint.committed_through as nat)
        + " · next window "@ + decimal(checkpoint.next_window_start as nat) + " ("@ + decimal(
        checkpoint.overlap_seconds as nat,
    ) + "s overlap)"@
}

/// Describes a checkpoint.
pub fn checkpoint_summary(checkpoint: &SyncCheckpoint) -> (s: String)
    ensures
        s@ == checkpoint_text(*checkpoint),
{
    let scope = match checkpoint.collection_id {
        Some(id) => {
            let mut scope = "collection ".to_owned();
            scope.append(decimal_text(id).as_str());
            scope
        },
        None => "all collections".to_owned(),
    };
    let mut s = "Wiki ".to_owned();
    s.append(decimal_text(checkpoint.wiki_id).as_str());
    s.append(" · ");
    s.append(scope.as_str());
    s.append(" · committed through ");
    s.append(decimal_text(checkpoint.committed_through).as_str());
    s.append(" · next window ");
    s.append(decimal_text(checkpoint.next_window_start).as_str());
    s.append(" (");
    s.append(decimal_text(checkpoint.overlap_seconds).as_str());
    s.append("s overlap)");
    s
}

proof fn lemma_half_even(n: nat, d: nat)
    requires
        d > 0,
    ensures
        2 * half_even(n, d) * d <= 2 * n + d,
        2 * n <= 2 * half_even(n, d) * d + d,
{
    let q = n / d;
    let r = n % d;
    assert(n == q * d + r) by {
        vstd::arithmetic::div_mod::lemma_fundamental_div_mod(n as int, d as int);
        assert(q * d == d * q) by (nonlinear_arith);
    }
    assert(r < d) by {
        vstd::arithmetic::div_mod::lemma_mod_bound(n as int, d as int);
    }
    assert(2 * (q + 1) * d == 2 * (q * d) + 2 * d) by (nonlinear_arith);
    assert(2 * q * d == 2 * (q * d)) by (nonlinear_arith);
}

/// A size below one kibibyte is shown to the byte. Any size that 53 bits hold is shown in the
/// largest unit of which it has at least one, in tenths, and off by no more than half a tenth.
pub proof fn law_sizes_are_shown_to_a_tenth(bytes: u64, text: String)
    requires
        call_ensures(format_bytes, (bytes,), text),
        bytes < 0x20_0000_0000_0000,
    ensures
        bytes < 1_024 ==> text@ == decimal(bytes as nat) + " "@ + "B"@,
        bytes >= 1_024 ==> exists|tenths: nat, size: nat, unit: Seq<char>|
            {
                &&& text@ == #[trigger] tenths_text(tenths, unit)
                &&& #[trigger] is_unit(unit, size)
                &&& size <= bytes
                &&& unit == "TiB"@ || bytes < 1_024 * size
                &&& 2 * tenths * size <= 20 * bytes + size
                &&& 20 * bytes <= 2 * tenths * size + size
            },
{
    let value = at_precision(bytes as nat);
    assert(value == bytes) by {
        let n = bytes as nat;
        assert(spacing(n) == 1);
        assert(n / 1 == n && n % 1 == 0);
        assert(half_even(n, 1) == n);
        assert(half_even(n, spacing(n)) * spacing(n) == n) by (nonlinear_arith)
            requires
                spacing(n) == 1,
                half_even(n, spacing(n)) == n,
        ;
    }
    if bytes >= 1_024 {
        let unit = unit_of(value);
        let size = unit_size(unit);
        let tenths = half_even(value * 10, size);
        lemma_half_even(value * 10, size);
        assert(is_unit(unit_name(unit), size));
        assert(text@ == tenths_text(tenths, unit_name(unit)));
    }
}

/// Tenths of a unit.
pub open spec fn tenths_text(tenths: nat, unit: Seq<char>) -> Seq<char> {
    decimal(tenths / 10) + "."@ + decimal(tenths % 10) + " "@ + unit
}

/// A binary unit and its size: each is 1,024 times the one before.
pub open spec fn is_unit(unit: Seq<char>, size: nat) -> bool {
    ||| unit == "KiB"@ && size == 1_024
    ||| unit == "MiB"@ && size == 1_024 * 1_024
    ||| unit == "GiB"@ && size == 1_024 * 1_024 * 1_024
    ||| unit == "TiB"@ && size == 1_024 * 1_024 * 1_024 * 1_024
}

/// A negative size is shown as the size with a minus sign before it.
pub proof fn law_negative_sizes_have_a_sign(
    bytes: i64,
    size: u64,
    text: String,
    plain: String,
)
    requires
        size == if bytes < 0 {
            -bytes
        } else {
            bytes as int
        },
        call_ensures(format_signed_bytes, (bytes,), text),
        call_ensures(format_bytes, (size,), plain),
    ensures
        bytes >= 0 ==> text@ == plain@,
        bytes < 0 ==> text@ == "-"@ + plain@,
{
}

/// What a directory holds is the sum of what its files and directories hold, in any order, as
/// far as the numbers reach.
pub proof fn law_usage_adds_up(
    usage: StorageUsage,
    child: StorageUsage,
    bytes: u64,
    empty: StorageUsage,
    with_child: StorageUsage,
    with_file: StorageUsage,
)
    requires
        call_ensures(StorageUsage::empty, (), empty),
        call_ensures(StorageUsage::with_directory, (usage, child), with_child),
        call_ensures(StorageUsage::with_file, (usage, bytes), with_file),
    ensures
        empty.bytes == 0 && empty.files == 0,
        usage.bytes + child.bytes <= u64::MAX ==> with_child.bytes == usage.bytes + child.bytes,
        usage.files + child.files <= u64::MAX ==> with_child.files == usage.files + child.files,
        usage.bytes + bytes <= u64::MAX ==> with_file.bytes == usage.bytes + bytes,
        usage.files < u64::MAX ==> with_file.files == usage.files + 1,
        with_child.bytes >= usage.bytes && with_child.bytes >= child.bytes,
        with_file.bytes >= usage.bytes && with_file.files >= usage.files,
{
}

/// The size and the number of files are shown where they are known, and nothing is made up
/// where they are not.
pub proof fn law_unknown_usage_is_said_to_be_unavailable(
    storage: Result<StorageUsage, String>,
    bytes: String,
    files: String,
    shown: String,
)
    requires
        call_ensures(storage_bytes_label, (&storage,), bytes),
        call_ensures(storage_files_label, (&storage,), files),
        storage is Ok ==> call_ensures(format_bytes, (storage->Ok_0.bytes,), shown),
    ensures
        storage is Err ==> bytes@ == "Unavailable"@ && files@ == "Unavailable"@,
        storage matches Ok(usage) ==> bytes@ == shown@ && files@ == decimal(usage.files as nat),
{
}

proof fn lemma_two_digits(n: nat)
    requires
        n < 100,
    ensures
        two_digits(n).len() == 2,
        two_digits(n)[0] as u32 == 48 + n / 10,
        two_digits(n)[1] as u32 == 48 + n % 10,
{
    reveal_strlit("0");
    reveal_with_fuel(decimal, 3);
}

/// A time of day is shown as two digits of hours and two of minutes.
pub proof fn law_clock_shows_hours_and_minutes(seconds: u32, text: String)
    requires
        seconds < 86_400,
        call_ensures(clock_text, (seconds,), text),
    ensures
        text@.len() == 5,
        text@[2] == ':',
        ({
            let hours = (text@[0] as u32 - 48) * 10 + (text@[1] as u32 - 48);
            let minutes = (text@[3] as u32 - 48) * 10 + (text@[4] as u32 - 48);
            &&& 0 <= hours < 24
            &&& 0 <= minutes < 60
            &&& hours * 3_600 + minutes * 60 <= seconds < hours * 3_600 + minutes * 60 + 60
        }),
{
    reveal_strlit(":");
    lemma_two_digits(seconds as nat / 3_600);
    lemma_two_digits(seconds as nat % 3_600 / 60);
}

/// A schedule is shown by its kind and its value, and a paused one says so.
pub proof fn law_schedules_are_shown_by_kind(
    cadence: ScheduleCadence,
    running: String,
    paused: String,
    time: String,
)
    requires
        call_ensures(schedule_label, (cadence, false), running),
        call_ensures(schedule_label, (cadence, true), paused),
        cadence matches ScheduleCadence::DailyUtc(at) ==> call_ensures(clock_text, (at@,), time),
    ensures
        paused@ == running@ + " · paused"@,
        cadence is Manual ==> running@ == "Manual"@,
        cadence matches ScheduleCadence::Interval(every) ==> running@ == "Every "@ + decimal(
            (every@ / 60) as nat,
        ) + " min"@,
        cadence is DailyUtc ==> running@ == "Daily "@ + time@ + " UTC"@,
{
    reveal_strlit("");
    assert(forall|s: Seq<char>| #[trigger] (s + ""@) =~= s);
}

/// The chosen one of several choices is marked, and only it.
pub proof fn law_only_the_choice_is_marked(label: &str, chosen: String, other: String)
    requires
        call_ensures(choice_label, (label, true), chosen),
        call_ensures(choice_label, (label, false), other),
    ensures
        other@ == label@,
        chosen@ == "• "@ + label@,
{
}

/// Replacing the first character keeps all the others.
pub proof fn law_only_the_first_character_is_replaced(first: &str, text: &str, s: String)
    requires
        call_ensures(replace_first, (first, text), s),
    ensures
        text@.len() == 0 ==> s@.len() == 0,
        text@.len() > 0 ==> s@.len() == first@.len() + text@.len() - 1 && s@.take(
            first@.len() as int,
        ) == first@ && s@.skip(first@.len() as int) == text@.drop_first(),
{
    if text@.len() > 0 {
        assert(s@.take(first@.len() as int) =~= first@);
        assert(s@.skip(first@.len() as int) =~= text@.drop_first());
    }
}

/// A checkpoint is shown with its wiki, its scope and its times, each in its place.
pub proof fn law_checkpoints_are_shown_in_full(checkpoint: SyncCheckpoint, text: String)
    requires
        call_ensures(checkpoint_summary, (&checkpoint,), text),
    ensures
        holds_text(
            text@,
            " · committed through "@ + decimal(checkpoint.committed_through as nat)
                + " · next window "@,
        ),
        holds_text(
            text@,
            " · next window "@ + decimal(checkpoint.next_window_start as nat) + " ("@,
        ),
        holds_text(text@, " ("@ + decimal(checkpoint.overlap_seconds as nat) + "s overlap)"@),
        checkpoint.collection_id matches Some(id) ==> holds_text(
            text@,
            " · "@ + ("collection "@ + decimal(id as nat)) + " · committed through "@,
        ),
        checkpoint.collection_id is None ==> holds_text(
            text@,
            " · "@ + "all collections"@ + " · committed through "@,
        ),
        text@.take(("Wiki "@ + decimal(checkpoint.wiki_id as nat)).len() as int) == "Wiki "@
            + decimal(checkpoint.wiki_id as nat),
{
    let wiki = "Wiki "@ + decimal(checkpoint.wiki_id as nat);
    let scope = match checkpoint.collection_id {
        Some(id) => "collection "@ + decimal(id as nat),
        None => "all collections"@,
    };
    let committed = decimal(checkpoint.committed_through as nat);
    let next = decimal(checkpoint.next_window_start as nat);
    let overlap = decimal(checkpoint.overlap_seconds as nat);
    let a = wiki + " · "@ + scope + " · committed through "@;
    let b = a + committed + " · next window "@;
    let c = b + next + " ("@;
    let scoped = " · "@ + scope + " · committed through "@;
    let through = " · committed through "@ + committed + " · next window "@;
    let window = " · next window "@ + next + " ("@;
    lemma_holds_at_end(wiki, " · "@, scope, " · committed through "@);
    lemma_holds_at_end(wiki + " · "@ + scope, " · committed through "@, committed, " · next window "@);
    lemma_holds_at_end(a + committed, " · next window "@, next, " ("@);
    lemma_holds_at_end(b + next, " ("@, overlap, "s overlap)"@);
    lemma_holds_longer(a, scoped, committed);
    lemma_holds_longer(a + committed, scoped, " · next window "@);
    lemma_holds_longer(b, scoped, next);
    lemma_holds_longer(b, through, next);
    lemma_holds_longer(b + next, scoped, " ("@);
    lemma_holds_longer(b + next, through, " ("@);
    lemma_holds_longer(c, scoped, overlap);
    lemma_holds_longer(c, through, overlap);
    lemma_holds_longer(c, window, overlap);
    lemma_holds_longer(c + overlap, scoped, "s overlap)"@);
    lemma_holds_longer(c + overlap, through, "s overlap)"@);
    lemma_holds_longer(c + overlap, window, "s overlap)"@);
    assert(text@.take(wiki.len() as int) =~= wiki);
}

/// An image policy that acquires nothing says so, and one that would is shown with its bounds.
pub proof fn law_image_policies_show_their_bounds(policy: ImagePolicy, text: String)
    requires
        call_ensures(image_policy_summary, (policy,), text),
    ensures
        policy is Off ==> text@ == "off (text capture is independent of media)"@,
        policy@ matches ImageView::Thumbnails(bounds) ==> holds_text(
            text@,
            " px, ≤ "@ + decimal(bounds.maximum_images_per_revision as nat)
                + " images/revision, ≤ "@,
        ) && holds_text(text@, decimal(bounds.maximum_edge_pixels as nat)) && holds_text(
            text@,
            " images/revision, ≤ "@ + size_text(bounds.maximum_bytes_per_image) + " per image"@,
        ),
{
    if let ImageView::Thumbnails(bounds) = policy@ {
        let start =
            "saved preview policy only; thumbnail download is not active in this build — edge ≤ "@;
        let edge = decimal(bounds.maximum_edge_pixels as nat);
        let images = decimal(bounds.maximum_images_per_revision as nat);
        let size = size_text(bounds.maximum_bytes_per_image);
        let a = start + edge;
        let b = a + " px, ≤ "@ + images + " images/revision, ≤ "@;
        let part = " px, ≤ "@ + images + " images/revision, ≤ "@;
        lemma_holds_text(start, edge, Seq::empty());
        assert(start + edge + Seq::<char>::empty() =~= a);
        lemma_holds_longer(a, edge, " px, ≤ "@);
        lemma_holds_longer(a + " px, ≤ "@, edge, images);
        lemma_holds_longer(a + " px, ≤ "@ + images, edge, " images/revision, ≤ "@);
        lemma_holds_at_end(a, " px, ≤ "@, images, " images/revision, ≤ "@);
        lemma_holds_longer(b, edge, size);
        lemma_holds_longer(b, part, size);
        lemma_holds_longer(b + size, edge, " per image"@);
        lemma_holds_longer(b + size, part, " per image"@);
        lemma_holds_at_end(a + " px, ≤ "@ + images, " images/revision, ≤ "@, size, " per image"@);
    }
}

} // verus!
