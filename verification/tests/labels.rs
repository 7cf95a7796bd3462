use wikisyncd::labels::{
    checkpoint_summary, choice_label, clock_text, format_bytes, format_signed_bytes,
    image_policy_summary, replace_first, schedule_label, storage_bytes_label, storage_files_label,
    title_case, StorageUsage, SyncCheckpoint,
};
use wikisyncd::model::{ImagePolicy, ScheduleCadence, ThumbnailPolicy};
use wikisyncd::text::{
    contains_text, decimal_text, parse_signed, parse_unsigned, signed_decimal_text, trim,
};

#[test]
fn formats_storage_sizes_for_people() {
    assert_eq!(format_bytes(0), "0 B");
    assert_eq!(format_bytes(1536), "1.5 KiB");
    assert_eq!(format_bytes(2 * 1024 * 1024), "2.0 MiB");
}

#[test]
fn unavailable_storage_is_not_rendered_as_zero() {
    let unavailable = Err("permission denied".to_owned());
    assert_eq!(storage_bytes_label(&unavailable), "Unavailable");
    assert_eq!(storage_files_label(&unavailable), "Unavailable");
}

fn expected_size(bytes: u64) -> String {
    const UNITS: [&str; 5] = ["B", "KiB", "MiB", "GiB", "TiB"];
    let mut value = bytes as f64;
    let mut unit = 0;
    while value >= 1024.0 && unit < UNITS.len() - 1 {
        value /= 1024.0;
        unit += 1;
    }
    if unit == 0 {
        format!("{bytes} {}", UNITS[unit])
    } else {
        format!("{value:.1} {}", UNITS[unit])
    }
}

#[test]
fn sizes_agree_with_floating_point_formatting() {
    let mut samples = vec![
        0,
        1,
        1_023,
        1_024,
        1_075,
        1_076,
        1_100,
        1_127,
        1_178,
        1_179,
        1_281,
        1_383,
        1_048_575,
        1_048_576,
        1_073_741_823,
        1_099_511_627_776,
        (1 << 53) - 1,
        (1 << 53) + 1,
        (1 << 60) + 12_345,
        u64::MAX - 1_024,
        u64::MAX - 1,
        u64::MAX,
    ];
    let mut state: u64 = 0x9e37_79b9_7f4a_7c15;
    for shift in 0..60_u32 {
        for _ in 0..40 {
            state = state
                .wrapping_mul(6_364_136_223_846_793_005)
                .wrapping_add(1_442_695_040_888_963_407);
            samples.push(state >> shift);
        }
    }
    for step in 0..4_096_u64 {
        samples.push(1_024 + step);
        samples.push((1 << 20) + step * 51);
    }
    for bytes in samples {
        assert_eq!(format_bytes(bytes), expected_size(bytes), "{bytes} bytes");
    }
}

#[test]
fn directory_usage_counts_nested_regular_files() {
    let nested = StorageUsage::empty().with_file(4);
    let usage = StorageUsage::empty().with_file(3).with_directory(nested);
    assert_eq!((usage.bytes, usage.files), (7, 2));
    assert_eq!(storage_bytes_label(&Ok(usage)), "7 B");
    assert_eq!(storage_files_label(&Ok(usage)), "2");
    assert_eq!(
        StorageUsage::empty()
            .with_file(u64::MAX)
            .with_file(9)
            .bytes,
        u64::MAX
    );
}

#[test]
fn signed_sizes_keep_their_sign() {
    assert_eq!(format_signed_bytes(1536), "1.5 KiB");
    assert_eq!(format_signed_bytes(-1536), "-1.5 KiB");
    assert_eq!(format_signed_bytes(0), "0 B");
    assert!(format_signed_bytes(i64::MIN).starts_with('-'));
}

#[test]
fn titles_start_with_a_capital() {
    assert_eq!(title_case("bootstrap"), "Bootstrap");
    assert_eq!(title_case("éclair"), "Éclair");
    assert_eq!(title_case("ßa"), "SSa");
    assert_eq!(title_case(""), "");
    assert_eq!(replace_first("X", "abc"), "Xbc");
    assert_eq!(replace_first("X", ""), "");
}

#[test]
fn choices_and_schedules_are_shown() {
    assert_eq!(choice_label("Sync", true), "• Sync");
    assert_eq!(choice_label("Sync", false), "Sync");
    assert_eq!(clock_text(24_300), "06:45");
    assert_eq!(schedule_label(ScheduleCadence::Manual, false), "Manual");
    assert_eq!(
        schedule_label(ScheduleCadence::interval(5_400).expect("interval"), true),
        "Every 90 min · paused"
    );
    assert_eq!(
        schedule_label(ScheduleCadence::daily_utc(24_300).expect("time"), false),
        "Daily 06:45 UTC"
    );
    assert_eq!(
        image_policy_summary(ImagePolicy::Off),
        "off (text capture is independent of media)"
    );
    let thumbnails = ThumbnailPolicy::new(640, 8, 1_048_576).expect("policy");
    assert!(image_policy_summary(ImagePolicy::Thumbnails(thumbnails))
        .ends_with("edge ≤ 640 px, ≤ 8 images/revision, ≤ 1.0 MiB per image"));
    assert_eq!(
        checkpoint_summary(&SyncCheckpoint {
            wiki_id: 1,
            collection_id: None,
            committed_through: 20,
            next_window_start: 15,
            overlap_seconds: 5,
        }),
        "Wiki 1 · all collections · committed through 20 · next window 15 (5s overlap)"
    );
}

#[test]
fn numbers_are_read_as_the_standard_library_reads_them() {
    for text in [
        "0", "007", "+5", "-5", "", "+", "18446744073709551615", "18446744073709551616", "1a", " 1",
        "-0", "9223372036854775807", "9223372036854775808", "-9223372036854775808",
        "-9223372036854775809", "--1", "٣",
    ] {
        assert_eq!(
            parse_unsigned(text, u64::MAX),
            text.parse::<u64>().ok(),
            "{text:?}"
        );
        assert_eq!(parse_signed(text), text.parse::<i64>().ok(), "{text:?}");
        assert_eq!(
            parse_unsigned(text, u32::MAX as u64),
            text.parse::<u32>().ok().map(u64::from),
            "{text:?}"
        );
    }
    for number in [0, 9, 10, 1_234_567, u64::MAX] {
        assert_eq!(decimal_text(number), number.to_string());
    }
    for number in [0, -1, i64::MIN, i64::MAX] {
        assert_eq!(signed_decimal_text(number), number.to_string());
    }
}

#[test]
fn texts_are_trimmed_and_searched() {
    for text in ["", "  a b ", "\u{a0}x\u{2003}", "\ty\r\n", "\u{200b}z", "\u{85}q\u{3000}"] {
        assert_eq!(trim(text), text.trim(), "{text:?}");
    }
    assert!(contains_text("stale collection generation 4", "collection"));
    assert!(contains_text("abc", ""));
    assert!(contains_text("aab", "ab"));
    assert!(!contains_text("abc", "abcd"));
}
