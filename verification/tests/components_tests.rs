use netbook::components::{
    format_duration, format_file_size, truncate_text, try_truncate_text, JsonTreeComponent,
};
use netbook::paths::get_netbook_dir;
use std::path::PathBuf;

#[test]
fn test_format_file_size() {
    assert_eq!(format_file_size(500), "500 B");
    assert_eq!(format_file_size(1500), "1.5 KB");
    assert_eq!(format_file_size(1_500_000), "1.4 MB");
}

#[test]
fn test_truncate_text() {
    assert_eq!(truncate_text("hello", 10), "hello");
    assert_eq!(truncate_text("hello world", 8), "hello...");
    assert_eq!(truncate_text("hi", 5), "hi");
}

#[test]
fn test_get_netbook_dir() {
    let collection = PathBuf::from("/home/user/project/.netbook/collection.json");
    let netbook_dir = get_netbook_dir(&collection);
    assert_eq!(netbook_dir, PathBuf::from("/home/user/project/.netbook"));

    let simple = PathBuf::from("/home/user/project/netbook.json");
    let netbook_dir2 = get_netbook_dir(&simple);
    assert_eq!(netbook_dir2, PathBuf::from("/home/user/project/.netbook"));
}

fn float_file_size(bytes: usize) -> String {
    let units = ["B", "KB", "MB", "GB"];
    let mut size = bytes as f64;
    let mut unit_index = 0;
    while size >= 1024.0 && unit_index < units.len() - 1 {
        size /= 1024.0;
        unit_index += 1;
    }
    if unit_index == 0 {
        format!("{} {}", bytes, units[unit_index])
    } else {
        format!("{:.1} {}", size, units[unit_index])
    }
}

#[test]
fn file_size_agrees_with_floating_point_on_small_sizes() {
    for bytes in 0..200_000usize {
        assert_eq!(format_file_size(bytes), float_file_size(bytes), "at {}", bytes);
    }
}

#[test]
fn file_size_agrees_with_floating_point_at_ties_and_unit_borders() {
    let mut cases: Vec<usize> = vec![
        1023,
        1024,
        1075,
        1076,
        1077,
        1126,
        1127,
        1128,
        1152,
        1280,
        1048575,
        1048576,
        1073741823,
        1073741824,
        1127428915,
        1127428916,
        usize::MAX,
        usize::MAX - 1,
        usize::MAX / 2,
        (1usize << 53) - 1,
        1usize << 53,
        (1usize << 53) + 1,
        (1usize << 53) + 2,
        (1usize << 53) + 3,
        (1usize << 54) + 2,
        (1usize << 54) + 6,
        (1usize << 60) + 128,
        (1usize << 60) + 384,
    ];
    // Multiples of 2^9 and 2^19 hit exact halves of a tenth only rarely; add
    // sizes whose tenths are exact ties: k * 1024 / 20 for odd k.
    for k in 0..400usize {
        cases.push((2 * k + 1) * 1024 * 1024 / 20);
        cases.push(1024 * 1024 + (2 * k + 1) * 65536 / 5);
        cases.push(1024 + 64 * k);
        cases.push(1024 * 1024 * 5 + 52429 * k);
    }
    let mut x: u64 = 0x9e37_79b9_7f4a_7c15;
    for _ in 0..20_000 {
        x ^= x << 13;
        x ^= x >> 7;
        x ^= x << 17;
        cases.push(x as usize);
        cases.push((x >> 20) as usize);
        cases.push((x >> 40) as usize);
    }
    for bytes in cases {
        assert_eq!(format_file_size(bytes), float_file_size(bytes), "at {}", bytes);
    }
}

#[test]
fn truncate_cuts_three_bytes_short_of_the_limit() {
    assert_eq!(truncate_text("abcdefghij", 9), "abcdef...");
    assert_eq!(truncate_text("abcdefghij", 10), "abcdefghij");
    assert_eq!(truncate_text("abcdefghij", 3), "...");
    assert_eq!(truncate_text("abcdefghij", 0), "...");
}

#[test]
fn try_truncate_refuses_a_cut_inside_a_character() {
    // "é" takes two bytes: a cut after one byte falls inside it.
    assert_eq!(try_truncate_text("\u{e9}tudes", 4), None);
    assert_eq!(try_truncate_text("\u{e9}tudes", 5), Some("\u{e9}...".to_string()));
    assert_eq!(try_truncate_text("\u{e9}t", 5), Some("\u{e9}t".to_string()));
}

#[test]
fn toggle_path_opens_and_closes() {
    let mut tree = JsonTreeComponent::new();
    assert!(!tree.is_expanded("data.user"));
    tree.toggle_path("data.user");
    assert!(tree.is_expanded("data.user"));
    assert!(!tree.is_expanded("data"));
    tree.toggle_path("data.user");
    assert!(!tree.is_expanded("data.user"));
}

#[test]
fn test_format_duration() {
    assert_eq!(format_duration(500), "500ms");
    assert_eq!(format_duration(1500), "1.5s");
    assert_eq!(format_duration(65000), "1m 5.0s");
}

fn float_duration(millis: u64) -> String {
    if millis < 1000 {
        format!("{}ms", millis)
    } else if millis < 60000 {
        format!("{:.1}s", millis as f64 / 1000.0)
    } else {
        let minutes = millis / 60000;
        let seconds = (millis % 60000) as f64 / 1000.0;
        format!("{}m {:.1}s", minutes, seconds)
    }
}

#[test]
fn duration_agrees_with_floating_point_up_to_three_minutes() {
    for millis in 0..180_000u64 {
        assert_eq!(format_duration(millis), float_duration(millis), "at {}", millis);
    }
}

#[test]
fn duration_agrees_with_floating_point_on_large_values() {
    let mut x: u64 = 0x2545_f491_4f6c_dd1d;
    for _ in 0..20_000 {
        x ^= x << 13;
        x ^= x >> 7;
        x ^= x << 17;
        assert_eq!(format_duration(x), float_duration(x), "at {}", x);
        assert_eq!(format_duration(x >> 30), float_duration(x >> 30), "at {}", x >> 30);
    }
    assert_eq!(format_duration(u64::MAX), float_duration(u64::MAX));
}

#[test]
fn duration_rounds_half_a_tenth_as_the_double_lies() {
    // 1.25 is a double itself: the tie goes to the even tenth.
    assert_eq!(format_duration(1250), "1.2s");
    assert_eq!(format_duration(1750), "1.8s");
    // 1.35 and 1.45 are no doubles: the nearest double decides.
    assert_eq!(format_duration(1350), "1.4s");
    assert_eq!(format_duration(1450), "1.4s");
    assert_eq!(format_duration(999), "999ms");
    assert_eq!(format_duration(1000), "1.0s");
    assert_eq!(format_duration(59999), "60.0s");
    assert_eq!(format_duration(60000), "1m 0.0s");
}
