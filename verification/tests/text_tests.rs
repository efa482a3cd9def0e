use pcli2_tui::app::{count_message, join, join3};
use pcli2_tui::keys::{applied_message, lower, raise, resize_message};
use pcli2_tui::text::{
    contains_separator, find_first, find_last, find_text, first_segment_of, is_blank_text,
    is_space_char, leaf_of, parent_of, push_decimal, push_signed_decimal, push_text, same_text,
    text_of, to_chars, trimmed,
};

fn chars(s: &str) -> Vec<char> {
    s.chars().collect()
}

#[test]
fn parent_of_a_nested_path_is_everything_before_the_last_separator() {
    assert_eq!(parent_of("a/b/c"), "a/b");
    assert_eq!(parent_of("a/b"), "a");
}

#[test]
fn parent_of_a_top_level_path_is_the_root() {
    assert_eq!(parent_of("a"), "");
    assert_eq!(parent_of(""), "");
}

#[test]
fn parent_of_a_path_with_a_leading_separator_is_empty() {
    assert_eq!(parent_of("/x"), "");
}

#[test]
fn leaf_of_a_path_is_its_last_segment() {
    assert_eq!(leaf_of("a/b"), "b");
    assert_eq!(leaf_of("a/b/c"), "c");
    assert_eq!(leaf_of("plain"), "plain");
    assert_eq!(leaf_of("a/"), "");
    assert_eq!(leaf_of(""), "");
}

#[test]
fn first_segment_of_a_path_is_what_precedes_the_first_separator() {
    assert_eq!(first_segment_of("proj/sub/file.stl"), "proj");
    assert_eq!(first_segment_of("file.stl"), "file.stl");
    assert_eq!(first_segment_of("/abs"), "");
    assert_eq!(first_segment_of(""), "");
}

#[test]
fn parent_separator_and_leaf_give_the_path_back() {
    for path in ["a/b", "a/b/c", "/x", "x/", "a//b"] {
        let joined = format!("{}/{}", parent_of(path), leaf_of(path));
        assert_eq!(joined, path);
        assert!(!contains_separator(&leaf_of(path)));
    }
}

#[test]
fn contains_separator_tells_nested_paths_from_top_level_ones() {
    assert!(contains_separator("a/b"));
    assert!(contains_separator("/"));
    assert!(!contains_separator("ab"));
    assert!(!contains_separator(""));
}

#[test]
fn find_first_and_find_last_give_the_outermost_places() {
    let v = chars("a/b/c");
    assert_eq!(find_first(&v, '/'), Some(1));
    assert_eq!(find_last(&v, '/'), Some(3));
    assert_eq!(find_first(&v, 'x'), None);
    assert_eq!(find_last(&v, 'x'), None);
    assert_eq!(find_last(&chars(""), '/'), None);
}

#[test]
fn find_text_gives_the_first_occurrence_counted_from_the_start_place() {
    let hay = chars("ab: cd: ef");
    let needle = chars(": ");
    assert_eq!(find_text(&hay, 0, &needle), Some(2));
    assert_eq!(find_text(&hay, 3, &needle), Some(3));
    assert_eq!(find_text(&hay, 8, &needle), None);
    assert_eq!(find_text(&hay, 10, &needle), None);
    assert_eq!(find_text(&hay, 0, &chars("")), Some(0));
    assert_eq!(find_text(&chars("a"), 0, &chars("abc")), None);
    assert_eq!(find_text(&chars("aab"), 0, &chars("ab")), Some(1));
}

#[test]
fn blank_texts_hold_only_white_space() {
    assert!(is_blank_text(""));
    assert!(is_blank_text("   "));
    assert!(is_blank_text(" \t\n\r"));
    assert!(is_blank_text("\u{a0}\u{2003}\u{3000}"));
    assert!(!is_blank_text(" a "));
    assert!(!is_blank_text("\u{200b}"));
}

#[test]
fn white_space_is_what_the_standard_library_calls_white_space() {
    let mut n: u32 = 0;
    while n <= 0x3100 {
        if let Some(c) = char::from_u32(n) {
            assert_eq!(is_space_char(c), c.is_whitespace(), "U+{:04X}", n);
        }
        n += 1;
    }
}

#[test]
fn trimmed_drops_the_white_space_at_both_ends_only() {
    let v = chars("  a b \t");
    assert_eq!(trimmed(&v, 0, v.len()), "a b");
    assert_eq!(trimmed(&v, 2, 5), "a b");
    assert_eq!(trimmed(&v, 0, 2), "");
    assert_eq!(trimmed(&v, 3, 4), "");
    assert_eq!(trimmed(&chars(""), 0, 0), "");
}

#[test]
fn to_chars_and_text_of_are_inverse() {
    let v = to_chars("héllo ✓");
    assert_eq!(v, chars("héllo ✓"));
    assert_eq!(text_of(&v, 0, v.len()), "héllo ✓");
    assert_eq!(text_of(&v, 1, 3), "él");
    assert_eq!(text_of(&v, 2, 2), "");
}

#[test]
fn same_text_compares_character_by_character() {
    assert!(same_text("..", ".."));
    assert!(same_text("", ""));
    assert!(!same_text("..", "."));
    assert!(!same_text("ab", "ac"));
}

#[test]
fn decimal_numbers_have_no_leading_zeros() {
    for (n, text) in [(0u64, "0"), (7, "7"), (10, "10"), (205, "205"), (u64::MAX, "18446744073709551615")] {
        let mut s = String::from("n=");
        push_decimal(&mut s, n);
        assert_eq!(s, format!("n={}", text));
    }
}

#[test]
fn signed_decimal_numbers_carry_a_minus_sign() {
    for n in [0i32, 1, -1, 42, -42, i32::MAX, i32::MIN] {
        let mut s = String::new();
        push_signed_decimal(&mut s, n);
        assert_eq!(s, n.to_string());
    }
}

#[test]
fn push_text_appends() {
    let mut s = String::from("ab");
    push_text(&mut s, "cd ✗");
    push_text(&mut s, "");
    assert_eq!(s, "abcd ✗");
}

#[test]
fn messages_are_joined_from_their_parts() {
    assert_eq!(count_message("Loaded ", 12, " assets"), "Loaded 12 assets");
    assert_eq!(count_message("", 0, ""), "0");
    assert_eq!(join("Search failed: ", "boom"), "Search failed: boom");
    assert_eq!(join3("Loading assets for ", "p1", "..."), "Loading assets for p1...");
}

#[test]
fn resize_messages_show_the_deltas() {
    assert_eq!(resize_message("vertically", -3), "Resize: Adjusting vertically (-3)");
    assert_eq!(resize_message("horizontally", 2), "Resize: Adjusting horizontally (2)");
    assert_eq!(applied_message(1, -1), "Resize applied: dx=1, dy=-1");
}

#[test]
fn deltas_stop_at_the_ends_of_their_type() {
    assert_eq!(raise(0), 1);
    assert_eq!(lower(0), -1);
    assert_eq!(raise(i32::MAX), i32::MAX);
    assert_eq!(lower(i32::MIN), i32::MIN);
}
