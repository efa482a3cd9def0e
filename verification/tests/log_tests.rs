use pcli2_tui::log::{
    cached_entry, error_entry, extract_command_from_log_entry, success_entry, CommandLog,
    HISTORY_SHOWN, LOG_CAPACITY,
};

#[test]
fn log_keeps_the_newest_200_entries() {
    let mut log = CommandLog::new();
    for i in 1..=205 {
        log.add_log_entry(format!("entry {}", i));
    }
    assert_eq!(LOG_CAPACITY, 200);
    assert_eq!(log.log_entries.len(), 200);
    for i in 6..=205 {
        assert_eq!(log.log_entries[i - 6], format!("entry {}", i));
    }
    assert!(!log.log_entries.iter().any(|e| e == "entry 1"));
    assert!(!log.log_entries.iter().any(|e| e == "entry 5"));
    assert_eq!(log.log_scroll_position, 199);
    assert!(log.is_well_formed());
}

#[test]
fn log_below_its_capacity_keeps_everything() {
    let mut log = CommandLog::new();
    assert!(log.is_well_formed());
    assert_eq!(log.log_scroll_position, 0);
    for i in 0..200 {
        log.add_log_entry(format!("e{}", i));
        assert_eq!(log.log_entries.len(), i + 1);
        assert_eq!(log.log_scroll_position, i);
    }
    assert_eq!(log.log_entries[0], "e0");
    log.add_log_entry("last".to_string());
    assert_eq!(log.log_entries.len(), 200);
    assert_eq!(log.log_entries[0], "e1");
    assert_eq!(log.log_entries[199], "last");
}

#[test]
fn appending_scrolls_to_the_newest_entry() {
    let mut log = CommandLog::new();
    log.add_log_entry("a".to_string());
    log.add_log_entry("b".to_string());
    log.add_log_entry("c".to_string());
    log.scroll_up();
    log.scroll_up();
    assert_eq!(log.log_scroll_position, 0);
    log.add_log_entry("d".to_string());
    assert_eq!(log.log_scroll_position, 3);
    assert_eq!(log.selected_entry(), Some("d".to_string()));
}

#[test]
fn log_cursor_stays_on_an_entry() {
    let mut log = CommandLog::new();
    log.scroll_down();
    log.scroll_up();
    assert_eq!(log.log_scroll_position, 0);
    assert_eq!(log.selected_entry(), None);
    log.add_log_entry("a".to_string());
    log.add_log_entry("b".to_string());
    log.scroll_down();
    assert_eq!(log.log_scroll_position, 1);
    log.scroll_up();
    log.scroll_up();
    assert_eq!(log.log_scroll_position, 0);
    assert_eq!(log.selected_entry(), Some("a".to_string()));
    assert!(log.is_well_formed());
}

#[test]
fn log_pans_left_and_right() {
    let mut log = CommandLog::new();
    log.scroll_left();
    assert_eq!(log.log_horizontal_scroll, 0);
    log.scroll_right();
    log.scroll_right();
    assert_eq!(log.log_horizontal_scroll, 2);
    log.scroll_left();
    assert_eq!(log.log_horizontal_scroll, 1);
    log.log_horizontal_scroll = u16::MAX;
    log.scroll_right();
    assert_eq!(log.log_horizontal_scroll, u16::MAX);
}

#[test]
fn a_damaged_log_is_told_from_a_sound_one() {
    let mut log = CommandLog::new();
    log.log_scroll_position = 1;
    assert!(!log.is_well_formed());
    log.add_log_entry("a".to_string());
    assert!(log.is_well_formed());
    log.log_scroll_position = 1;
    assert!(!log.is_well_formed());
}

#[test]
fn log_lines_carry_stamp_tag_and_command() {
    assert_eq!(
        success_entry("12:34:56", "pcli2 folder list --format json"),
        "[12:34:56] ✓ SUCCESS: pcli2 folder list --format json"
    );
    assert_eq!(
        error_entry("00:00:01", "pcli2 asset list", "exit status 1"),
        "[00:00:01] ✗ ERROR: pcli2 asset list - exit status 1"
    );
    assert_eq!(cached_entry("23:59:59", "cmd"), "[23:59:59] ✓ CACHED: cmd");
}

#[test]
fn the_command_of_a_line_is_what_follows_the_tag() {
    assert_eq!(
        extract_command_from_log_entry("[12:34:56] ✓ SUCCESS: pcli2 folder list --format json"),
        "pcli2 folder list --format json"
    );
    assert_eq!(
        extract_command_from_log_entry("[12:34:56] ✓ CACHED: pcli2 asset list --folder-path \"a\""),
        "pcli2 asset list --folder-path \"a\""
    );
}

#[test]
fn the_command_of_an_error_line_leaves_the_details_out() {
    assert_eq!(
        extract_command_from_log_entry("[12:34:56] ✗ ERROR: pcli2 asset list - it failed - badly"),
        "pcli2 asset list"
    );
    assert_eq!(extract_command_from_log_entry("x:  padded   - y"), "padded");
}

#[test]
fn a_line_without_a_tag_is_its_own_command() {
    assert_eq!(extract_command_from_log_entry("no tag here"), "no tag here");
    assert_eq!(extract_command_from_log_entry("12:34:56"), "12:34:56");
    assert_eq!(extract_command_from_log_entry(""), "");
    assert_eq!(extract_command_from_log_entry("tag: "), "");
}

#[test]
fn extracting_inverts_the_formatting_of_a_line() {
    let command = "pcli2 asset get --uuid \"u-1\" --format json --metadata";
    assert_eq!(extract_command_from_log_entry(&success_entry("01:02:03", command)), command);
    assert_eq!(extract_command_from_log_entry(&cached_entry("01:02:03", command)), command);
    assert_eq!(
        extract_command_from_log_entry(&error_entry("01:02:03", command, "nope")),
        command
    );
}

#[test]
fn the_history_is_not_capped_and_is_shown_newest_first() {
    let mut log = CommandLog::new();
    for i in 1..=260 {
        log.record_command(format!("cmd {}", i));
    }
    assert_eq!(log.command_history.len(), 260);
    assert_eq!(log.last_executed_command, "cmd 260");
    let shown = log.recent_commands();
    assert_eq!(HISTORY_SHOWN, 50);
    assert_eq!(shown.len(), 50);
    assert_eq!(shown[0], "cmd 260");
    assert_eq!(shown[49], "cmd 211");
}

#[test]
fn a_short_history_is_shown_whole() {
    let mut log = CommandLog::new();
    assert!(log.recent_commands().is_empty());
    log.record_command("a".to_string());
    log.record_command("b".to_string());
    assert_eq!(log.recent_commands(), vec!["b".to_string(), "a".to_string()]);
    assert!(log.log_entries.is_empty());
}
