use pcli2_tui::cache::CacheManager;
use pcli2_tui::clock::{clock_stamp, digit, fresh, Moment, FRESH_FOR_MILLIS};
use pcli2_tui::model::FolderCache;

fn entry(timestamp: i64) -> FolderCache {
    FolderCache {
        folders: Some(Vec::new()),
        folders_timestamp: timestamp,
        assets: Some(Vec::new()),
        assets_timestamp: timestamp,
    }
}

#[test]
fn an_entry_is_fresh_for_less_than_300_seconds() {
    assert_eq!(FRESH_FOR_MILLIS, 300_000);
    assert!(fresh(1_000, 1_000));
    assert!(fresh(1_000, 1_000 + 299_999));
    assert!(!fresh(1_000, 1_000 + 300_000));
    assert!(!fresh(1_000, 1_000 + 300_001));
}

#[test]
fn an_entry_from_the_future_is_not_fresh() {
    assert!(!fresh(1_001, 1_000));
    assert!(!fresh(i64::MAX, i64::MIN));
    assert!(!fresh(i64::MIN, i64::MAX));
    assert!(fresh(-5, -5));
}

#[test]
fn the_cache_hands_out_fresh_entries_only() {
    let mut cache = CacheManager::new();
    assert!(cache.get("a", 0).is_none());
    cache.put("a".to_string(), entry(10_000));
    assert_eq!(cache.get("a", 10_000).map(|e| e.folders_timestamp), Some(10_000));
    assert_eq!(cache.get("a", 309_999).map(|e| e.folders_timestamp), Some(10_000));
    assert!(cache.get("a", 310_000).is_none());
    assert!(cache.get("a", 9_999).is_none());
    assert!(cache.get("b", 10_000).is_none());
}

#[test]
fn a_stale_entry_stays_until_it_is_overwritten() {
    let mut cache = CacheManager::new();
    cache.put("a".to_string(), entry(0));
    assert!(cache.get("a", 400_000).is_none());
    assert!(cache.contains("a"));
    cache.put("a".to_string(), entry(400_000));
    assert_eq!(cache.get("a", 400_001).map(|e| e.folders_timestamp), Some(400_000));
}

#[test]
fn invalidating_removes_one_entry_and_no_other() {
    let mut cache = CacheManager::new();
    cache.put("a".to_string(), entry(0));
    cache.put("a/b".to_string(), entry(0));
    cache.put("".to_string(), entry(0));
    cache.invalidate("a/b");
    assert!(!cache.contains("a/b"));
    assert!(cache.contains("a"));
    assert!(cache.contains(""));
    assert!(cache.get("a", 1).is_some());
    cache.invalidate("missing");
    assert!(cache.contains("a"));
}

#[test]
fn a_moment_takes_a_clock_stamp_only() {
    let moment = Moment::new(1_234, "23:59:60".to_string()).unwrap();
    assert_eq!(moment.epoch_millis, 1_234);
    assert_eq!(moment.stamp, "23:59:60");
    assert!(Moment::new(-5, "00:00:00".to_string()).is_some());
    for stamp in ["", "1:02:03", "01:02:3", "01-02-03", "01:02:03 ", "0a:02:03", "01:02:03:04", "٠١:٠٢:٠٣"] {
        assert!(Moment::new(0, stamp.to_string()).is_none(), "{:?}", stamp);
    }
}

#[test]
fn clock_stamps_are_told_from_other_texts() {
    assert!(clock_stamp("12:00:00"));
    assert!(clock_stamp("99:99:99"));
    assert!(!clock_stamp("12:00:0x"));
    assert!(!clock_stamp("12 00 00"));
    assert!(!clock_stamp("12:00"));
    assert!(digit('0') && digit('9'));
    assert!(!digit('/') && !digit(':') && !digit('a'));
}

#[test]
fn each_part_of_an_entry_ages_by_its_own_time() {
    let mut cache = CacheManager::new();
    cache.put_folders("a".to_string(), Vec::new(), 1_000);
    let entry = cache.get("a", 1_000).unwrap();
    assert!(entry.folders.is_some());
    assert!(entry.assets.is_none());
    assert_eq!(entry.folders_timestamp, 1_000);
    assert!(cache.folders("a", 1_000).is_some());
    assert!(cache.assets("a", 1_000).is_none());
    cache.put_assets("a".to_string(), Vec::new(), 2_000);
    let entry = cache.get("a", 2_000).unwrap();
    assert!(entry.folders.is_some());
    assert!(entry.assets.is_some());
    assert_eq!(entry.folders_timestamp, 1_000);
    assert_eq!(entry.assets_timestamp, 2_000);
    assert!(cache.folders("a", 300_999).is_some());
    assert!(cache.folders("a", 301_000).is_none());
    assert!(cache.assets("a", 301_000).is_some());
    assert!(cache.assets("a", 301_999).is_some());
    assert!(cache.assets("a", 302_000).is_none());
    let entry = cache.get("a", 301_500).unwrap();
    assert!(entry.folders.is_none());
    assert!(entry.assets.is_some());
    assert!(cache.get("a", 302_000).is_none());
    assert!(cache.contains("a"));
}

#[test]
fn a_part_written_late_is_fresh_for_its_full_time() {
    let mut cache = CacheManager::new();
    cache.put_assets("x".to_string(), Vec::new(), 0);
    cache.put_folders("x".to_string(), Vec::new(), 250_000);
    assert!(cache.folders("x", 310_000).is_some());
    assert!(cache.folders("x", 549_999).is_some());
    assert!(cache.folders("x", 550_000).is_none());
    assert!(cache.assets("x", 299_999).is_some());
    assert!(cache.assets("x", 300_000).is_none());
    assert!(cache.assets("x", 310_000).is_none());
}

#[test]
fn writing_one_part_leaves_the_other_and_the_other_entries() {
    let mut cache = CacheManager::new();
    cache.put_folders("a".to_string(), Vec::new(), 0);
    cache.put_assets("a".to_string(), Vec::new(), 300_000);
    let entry = cache.get("a", 300_000).unwrap();
    assert!(entry.folders.is_none());
    assert!(entry.assets.is_some());
    assert_eq!(entry.assets_timestamp, 300_000);
    cache.put_folders("a".to_string(), Vec::new(), 700_000);
    let entry = cache.get("a", 700_000).unwrap();
    assert!(entry.folders.is_some());
    assert!(entry.assets.is_none());
    assert_eq!(entry.folders_timestamp, 700_000);
    assert_eq!(entry.assets_timestamp, 300_000);
    cache.put_assets("b".to_string(), Vec::new(), 5);
    assert!(cache.folders("b", 5).is_none());
    assert!(cache.get("a", 700_000).is_some());
}
