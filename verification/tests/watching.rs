use bg3_save_manager::restore::{mark_restored, RestoreTracker};
use bg3_save_manager::watcher::{
    affected_save_folders, should_back_up, AutoBackupState, WatchAction, WatchEvent, COOLDOWN_NANOS,
};

const SEC: u128 = 1_000_000_000;

fn path(parts: &[&str]) -> Vec<Option<String>> {
    parts.iter().map(|p| Some(p.to_string())).collect()
}

fn names(action: WatchAction) -> Option<Vec<String>> {
    match action {
        WatchAction::BackUp(v) => Some(v),
        _ => None,
    }
}

#[test]
fn affected_folders_are_distinct_and_in_first_seen_order() {
    let events = vec![
        path(&["/", "saves", "B", "x.lsv"]),
        path(&["/", "saves", "A", "y.webp"]),
        path(&["/", "saves", "B", "z"]),
        path(&["/", "saves"]),
        vec![Some("/".to_string()), Some("saves".to_string()), None, Some("q".to_string())],
    ];
    assert_eq!(affected_save_folders(&events, 2), vec!["B".to_string(), "A".to_string()]);
}

#[test]
fn timeout_waits_and_closed_channel_stops() {
    let s = AutoBackupState::new();
    assert!(matches!(s.on_event(&WatchEvent::Timeout, 2, 0), WatchAction::Wait));
    assert!(matches!(s.on_event(&WatchEvent::ChannelClosed, 2, 0), WatchAction::Stop));
}

#[test]
fn empty_burst_is_a_debounce_failure() {
    let s = AutoBackupState::new();
    assert!(matches!(s.on_event(&WatchEvent::Burst(vec![]), 2, 0), WatchAction::DebounceFailed));
}

#[test]
fn burst_outside_save_folders_backs_up_nothing() {
    let s = AutoBackupState::new();
    let ev = WatchEvent::Burst(vec![path(&["/", "saves"])]);
    assert!(matches!(s.on_event(&ev, 2, 0), WatchAction::NoSaveFolders));
}

#[test]
fn burst_backs_up_touched_saves() {
    let s = AutoBackupState::new();
    let ev = WatchEvent::Burst(vec![path(&["/", "saves", "A", "f"]), path(&["/", "saves", "A", "g"])]);
    assert_eq!(names(s.on_event(&ev, 2, 0)), Some(vec!["A".to_string()]));
}

#[test]
fn cooldown_after_a_backup_round() {
    let mut s = AutoBackupState::new();
    s.on_round_finished(true, 100 * SEC);
    assert_eq!(s.last_backup, Some(100 * SEC));
    let ev = WatchEvent::Burst(vec![path(&["/", "saves", "A", "f"])]);
    assert!(matches!(s.on_event(&ev, 2, 100 * SEC + COOLDOWN_NANOS - 1), WatchAction::CoolingDown));
    assert_eq!(names(s.on_event(&ev, 2, 100 * SEC + COOLDOWN_NANOS)), Some(vec!["A".to_string()]));
}

#[test]
fn round_without_backup_starts_no_cooldown() {
    let mut s = AutoBackupState::new();
    s.on_round_finished(false, 5 * SEC);
    assert_eq!(s.last_backup, None);
    s.on_round_finished(true, 5 * SEC);
    s.on_round_finished(false, 8 * SEC);
    assert_eq!(s.last_backup, Some(5 * SEC));
}

#[test]
fn temporary_and_just_restored_folders_are_skipped() {
    let mut t = RestoreTracker::new();
    mark_restored(&mut t, "Restored", 0);
    assert!(!should_back_up(&mut t, ".tmp_restore_Restored_12", 0));
    assert!(!should_back_up(&mut t, ".tmp_X__TS__1_5", 0));
    assert!(!should_back_up(&mut t, "Restored", 29 * SEC));
    assert!(should_back_up(&mut t, "Restored", 30 * SEC));
    assert!(should_back_up(&mut t, "Other", 0));
}
