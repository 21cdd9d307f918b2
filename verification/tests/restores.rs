use bg3_save_manager::restore::{mark_restored, recently_restored, RestoreTracker, RESTORE_GRACE_NANOS};

const SEC: u128 = 1_000_000_000;

#[test]
fn never_restored_save_is_not_recent() {
    let mut t = RestoreTracker::new();
    assert!(!recently_restored(&mut t, "Save", 0));
}

#[test]
fn restore_is_recent_for_thirty_seconds() {
    let mut t = RestoreTracker::new();
    mark_restored(&mut t, "Save", 100 * SEC);
    assert!(recently_restored(&mut t, "Save", 100 * SEC));
    assert!(recently_restored(&mut t, "Save", 100 * SEC + RESTORE_GRACE_NANOS - 1));
    assert!(!recently_restored(&mut t, "Other", 100 * SEC));
}

#[test]
fn restore_is_forgotten_after_thirty_seconds() {
    let mut t = RestoreTracker::new();
    mark_restored(&mut t, "Save", 0);
    assert!(!recently_restored(&mut t, "Save", 30 * SEC));
    // The record was dropped, so an earlier time no longer counts either.
    assert!(!recently_restored(&mut t, "Save", 1));
}

#[test]
fn clock_reading_before_the_restore_counts_as_no_time() {
    let mut t = RestoreTracker::new();
    mark_restored(&mut t, "Save", 50 * SEC);
    assert!(recently_restored(&mut t, "Save", 10 * SEC));
}

#[test]
fn second_restore_renews_the_record() {
    let mut t = RestoreTracker::new();
    mark_restored(&mut t, "Save", 0);
    mark_restored(&mut t, "Save", 20 * SEC);
    assert!(recently_restored(&mut t, "Save", 45 * SEC));
    assert!(!recently_restored(&mut t, "Save", 50 * SEC));
}
