use bg3_save_manager::listing::{
    find_latest_backup, folder_last_modified, sort_newest_first, SaveFolder,
};

fn folder(name: &str, t: u64) -> SaveFolder {
    SaveFolder { name: name.to_string(), path: format!("/saves/{}", name), last_modified: t, notes: None }
}

fn names(v: &[SaveFolder]) -> Vec<&str> {
    v.iter().map(|f| f.name.as_str()).collect()
}

#[test]
fn last_modified_is_the_latest_time() {
    assert_eq!(folder_last_modified(5, &vec![3, 9, 7]), 9);
    assert_eq!(folder_last_modified(10, &vec![3, 9, 7]), 10);
    assert_eq!(folder_last_modified(5, &vec![]), 5);
    assert_eq!(folder_last_modified(0, &vec![0, u64::MAX]), u64::MAX);
}

#[test]
fn listing_is_sorted_newest_first() {
    let sorted = sort_newest_first(vec![folder("a", 1), folder("b", 3), folder("c", 2)]);
    assert_eq!(names(&sorted), vec!["b", "c", "a"]);
}

#[test]
fn sorting_is_stable_for_equal_times() {
    let sorted = sort_newest_first(vec![
        folder("a", 5),
        folder("b", 7),
        folder("c", 5),
        folder("d", 7),
        folder("e", 5),
    ]);
    assert_eq!(names(&sorted), vec!["b", "d", "a", "c", "e"]);
}

#[test]
fn sorting_keeps_every_folder() {
    let input = vec![folder("x", 2), folder("y", 2), folder("z", 0), folder("w", 9)];
    let mut sorted = sort_newest_first(input.clone());
    assert_eq!(sorted.len(), 4);
    sorted.sort_by(|a, b| a.name.cmp(&b.name));
    let mut expected = input;
    expected.sort_by(|a, b| a.name.cmp(&b.name));
    assert_eq!(sorted, expected);
}

#[test]
fn empty_listing_sorts_to_empty() {
    assert!(sort_newest_first(vec![]).is_empty());
}

#[test]
fn latest_backup_is_first_matching_name() {
    let backups = sort_newest_first(vec![
        folder("Other__TS__20240105_000000", 50),
        folder("Save__TS__20240101_000000", 10),
        folder("Save__TS__20240102_000000", 20),
        folder("Save2__TS__20240103_000000", 30),
    ]);
    let i = find_latest_backup(&backups, "Save").unwrap();
    assert_eq!(backups[i].name, "Save__TS__20240102_000000");
    assert_eq!(find_latest_backup(&backups, "Missing"), None);
    assert_eq!(find_latest_backup(&backups, "Save2").map(|i| backups[i].last_modified), Some(30));
}

#[test]
fn prefix_of_another_save_does_not_match() {
    let backups = vec![folder("Save2__TS__1", 5)];
    assert_eq!(find_latest_backup(&backups, "Save"), None);
}
