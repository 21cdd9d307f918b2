use bg3_save_manager::naming::{
    backup_name, backup_prefix, is_temp_folder, original_save_name, BACKUP_TIMESTAMP_FORMAT,
    temp_backup_dir_name, temp_restore_dir_name,
};

#[test]
fn backup_name_joins_save_and_timestamp() {
    assert_eq!(backup_name("Tav-1234", "20240131_235959"), "Tav-1234__TS__20240131_235959");
    assert_eq!(backup_prefix("Tav-1234"), "Tav-1234__TS__");
}

#[test]
fn backup_name_round_trips_to_the_save() {
    let name = backup_name("Quicksave", "20240101_000000");
    assert_eq!(original_save_name(&name), Ok("Quicksave".to_string()));
}

#[test]
fn backup_stamped_with_the_local_time_round_trips() {
    let stamp = chrono::Local::now().format(BACKUP_TIMESTAMP_FORMAT).to_string();
    assert_eq!(stamp.len(), 15);
    assert_eq!(&stamp[8..9], "_");
    let name = backup_name("Save_One", &stamp);
    assert!(name.starts_with("Save_One__TS__"));
    assert_eq!(original_save_name(&name), Ok("Save_One".to_string()));
}

#[test]
fn original_save_name_stops_at_the_first_separator() {
    assert_eq!(original_save_name("a__TS__b__TS__c"), Ok("a".to_string()));
    assert_eq!(original_save_name("a__TS__TS__"), Ok("a".to_string()));
}

#[test]
fn name_without_separator_is_the_save_itself() {
    assert_eq!(original_save_name("JustAFolder"), Ok("JustAFolder".to_string()));
}

#[test]
fn empty_save_name_is_an_error() {
    assert_eq!(
        original_save_name("__TS__20240101_000000"),
        Err("Could not determine original save name from backup name: '__TS__20240101_000000'".to_string())
    );
    assert_eq!(
        original_save_name(""),
        Err("Could not determine original save name from backup name: ''".to_string())
    );
}

#[test]
fn save_name_ending_in_part_of_separator_does_not_round_trip() {
    // The separator begins inside such a name, so the split happens early.
    let name = backup_name("x__TS", "1");
    assert_eq!(original_save_name(&name), Ok("x".to_string()));
}

#[test]
fn temp_folder_names() {
    assert_eq!(temp_backup_dir_name("S__TS__1", 42), ".tmp_S__TS__1_42");
    assert_eq!(temp_backup_dir_name("S", 0), ".tmp_S_0");
    assert_eq!(temp_restore_dir_name("S", 999_999_999), ".tmp_restore_S_999999999");
    assert_eq!(temp_restore_dir_name("S", u32::MAX), ".tmp_restore_S_4294967295");
    assert_eq!(temp_backup_dir_name("é", 10), ".tmp_é_10");
}

#[test]
fn temp_folders_are_recognized() {
    assert!(is_temp_folder(&temp_backup_dir_name("S", 7)));
    assert!(is_temp_folder(&temp_restore_dir_name("S", 7)));
    assert!(is_temp_folder(".tmp_"));
    assert!(!is_temp_folder(".tmp"));
    assert!(!is_temp_folder("Save.tmp_"));
    assert!(!is_temp_folder(""));
}
