use std::path::PathBuf;

use bg3_save_manager::listing::require_existing_backup;
use bg3_save_manager::locations::{get_backup_dir, get_bg3_save_dir};

#[test]
fn backup_root_is_below_documents() {
    let r = get_backup_dir(Some(PathBuf::from("/home/u/Documents"))).unwrap();
    assert_eq!(r, PathBuf::from("/home/u/Documents/BG3_Backups"));
}

#[test]
fn missing_documents_folder_is_an_error() {
    assert_eq!(get_backup_dir(None), Err("Could not find Documents directory".to_string()));
}

#[test]
fn save_dir_is_below_local_data() {
    let r = get_bg3_save_dir(Some(PathBuf::from("/data"))).unwrap();
    assert_eq!(
        r,
        PathBuf::from("/data/Larian Studios/Baldur's Gate 3/PlayerProfiles/Public/Savegames/Story")
    );
    assert_eq!(get_bg3_save_dir(None), Err("Could not find Local AppData directory".to_string()));
}

#[test]
fn folders_of_this_machine() {
    if let Ok(p) = get_backup_dir(dirs::document_dir()) {
        assert!(p.ends_with("BG3_Backups"));
    }
    if let Ok(p) = get_bg3_save_dir(dirs::data_local_dir()) {
        assert!(p.ends_with("Story"));
    }
}

#[test]
fn deleting_or_annotating_a_missing_backup_fails() {
    assert_eq!(require_existing_backup("B__TS__1", true), Ok(()));
    assert_eq!(
        require_existing_backup("B__TS__1", false),
        Err("Backup 'B__TS__1' not found".to_string())
    );
}
