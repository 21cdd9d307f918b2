use bg3_save_manager::backup::previews_match;
use bg3_save_manager::preview::{is_webp_file_name, pick_preview, ListedEntry, PreviewPick};

fn file(name: &str) -> ListedEntry {
    ListedEntry { name: name.to_string(), children: None }
}

fn dir(name: &str, children: &[&str]) -> ListedEntry {
    ListedEntry { name: name.to_string(), children: Some(children.iter().map(|c| c.to_string()).collect()) }
}

#[test]
fn webp_extension_in_any_case() {
    assert!(is_webp_file_name("Save.webp"));
    assert!(is_webp_file_name("Save.WEBP"));
    assert!(is_webp_file_name("a.b.WebP"));
    assert!(!is_webp_file_name("Save.lsv"));
    assert!(!is_webp_file_name("webp"));
    assert!(!is_webp_file_name(".webp"));
    assert!(!is_webp_file_name("a.webp.png"));
    assert!(!is_webp_file_name("a."));
    assert!(!is_webp_file_name(".."));
    assert!(!is_webp_file_name("a.webpp"));
    assert!(!is_webp_file_name("a.wébp"));
    assert!(is_webp_file_name("..webp"));
}

#[test]
fn direct_preview_comes_first() {
    let entries = vec![dir("Inner", &["x.webp"]), file("save.lsv"), file("save.webp")];
    assert_eq!(pick_preview(&entries), Some(PreviewPick::Direct(2)));
}

#[test]
fn nested_preview_of_a_backup() {
    let entries = vec![file("notes.json"), dir("Empty", &[]), dir("Save", &["save.lsv", "Save.WEBP", "b.webp"])];
    assert_eq!(pick_preview(&entries), Some(PreviewPick::Nested(2, 1)));
}

#[test]
fn no_preview() {
    let entries = vec![file("notes.json"), dir("Save", &["save.lsv"])];
    assert_eq!(pick_preview(&entries), None);
    assert_eq!(pick_preview(&vec![]), None);
}

#[test]
fn matching_previews_skip_the_backup() {
    assert!(previews_match(&Ok(vec![1, 2, 3]), &Ok(vec![1, 2, 3])));
    assert!(!previews_match(&Ok(vec![1, 2, 3]), &Ok(vec![1, 2, 4])));
    assert!(!previews_match(&Ok(vec![1, 2]), &Ok(vec![1, 2, 3])));
    assert!(!previews_match(&Err("x".to_string()), &Ok(vec![1])));
    assert!(!previews_match(&Ok(vec![1]), &Err("y".to_string())));
    assert!(previews_match(&Ok(vec![]), &Ok(vec![])));
}
