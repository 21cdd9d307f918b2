use bg3_save_manager::notes::{read_notes, write_notes};

#[test]
fn test_write_and_read_notes() {
    let file = write_notes("My backup notes").unwrap();
    let notes = read_notes(Some(file.as_str()));
    assert_eq!(notes, Some("My backup notes".to_string()));
}

#[test]
fn test_read_notes_returns_none_when_missing() {
    let notes = read_notes(None);
    assert_eq!(notes, None);
}

#[test]
fn test_write_notes_overwrites() {
    let mut file = write_notes("First notes").unwrap();
    file = write_notes("Updated notes").unwrap();
    let notes = read_notes(Some(file.as_str()));
    assert_eq!(notes, Some("Updated notes".to_string()));
}

#[test]
fn notes_file_is_pretty_printed_json_object() {
    let file = write_notes("hello").unwrap();
    assert_eq!(file, "{\n  \"notes\": \"hello\"\n}");
}

#[test]
fn notes_with_quotes_and_newlines_round_trip() {
    let text = "line one\n\"quoted\" \\ tab\t unicode é 🎲";
    let file = write_notes(text).unwrap();
    assert_eq!(read_notes(Some(file.as_str())), Some(text.to_string()));
}

#[test]
fn empty_notes_round_trip() {
    let file = write_notes("").unwrap();
    assert_eq!(read_notes(Some(file.as_str())), Some(String::new()));
}

#[test]
fn malformed_notes_file_gives_no_notes() {
    assert_eq!(read_notes(Some("not json")), None);
    assert_eq!(read_notes(Some("")), None);
}

#[test]
fn notes_member_must_be_a_string() {
    assert_eq!(read_notes(Some("{\"notes\": 5}")), None);
    assert_eq!(read_notes(Some("{\"other\": \"x\"}")), None);
    assert_eq!(read_notes(Some("[\"notes\"]")), None);
}

#[test]
fn notes_written_by_hand_are_read() {
    assert_eq!(
        read_notes(Some("{\"notes\":\"Act 2 start\",\"extra\":1}")),
        Some("Act 2 start".to_string())
    );
}

#[test]
fn notes_file_escapes_as_serde_json_does() {
    let file = write_notes("a\"b\\c\n\t\r\u{8}\u{c}\u{1}\u{1f}\u{7f}é").unwrap();
    assert_eq!(
        file,
        "{\n  \"notes\": \"a\\\"b\\\\c\\n\\t\\r\\b\\f\\u0001\\u001f\u{7f}é\"\n}"
    );
}
