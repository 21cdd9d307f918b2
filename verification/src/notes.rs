//! The notes file of a backup: a JSON object whose `notes` member holds the
//! text of the notes. Reading and writing the file is left to the caller;
//! this module turns file contents into notes and notes into file contents.

use vstd::prelude::*;

verus! {

/// The string in the member `key` of the JSON text `text`, when `text`
/// parses as JSON and that member is a string (what serde_json's parser makes
/// of the text).
pub uninterp spec fn json_string_member(text: Seq<char>, key: Seq<char>) -> Option<Seq<char>>;

/// The member name under which a notes file keeps the notes.
pub open spec fn notes_key() -> Seq<char> {
    "notes"@
}

/// The four-bit value `d` as a lower-case hexadecimal digit.
pub open spec fn hex_digit(d: nat) -> char {
    if d < 10 {
        ((d + 48) as u8) as char
    } else {
        ((d + 87) as u8) as char
    }
}

/// How serde_json writes the character `c` inside a JSON string: quote and
/// backslash after a backslash, the control characters with short names as
/// `\b \t \n \f \r`, the other control characters below 0x20 as `\u00xx`,
/// and every other character as itself.
pub open spec fn json_escaped_char(c: char) -> Seq<char> {
    let n = c as u32;
    if c == '"' {
        seq!['\\', '"']
    } else if c == '\\' {
        seq!['\\', '\\']
    } else if n == 8 {
        seq!['\\', 'b']
    } else if n == 9 {
        seq!['\\', 't']
    } else if n == 10 {
        seq!['\\', 'n']
    } else if n == 12 {
        seq!['\\', 'f']
    } else if n == 13 {
        seq!['\\', 'r']
    } else if n < 32 {
        seq!['\\', 'u', '0', '0', hex_digit((n / 16) as nat), hex_digit((n % 16) as nat)]
    } else {
        seq![c]
    }
}

/// The characters of `s` as serde_json writes them inside a JSON string.
pub open spec fn json_escaped(s: Seq<char>) -> Seq<char>
    decreases s.len(),
{
    if s.len() == 0 {
        Seq::empty()
    } else {
        json_escaped(s.drop_last()) + json_escaped_char(s.last())
    }
}

/// `s` as a JSON string literal.
pub open spec fn json_quoted(s: Seq<char>) -> Seq<char> {
    seq!['"'] + json_escaped(s) + seq!['"']
}

/// The pretty-printed JSON text of the object with the one member `key`
/// holding the string `value`, as serde_json's `to_string_pretty` writes it
/// (two spaces of indentation).
pub open spec fn pretty_single_member(key: Seq<char>, value: Seq<char>) -> Seq<char> {
    seq!['{', '\n', ' ', ' '] + json_quoted(key) + seq![':', ' '] + json_quoted(value) + seq![
        '\n',
        '}',
    ]
}

/// The notes that a notes file holds, given its contents (`None` when the
/// file is missing or cannot be read).
pub open spec fn spec_read_notes(contents: Option<Seq<char>>) -> Option<Seq<char>> {
    match contents {
        Some(text) => json_string_member(text, notes_key()),
        None => None,
    }
}

/// The characters of file contents that may be missing.
pub open spec fn contents_view(contents: Option<&str>) -> Option<Seq<char>> {
    match contents {
        Some(t) => Some(t@),
        None => None,
    }
}

/// Parses `text` with `serde_json::from_str::<serde_json::Value>` and takes
/// the string in its member `key` (`Value::get`, then `Value::as_str`).
/// Claimed: the result is the named function `json_string_member` of the text
/// and the key; it depends on them alone.
#[verifier::external_body]
fn parse_string_member(text: &str, key: &str) -> (r: Option<String>)
    ensures
        match r {
            Some(s) => json_string_member(text@, key@) == Some(s@),
            None => json_string_member(text@, key@) is None,
        },
{
    match serde_json::from_str::<serde_json::Value>(text) {
        Ok(value) => match value.get(key) {
            Some(member) => match member.as_str() {
                Some(s) => Some(s.to_string()),
                None => None,
            },
            None => None,
        },
        Err(_) => None,
    }
}

/// Writes the object with the one string member `key: value` with
/// `serde_json::to_string_pretty`. Claimed: it succeeds (serde_json documents
/// failure only for a `Serialize` impl that fails or a map with non-string
/// keys); the text is `{`, a newline, two spaces, the quoted key, `: `, the
/// quoted value, a newline and `}`, each string escaped by serde_json's
/// escape table; and serde_json's parser reads the member `key` of that text
/// back as `value` (it unescapes every escape the writer makes).
#[verifier::external_body]
fn render_single_member(key: &str, value: &str) -> (r: Result<String, String>)
    ensures
        r is Ok,
        r matches Ok(text) ==> text@ == pretty_single_member(key@, value@),
        r matches Ok(text) ==> json_string_member(text@, key@) == Some(value@),
{
    let mut object = serde_json::Map::new();
    object.insert(key.to_string(), serde_json::Value::String(value.to_string()));
    serde_json::to_string_pretty(&serde_json::Value::Object(object)).map_err(|e| e.to_string())
}

/// The notes of a backup, given the contents of its notes file (`None` when
/// the file is missing or unreadable).
pub fn read_notes(contents: Option<&str>) -> (r: Option<String>)
    ensures
        match r {
            Some(s) => spec_read_notes(contents_view(contents)) == Some(s@),
            None => spec_read_notes(contents_view(contents)) is None,
        },
{
    match contents {
        Some(text) => parse_string_member(text, "notes"),
        None => None,
    }
}

/// The contents of a notes file that holds `notes`: the pretty-printed object
/// `{"notes": notes}`. Reading those contents back gives `notes`.
pub fn write_notes(notes: &str) -> (r: Result<String, String>)
    ensures
        r is Ok,
        r matches Ok(text) ==> text@ == pretty_single_member(notes_key(), notes@),
        r matches Ok(text) ==> spec_read_notes(Some(text@)) == Some(notes@),
{
    render_single_member("notes", notes)
}

} // verus!
