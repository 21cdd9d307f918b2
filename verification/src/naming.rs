//! Names of backup folders: `<save>__TS__<timestamp>`, the save name read
//! back from a backup name, and the names of the temporary folders that make
//! backups and restores atomic.

use vstd::prelude::*;

use crate::text;
use crate::text::{append_decimal, append_str, chars_of, find_chars, str_starts_with, string_from_chars};

verus! {

/// The chrono format of the local time stamped on a backup's name, such as
/// `20240131_235959`.
pub const BACKUP_TIMESTAMP_FORMAT: &'static str = "%Y%m%d_%H%M%S";

/// The separator between a save's name and the timestamp of its backup.
pub open spec fn separator() -> Seq<char> {
    "__TS__"@
}

/// The name of the backup of `save` taken at `timestamp`.
pub open spec fn spec_backup_name(save: Seq<char>, timestamp: Seq<char>) -> Seq<char> {
    save + separator() + timestamp
}

/// The text before the first separator in `name` (all of `name` if it holds
/// none), as `str::split(..).next()` yields it.
pub open spec fn first_piece(name: Seq<char>) -> Seq<char> {
    match text::find_from(name, separator(), 0) {
        Some(i) => name.subrange(0, i),
        None => name,
    }
}

/// The save that a backup folder named `name` belongs to: the text before
/// the first separator, when it is not empty.
pub open spec fn spec_original_save_name(name: Seq<char>) -> Option<Seq<char>> {
    if first_piece(name).len() == 0 {
        None
    } else {
        Some(first_piece(name))
    }
}

/// The message returned when no save name can be read from a backup name.
pub open spec fn undeterminable_save_message(name: Seq<char>) -> Seq<char> {
    "Could not determine original save name from backup name: '"@ + name + "'"@
}

/// Whether the separator is found in `save` followed by the separator only at
/// the separator's own position, so that a backup name of `save` splits back
/// into `save`.
pub open spec fn separator_only_at_end(save: Seq<char>) -> bool {
    forall|i: int| 0 <= i < save.len() ==> !text::occurs_at(save + separator(), separator(), i)
}

/// The name of the temporary folder in which a backup is assembled.
pub open spec fn spec_temp_backup_dir_name(backup: Seq<char>, nanos: nat) -> Seq<char> {
    ".tmp_"@ + backup + "_"@ + text::decimal(nanos)
}

/// The name of the temporary folder into which a save is restored.
pub open spec fn spec_temp_restore_dir_name(save: Seq<char>, nanos: nat) -> Seq<char> {
    ".tmp_restore_"@ + save + "_"@ + text::decimal(nanos)
}

/// The prefix shared by every backup name of `save_name`.
pub fn backup_prefix(save_name: &str) -> (r: String)
    ensures
        r@ == save_name@ + separator(),
{
    let mut r = String::new();
    append_str(&mut r, save_name);
    append_str(&mut r, "__TS__");
    r
}

/// The name of the backup of `save_name` taken at `timestamp`.
pub fn backup_name(save_name: &str, timestamp: &str) -> (r: String)
    ensures
        r@ == spec_backup_name(save_name@, timestamp@),
{
    let mut r = backup_prefix(save_name);
    append_str(&mut r, timestamp);
    r
}

/// The save that the backup named `backup_name` belongs to, or the message
/// that says it cannot be determined.
pub fn original_save_name(backup_name: &str) -> (r: Result<String, String>)
    ensures
        match spec_original_save_name(backup_name@) {
            Some(save) => r matches Ok(s) && s@ == save,
            None => r matches Err(m) && m@ == undeterminable_save_message(backup_name@),
        },
{
    let cs = chars_of(backup_name);
    let sep = chars_of("__TS__");
    let end = match find_chars(&cs, &sep) {
        Some(i) => i,
        None => cs.len(),
    };
    proof {
        text::lemma_find_from_found(cs@, sep@, 0);
        assert(cs@.subrange(0, cs@.len() as int) == cs@);
    }
    if end == 0 {
        let mut m = String::new();
        append_str(&mut m, "Could not determine original save name from backup name: '");
        append_str(&mut m, backup_name);
        append_str(&mut m, "'");
        Err(m)
    } else {
        Ok(string_from_chars(&cs, 0, end))
    }
}

/// Whether a folder name is one of the temporary folders of a backup or a
/// restore in progress.
pub fn is_temp_folder(name: &str) -> (r: bool)
    ensures
        r == text::starts_with(name@, ".tmp_"@),
{
    str_starts_with(name, ".tmp_")
}

/// The name of the temporary folder in which the backup `backup_name` is
/// assembled before it is renamed into place.
pub fn temp_backup_dir_name(backup_name: &str, nanos: u32) -> (r: String)
    ensures
        r@ == spec_temp_backup_dir_name(backup_name@, nanos as nat),
{
    let mut r = String::new();
    append_str(&mut r, ".tmp_");
    append_str(&mut r, backup_name);
    append_str(&mut r, "_");
    append_decimal(&mut r, nanos);
    r
}

/// The name of the temporary folder into which `save_name` is restored before
/// it replaces the active save.
pub fn temp_restore_dir_name(save_name: &str, nanos: u32) -> (r: String)
    ensures
        r@ == spec_temp_restore_dir_name(save_name@, nanos as nat),
{
    let mut r = String::new();
    append_str(&mut r, ".tmp_restore_");
    append_str(&mut r, save_name);
    append_str(&mut r, "_");
    append_decimal(&mut r, nanos);
    r
}

} // verus!

verus! {

/// `find_from` returns the first occurrence at or after where it starts.
proof fn lemma_find_from_first(s: Seq<char>, p: Seq<char>, j: int, i: int)
    requires
        0 <= j <= i,
        text::occurs_at(s, p, i),
        forall|k: int| j <= k < i ==> !text::occurs_at(s, p, k),
    ensures
        text::find_from(s, p, j) == Some(i),
    decreases i - j,
{
    if j < i {
        lemma_find_from_first(s, p, j + 1, i);
    }
}

/// Reading a save's name back from the name of one of its backups gives that
/// save, whatever the timestamp, provided the save name is not empty and the
/// separator does not already begin inside it.
pub proof fn lemma_backup_name_round_trip(save: Seq<char>, timestamp: Seq<char>)
    requires
        save.len() > 0,
        separator_only_at_end(save),
    ensures
        spec_original_save_name(spec_backup_name(save, timestamp)) == Some(save),
{
    let name = spec_backup_name(save, timestamp);
    let sep = separator();
    let n = save.len() as int;
    assert(name.subrange(n, n + sep.len()) =~= sep);
    assert forall|k: int| 0 <= k < n implies !text::occurs_at(name, sep, k) by {
        assert(!text::occurs_at(save + sep, sep, k));
        assert(name.subrange(k, k + sep.len()) =~= (save + sep).subrange(k, k + sep.len()));
    }
    lemma_find_from_first(name, sep, 0, n);
    assert(name.subrange(0, n) =~= save);
}

/// Every backup name of a save begins with that save's backup prefix.
pub proof fn lemma_backup_name_has_prefix(save: Seq<char>, timestamp: Seq<char>)
    ensures
        text::starts_with(spec_backup_name(save, timestamp), save + separator()),
{
    let name = spec_backup_name(save, timestamp);
    assert(name.subrange(0, (save + separator()).len() as int) =~= save + separator());
}

/// The temporary folders of backups and restores are both recognized as
/// temporary folders, so the watcher never backs them up.
pub proof fn lemma_temp_folders_are_temp(name: Seq<char>, nanos: nat)
    ensures
        text::starts_with(spec_temp_backup_dir_name(name, nanos), ".tmp_"@),
        text::starts_with(spec_temp_restore_dir_name(name, nanos), ".tmp_"@),
{
    reveal_strlit(".tmp_");
    reveal_strlit(".tmp_restore_");
    let b = spec_temp_backup_dir_name(name, nanos);
    let r = spec_temp_restore_dir_name(name, nanos);
    assert(b.subrange(0, 5) =~= ".tmp_"@);
    assert(r.subrange(0, 5) =~= ".tmp_"@);
}

} // verus!

verus! {

/// The save read back from a backup name is what precedes the first
/// separator in it: a non-empty beginning of the name, inside which no
/// separator begins, followed either by the end of the name or by a
/// separator. There is none exactly when the name begins with a separator or
/// is empty.
pub proof fn lemma_original_save_name_is_text_before_first_separator(name: Seq<char>)
    ensures
        match spec_original_save_name(name) {
            Some(save) => {
                &&& save.len() > 0
                &&& text::starts_with(name, save)
                &&& forall|i: int| 0 <= i < save.len() ==> !text::occurs_at(name, separator(), i)
                &&& save.len() < name.len() ==> text::occurs_at(name, separator(), save.len() as int)
            },
            None => name.len() == 0 || text::occurs_at(name, separator(), 0),
        },
{
    text::lemma_find_from_found(name, separator(), 0);
    match text::find_from(name, separator(), 0) {
        Some(i) => {
            assert(name.subrange(0, i).len() == i);
        },
        None => {
            assert(name.subrange(0, name.len() as int) =~= name);
        },
    }
}

} // verus!
