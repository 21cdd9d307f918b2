//! Where the game keeps its saves and where the backups go: fixed folders
//! below the user's local application data folder and documents folder,
//! which the caller reads from the operating system.

use std::path::PathBuf;

use vstd::prelude::*;

verus! {

#[verifier::external_type_specification]
#[verifier::external_body]
pub struct ExPathBuf(std::path::PathBuf);

/// The message when the local application data folder is unknown.
pub open spec fn no_local_data_message() -> Seq<char> {
    "Could not find Local AppData directory"@
}

/// The message when the documents folder is unknown.
pub open spec fn no_documents_message() -> Seq<char> {
    "Could not find Documents directory"@
}

/// The path that std's `Path::join` makes of `base` and `rel`.
pub uninterp spec fn joined_path(base: PathBuf, rel: Seq<char>) -> PathBuf;

/// The relative path of the game's save folder below the local application
/// data folder.
pub open spec fn save_dir_below_local_data() -> Seq<char> {
    "Larian Studios/Baldur's Gate 3/PlayerProfiles/Public/Savegames/Story"@
}

/// The name of the backup folder below the documents folder.
pub open spec fn backup_dir_below_documents() -> Seq<char> {
    "BG3_Backups"@
}

/// `base` with the relative path `rel` appended (std's `Path::join`).
/// Claimed: the path is the named function `joined_path` of the two
/// arguments; `Path::join` depends on them alone.
#[verifier::external_body]
fn join_path(base: &PathBuf, rel: &str) -> (r: PathBuf)
    ensures
        r == joined_path(*base, rel@),
{
    base.join(rel)
}

/// The game's folder of active saves, below the user's local application
/// data folder `local` (as `dirs::data_local_dir` reports it), or the message
/// that the latter is unknown.
pub fn get_bg3_save_dir(local: Option<PathBuf>) -> (r: Result<PathBuf, String>)
    ensures
        r is Ok <==> local is Some,
        local matches Some(d) ==> r == Ok::<PathBuf, String>(joined_path(d, save_dir_below_local_data())),
        r matches Err(m) ==> m@ == no_local_data_message(),
{
    match local {
        Some(dir) => Ok(join_path(&dir, "Larian Studios/Baldur's Gate 3/PlayerProfiles/Public/Savegames/Story")),
        None => Err("Could not find Local AppData directory".to_owned()),
    }
}

/// The folder that holds the backups, below the user's documents folder
/// `documents` (as `dirs::document_dir` reports it), or the message that the
/// latter is unknown; nothing is created.
pub fn get_backup_dir(documents: Option<PathBuf>) -> (r: Result<PathBuf, String>)
    ensures
        r is Ok <==> documents is Some,
        documents matches Some(d) ==> r == Ok::<PathBuf, String>(joined_path(d, backup_dir_below_documents())),
        r matches Err(m) ==> m@ == no_documents_message(),
{
    match documents {
        Some(dir) => Ok(join_path(&dir, "BG3_Backups")),
        None => Err("Could not find Documents directory".to_owned()),
    }
}

} // verus!
