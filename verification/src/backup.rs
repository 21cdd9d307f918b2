//! Whether a new backup of a save is needed: a save whose preview image is
//! byte for byte the preview of its latest backup is unchanged since then.

use vstd::prelude::*;

use crate::listing::{find_latest_backup, first_with_prefix, SaveFolder};
use crate::naming;
use crate::naming::{backup_name, temp_backup_dir_name};
use crate::text;
use crate::text::concat;

verus! {

/// Whether the save matches its latest backup: both previews were read and
/// they are equal.
pub open spec fn spec_previews_match(
    source: Result<Vec<u8>, String>,
    latest: Result<Vec<u8>, String>,
) -> bool {
    match (source, latest) {
        (Ok(a), Ok(b)) => a@ == b@,
        _ => false,
    }
}

/// Whether the bytes of `a` and `b` are the same.
fn same_bytes(a: &Vec<u8>, b: &Vec<u8>) -> (r: bool)
    ensures
        r == (a@ == b@),
{
    if a.len() != b.len() {
        return false;
    }
    let mut i: usize = 0;
    while i < a.len()
        invariant
            a@.len() == b@.len(),
            i <= a@.len(),
            forall|k: int| 0 <= k < i ==> a@[k] == b@[k],
        decreases a.len() - i,
    {
        if a[i] != b[i] {
            return false;
        }
        i = i + 1;
    }
    assert(a@ =~= b@);
    true
}

/// Whether the backup of a save is skipped because the save's preview
/// (`source`) is that of its latest backup (`latest`); a preview that could
/// not be read never matches.
pub fn previews_match(source: &Result<Vec<u8>, String>, latest: &Result<Vec<u8>, String>) -> (r: bool)
    ensures
        r == spec_previews_match(*source, *latest),
{
    match (source, latest) {
        (Ok(a), Ok(b)) => same_bytes(a, b),
        _ => false,
    }
}

} // verus!

verus! {

/// How far a backup of one save has come.
#[derive(PartialEq, Eq, Debug, Clone, Copy)]
pub enum BackupStage {
    Start,
    CheckingSource,
    PreparingRoot,
    Listing,
    ComparingPreviews,
    Stamping,
    PreparingTemp,
    Copying,
    Renaming,
    Finished,
}

/// What the caller reports back after carrying out the last action.
pub enum BackupOutcome {
    /// The job is to start.
    Begin,
    /// Whether the save folder exists, or why the save directory is unknown.
    SourceChecked(Result<bool, String>),
    /// The backup folder exists now, or why it could not be made.
    RootReady(Result<(), String>),
    /// The current backups, newest first, or why they could not be listed.
    Listed(Result<Vec<SaveFolder>, String>),
    /// The preview of the save and that of its latest backup.
    PreviewsRead(Result<Vec<u8>, String>, Result<Vec<u8>, String>),
    /// The sub-second nanoseconds of the system clock, and the local date and
    /// time formatted as `%Y%m%d_%H%M%S`.
    Clock(u32, String),
    /// The temporary folder is empty and ready, or why it is not.
    TempReady(Result<(), String>),
    /// The save was copied into the temporary folder, or the copy's error.
    Copied(Result<(), String>),
    /// The temporary folder was renamed to the backup's name, or the error.
    Renamed(Result<(), String>),
}

/// What the caller is to do next.
#[derive(Debug, PartialEq, Eq)]
pub enum BackupAction {
    /// Resolve the save directory and check that the save folder exists.
    CheckSource,
    /// Make sure the backup folder exists.
    PrepareRoot,
    /// List the current backups, newest first.
    ListBackups,
    /// Read the save's preview and that of the backup at this path.
    ReadPreviews(String),
    /// Read the system clock and the local time, the latter formatted as
    /// `%Y%m%d_%H%M%S` (`naming::BACKUP_TIMESTAMP_FORMAT`).
    ReadClock,
    /// Remove any folder of this name in the backup folder and create it empty.
    PrepareTemp(String),
    /// Copy the save folder into the temporary folder of this name.
    CopyToTemp(String),
    /// Rename the temporary folder (first) to the backup's name (second).
    Rename(String, String),
    /// The backup is over: `Ok(true)` when a backup was made, `Ok(false)` when
    /// the save matched its latest backup, or the error.
    Finish(Result<bool, String>),
    /// The outcome does not answer the last action; nothing changed.
    Unexpected,
}

/// A backup of one save in progress.
pub struct BackupJob {
    pub save_name: String,
    /// The backup's name, once the clock was read.
    pub backup_name: String,
    /// The temporary folder's name, once the clock was read.
    pub temp_name: String,
    pub stage: BackupStage,
}

/// The message when the save to back up does not exist.
pub open spec fn missing_save_message() -> Seq<char> {
    "Save folder does not exist"@
}

/// The message when the copy into the temporary folder failed.
pub open spec fn backup_copy_failed_message(e: Seq<char>) -> Seq<char> {
    "Copy failed: "@ + e
}

/// The message when the temporary folder could not be renamed.
pub open spec fn backup_rename_failed_message(e: Seq<char>) -> Seq<char> {
    "Could not finalise backup (rename failed): "@ + e
}

/// Whether `r` is `Finish(Err(m))` with `m` holding the characters `msg`.
pub open spec fn finishes_with_error(r: BackupAction, msg: Seq<char>) -> bool {
    r matches BackupAction::Finish(Err(m)) && m@ == msg
}

/// Whether a step of the backup job from `old` on `outcome` leads to `new`
/// with action `r`.
pub open spec fn backup_step(old: BackupJob, outcome: BackupOutcome, new: BackupJob, r: BackupAction) -> bool {
    let same_names = new.save_name == old.save_name && new.backup_name == old.backup_name
        && new.temp_name == old.temp_name;
    let go = |stage: BackupStage, action: BackupAction| same_names && new.stage == stage && r == action;
    let fail = |msg: Seq<char>| same_names && new.stage == BackupStage::Finished && finishes_with_error(r, msg);
    let stamp = same_names && new.stage == BackupStage::Stamping && r == BackupAction::ReadClock;
    match (old.stage, outcome) {
        (BackupStage::Start, BackupOutcome::Begin) => go(BackupStage::CheckingSource, BackupAction::CheckSource),
        (BackupStage::CheckingSource, BackupOutcome::SourceChecked(Err(e))) => fail(e@),
        (BackupStage::CheckingSource, BackupOutcome::SourceChecked(Ok(false))) => fail(missing_save_message()),
        (BackupStage::CheckingSource, BackupOutcome::SourceChecked(Ok(true))) => go(BackupStage::PreparingRoot, BackupAction::PrepareRoot),
        (BackupStage::PreparingRoot, BackupOutcome::RootReady(Err(e))) => fail(e@),
        (BackupStage::PreparingRoot, BackupOutcome::RootReady(Ok(()))) => go(BackupStage::Listing, BackupAction::ListBackups),
        (BackupStage::Listing, BackupOutcome::Listed(Err(_))) => stamp,
        (BackupStage::Listing, BackupOutcome::Listed(Ok(list))) => match first_with_prefix(
            list@,
            old.save_name@ + naming::separator(),
            0,
        ) {
            Some(i) => same_names && new.stage == BackupStage::ComparingPreviews && (r matches BackupAction::ReadPreviews(p) && p@ == list@[i].path@),
            None => stamp,
        },
        (BackupStage::ComparingPreviews, BackupOutcome::PreviewsRead(a, b)) => if spec_previews_match(a, b) {
            go(BackupStage::Finished, BackupAction::Finish(Ok(false)))
        } else {
            stamp
        },
        (BackupStage::Stamping, BackupOutcome::Clock(nanos, ts)) => {
            &&& new.save_name == old.save_name
            &&& new.stage == BackupStage::PreparingTemp
            &&& new.backup_name@ == naming::spec_backup_name(old.save_name@, ts@)
            &&& new.temp_name@ == naming::spec_temp_backup_dir_name(new.backup_name@, nanos as nat)
            &&& r matches BackupAction::PrepareTemp(t) && t@ == new.temp_name@
        },
        (BackupStage::PreparingTemp, BackupOutcome::TempReady(Err(e))) => fail(e@),
        (BackupStage::PreparingTemp, BackupOutcome::TempReady(Ok(()))) => same_names && new.stage == BackupStage::Copying && (r matches BackupAction::CopyToTemp(t) && t@ == old.temp_name@),
        (BackupStage::Copying, BackupOutcome::Copied(Err(e))) => fail(backup_copy_failed_message(e@)),
        (BackupStage::Copying, BackupOutcome::Copied(Ok(()))) => same_names && new.stage == BackupStage::Renaming && (r matches BackupAction::Rename(t, b) && t@ == old.temp_name@ && b@ == old.backup_name@),
        (BackupStage::Renaming, BackupOutcome::Renamed(Err(e))) => fail(backup_rename_failed_message(e@)),
        (BackupStage::Renaming, BackupOutcome::Renamed(Ok(()))) => go(BackupStage::Finished, BackupAction::Finish(Ok(true))),
        _ => same_names && new.stage == old.stage && r == BackupAction::Unexpected,
    }
}

impl BackupJob {
    /// A backup of `save_name` that has not started.
    pub fn new(save_name: &str) -> (r: Self)
        ensures
            r.save_name@ == save_name@,
            r.stage == BackupStage::Start,
    {
        BackupJob {
            save_name: save_name.to_owned(),
            backup_name: String::new(),
            temp_name: String::new(),
            stage: BackupStage::Start,
        }
    }

    /// The next action of the job, given the outcome of the last one.
    pub fn step(&mut self, outcome: BackupOutcome) -> (r: BackupAction)
        ensures
            backup_step(*old(self), outcome, *final(self), r),
    {
        match (self.stage, outcome) {
            (BackupStage::Start, BackupOutcome::Begin) => {
                self.stage = BackupStage::CheckingSource;
                BackupAction::CheckSource
            },
            (BackupStage::CheckingSource, BackupOutcome::SourceChecked(found)) => match found {
                Err(e) => {
                    self.stage = BackupStage::Finished;
                    BackupAction::Finish(Err(e))
                },
                Ok(false) => {
                    self.stage = BackupStage::Finished;
                    BackupAction::Finish(Err("Save folder does not exist".to_owned()))
                },
                Ok(true) => {
                    self.stage = BackupStage::PreparingRoot;
                    BackupAction::PrepareRoot
                },
            },
            (BackupStage::PreparingRoot, BackupOutcome::RootReady(ready)) => match ready {
                Err(e) => {
                    self.stage = BackupStage::Finished;
                    BackupAction::Finish(Err(e))
                },
                Ok(()) => {
                    self.stage = BackupStage::Listing;
                    BackupAction::ListBackups
                },
            },
            (BackupStage::Listing, BackupOutcome::Listed(listed)) => match listed {
                Err(_) => {
                    self.stage = BackupStage::Stamping;
                    BackupAction::ReadClock
                },
                Ok(list) => match find_latest_backup(&list, self.save_name.as_str()) {
                    Some(i) => {
                        self.stage = BackupStage::ComparingPreviews;
                        BackupAction::ReadPreviews(list[i].path.clone())
                    },
                    None => {
                        self.stage = BackupStage::Stamping;
                        BackupAction::ReadClock
                    },
                },
            },
            (BackupStage::ComparingPreviews, BackupOutcome::PreviewsRead(a, b)) => {
                if previews_match(&a, &b) {
                    self.stage = BackupStage::Finished;
                    BackupAction::Finish(Ok(false))
                } else {
                    self.stage = BackupStage::Stamping;
                    BackupAction::ReadClock
                }
            },
            (BackupStage::Stamping, BackupOutcome::Clock(nanos, ts)) => {
                let name = backup_name(self.save_name.as_str(), ts.as_str());
                let temp = temp_backup_dir_name(name.as_str(), nanos);
                self.backup_name = name;
                self.temp_name = temp.clone();
                self.stage = BackupStage::PreparingTemp;
                BackupAction::PrepareTemp(temp)
            },
            (BackupStage::PreparingTemp, BackupOutcome::TempReady(ready)) => match ready {
                Err(e) => {
                    self.stage = BackupStage::Finished;
                    BackupAction::Finish(Err(e))
                },
                Ok(()) => {
                    self.stage = BackupStage::Copying;
                    BackupAction::CopyToTemp(self.temp_name.clone())
                },
            },
            (BackupStage::Copying, BackupOutcome::Copied(copied)) => match copied {
                Err(e) => {
                    self.stage = BackupStage::Finished;
                    BackupAction::Finish(Err(concat("Copy failed: ", e.as_str())))
                },
                Ok(()) => {
                    self.stage = BackupStage::Renaming;
                    BackupAction::Rename(self.temp_name.clone(), self.backup_name.clone())
                },
            },
            (BackupStage::Renaming, BackupOutcome::Renamed(renamed)) => match renamed {
                Err(e) => {
                    self.stage = BackupStage::Finished;
                    BackupAction::Finish(
                        Err(concat("Could not finalise backup (rename failed): ", e.as_str())),
                    )
                },
                Ok(()) => {
                    self.stage = BackupStage::Finished;
                    BackupAction::Finish(Ok(true))
                },
            },
            _ => BackupAction::Unexpected,
        }
    }
}

} // verus!

verus! {

/// A backup job reports a backup made only when the rename of its complete
/// temporary copy succeeded.
pub proof fn lemma_backup_made_only_after_rename(
    old: BackupJob,
    outcome: BackupOutcome,
    new: BackupJob,
)
    requires
        backup_step(old, outcome, new, BackupAction::Finish(Ok(true))),
    ensures
        old.stage == BackupStage::Renaming,
        outcome matches BackupOutcome::Renamed(Ok(())),
{
}

/// A backup job skips a save only when the save's preview and that of its
/// latest backup were both read and are equal.
pub proof fn lemma_backup_skipped_only_when_unchanged(
    old: BackupJob,
    outcome: BackupOutcome,
    new: BackupJob,
)
    requires
        backup_step(old, outcome, new, BackupAction::Finish(Ok(false))),
    ensures
        old.stage == BackupStage::ComparingPreviews,
        outcome matches BackupOutcome::PreviewsRead(a, b) && spec_previews_match(a, b),
{
}

/// The backup a job names belongs to its save: the save's name is read back
/// from it (for a save name that the separator does not begin inside), and
/// its temporary folder is one that the watcher leaves alone.
pub proof fn lemma_backup_names_fit(
    old: BackupJob,
    nanos: u32,
    ts: String,
    new: BackupJob,
    r: BackupAction,
)
    requires
        old.stage == BackupStage::Stamping,
        backup_step(old, BackupOutcome::Clock(nanos, ts), new, r),
    ensures
        old.save_name@.len() > 0 && naming::separator_only_at_end(old.save_name@)
            ==> naming::spec_original_save_name(new.backup_name@) == Some(old.save_name@),
        text::starts_with(new.temp_name@, ".tmp_"@),
{
    if old.save_name@.len() > 0 && naming::separator_only_at_end(old.save_name@) {
        naming::lemma_backup_name_round_trip(old.save_name@, ts@);
    }
    naming::lemma_temp_folders_are_temp(new.backup_name@, nanos as nat);
}

} // verus!

verus! {

/// After the backups are listed, a backup job compares the save with its own
/// latest backup: when some listed folder is a backup of the save (its name
/// begins with `<save>__TS__`), the job reads the preview at the path of the
/// first such folder, and no listed folder before it is a backup of the save;
/// when none is, it goes straight on to read the clock.
pub proof fn lemma_backup_compares_with_its_own_latest_backup(
    old: BackupJob,
    list: Vec<SaveFolder>,
    new: BackupJob,
    r: BackupAction,
)
    requires
        old.stage == BackupStage::Listing,
        backup_step(old, BackupOutcome::Listed(Ok(list)), new, r),
    ensures
        (exists|j: int|
            0 <= j < list@.len() && text::starts_with(
                #[trigger] list@[j].name@,
                old.save_name@ + naming::separator(),
            )) ==> (r matches BackupAction::ReadPreviews(p) && exists|i: int|
            0 <= i < list@.len() && p@ == list@[i].path@ && text::starts_with(
                list@[i].name@,
                old.save_name@ + naming::separator(),
            ) && forall|k: int|
                0 <= k < i ==> !text::starts_with(
                    #[trigger] list@[k].name@,
                    old.save_name@ + naming::separator(),
                )),
        (forall|j: int|
            0 <= j < list@.len() ==> !text::starts_with(
                #[trigger] list@[j].name@,
                old.save_name@ + naming::separator(),
            )) ==> r == BackupAction::ReadClock && new.stage == BackupStage::Stamping,
{
    crate::listing::lemma_first_with_prefix_found(list@, old.save_name@ + naming::separator(), 0);
}

} // verus!

verus! {

/// When the previews are compared, the job skips the backup exactly when both
/// previews were read and hold the same bytes; otherwise it goes on to make
/// the backup.
pub proof fn lemma_backup_skip_decision(
    old: BackupJob,
    a: Result<Vec<u8>, String>,
    b: Result<Vec<u8>, String>,
    new: BackupJob,
    r: BackupAction,
)
    requires
        old.stage == BackupStage::ComparingPreviews,
        backup_step(old, BackupOutcome::PreviewsRead(a, b), new, r),
    ensures
        (a matches Ok(x) && b matches Ok(y) && x@ == y@) ==> r == BackupAction::Finish(Ok(false)),
        !(a matches Ok(x) && b matches Ok(y) && x@ == y@) ==> r == BackupAction::ReadClock
            && new.stage == BackupStage::Stamping,
{
}

} // verus!
