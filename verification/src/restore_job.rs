//! Restoring a backup over the active save, step by step: the caller does the
//! file work and reports each outcome; the job decides what comes next. The
//! save is copied into a temporary folder first and swapped in only when the
//! copy is complete.

use vstd::prelude::*;

use crate::backup::{backup_step, BackupAction, BackupJob, BackupOutcome, BackupStage};
use crate::naming;
use crate::naming::{original_save_name, temp_restore_dir_name};
use crate::text::{concat, concat3};

verus! {

/// How far a restore has come.
#[derive(PartialEq, Eq, Debug, Clone, Copy)]
pub enum RestoreStage {
    Start,
    FindingBackup,
    FindingInner,
    ResolvingSaveRoot,
    Stamping,
    CreatingTemp,
    Copying,
    Discarding,
    Replacing,
    Renaming,
    Marking,
    Finished,
}

/// What the caller reports back after carrying out the last action.
pub enum RestoreOutcome {
    /// The job is to start.
    Begin,
    /// Whether the backup's folder exists, or why the backup folder is unknown.
    BackupFound(Result<bool, String>),
    /// Whether the save folder inside the backup exists, and how its path is
    /// displayed.
    InnerFound(bool, String),
    /// The save directory is known, or why it is not.
    SaveRoot(Result<(), String>),
    /// The sub-second nanoseconds of the system clock.
    Clock(u32),
    /// The temporary folder was created, or why it was not.
    TempCreated(Result<(), String>),
    /// The backup was copied into the temporary folder, or the copy's error.
    Copied(Result<(), String>),
    /// The temporary folder of a failed copy was removed (or not).
    Discarded,
    /// The old save is gone, or why it could not be removed.
    Replaced(Result<(), String>),
    /// The temporary folder took the save's name, or the error.
    Renamed(Result<(), String>),
    /// The restore was recorded.
    Marked,
}

/// What the caller is to do next.
#[derive(Debug, PartialEq, Eq)]
pub enum RestoreAction {
    /// Check that the backup of this name exists in the backup folder.
    FindBackup(String),
    /// Check that the backup holds a folder of this save's name.
    FindInner(String),
    /// Resolve the save directory.
    ResolveSaveRoot,
    /// Read the system clock.
    ReadClock,
    /// Create the temporary folder of this name in the save directory.
    CreateTemp(String),
    /// Copy the contents of the backup's save folder (first) into the
    /// temporary folder (second).
    CopyToTemp(String, String),
    /// Remove the temporary folder of this name, ignoring any error.
    DiscardTemp(String),
    /// Remove the active save of this name, if it exists.
    RemoveOldSave(String),
    /// Rename the temporary folder (first) to the save's name (second).
    Rename(String, String),
    /// Record that this save was restored now.
    MarkRestored(String),
    /// The restore is over, with this result.
    Finish(Result<(), String>),
    /// The outcome does not answer the last action; nothing changed.
    Unexpected,
}

/// A restore of one backup in progress.
pub struct RestoreJob {
    pub backup_name: String,
    /// The save the backup belongs to, once read from the backup's name.
    pub save_name: String,
    /// The temporary folder's name, once the clock was read.
    pub temp_name: String,
    /// The error of a failed copy, while its temporary folder is removed.
    pub copy_error: String,
    pub stage: RestoreStage,
}

/// The message when the backup does not exist.
pub open spec fn missing_backup_message(name: Seq<char>) -> Seq<char> {
    "Backup '"@ + name + "' does not exist"@
}

/// The message when the backup lacks its save folder.
pub open spec fn corrupt_backup_message(inner: Seq<char>) -> Seq<char> {
    "Backup appears to be corrupt — expected inner folder '"@ + inner + "' not found"@
}

/// The message when the copy failed.
pub open spec fn restore_copy_failed_message(e: Seq<char>) -> Seq<char> {
    "Copy failed: "@ + e
}

/// The message when the old save could not be removed.
pub open spec fn remove_failed_message(e: Seq<char>) -> Seq<char> {
    "Failed to remove old save: "@ + e
}

/// The message when the temporary folder could not take the save's name.
pub open spec fn finalize_failed_message(e: Seq<char>) -> Seq<char> {
    "Could not finalize restore: "@ + e
}

/// Whether `r` is `Finish(Err(m))` with `m` holding the characters `msg`.
pub open spec fn restore_fails_with(r: RestoreAction, msg: Seq<char>) -> bool {
    r matches RestoreAction::Finish(Err(m)) && m@ == msg
}

/// Whether a step of the restore from `old` on `outcome` leads to `new` with
/// action `r`.
pub open spec fn restore_step(old: RestoreJob, outcome: RestoreOutcome, new: RestoreJob, r: RestoreAction) -> bool {
    let same = new.backup_name == old.backup_name && new.save_name == old.save_name
        && new.temp_name == old.temp_name && new.copy_error == old.copy_error;
    let go = |stage: RestoreStage, action: RestoreAction| same && new.stage == stage && r == action;
    let fail = |msg: Seq<char>| same && new.stage == RestoreStage::Finished && restore_fails_with(r, msg);
    match (old.stage, outcome) {
        (RestoreStage::Start, RestoreOutcome::Begin) => same && new.stage == RestoreStage::FindingBackup && (r matches RestoreAction::FindBackup(b) && b@ == old.backup_name@),
        (RestoreStage::FindingBackup, RestoreOutcome::BackupFound(Err(e))) => fail(e@),
        (RestoreStage::FindingBackup, RestoreOutcome::BackupFound(Ok(false))) => fail(missing_backup_message(old.backup_name@)),
        (RestoreStage::FindingBackup, RestoreOutcome::BackupFound(Ok(true))) => match naming::spec_original_save_name(old.backup_name@) {
            Some(save) => {
                &&& new.backup_name == old.backup_name && new.temp_name == old.temp_name && new.copy_error == old.copy_error
                &&& new.save_name@ == save
                &&& new.stage == RestoreStage::FindingInner
                &&& r matches RestoreAction::FindInner(s) && s@ == save
            },
            None => fail(naming::undeterminable_save_message(old.backup_name@)),
        },
        (RestoreStage::FindingInner, RestoreOutcome::InnerFound(false, shown)) => fail(corrupt_backup_message(shown@)),
        (RestoreStage::FindingInner, RestoreOutcome::InnerFound(true, _)) => go(RestoreStage::ResolvingSaveRoot, RestoreAction::ResolveSaveRoot),
        (RestoreStage::ResolvingSaveRoot, RestoreOutcome::SaveRoot(Err(e))) => fail(e@),
        (RestoreStage::ResolvingSaveRoot, RestoreOutcome::SaveRoot(Ok(()))) => go(RestoreStage::Stamping, RestoreAction::ReadClock),
        (RestoreStage::Stamping, RestoreOutcome::Clock(nanos)) => {
            &&& new.backup_name == old.backup_name && new.save_name == old.save_name && new.copy_error == old.copy_error
            &&& new.temp_name@ == naming::spec_temp_restore_dir_name(old.save_name@, nanos as nat)
            &&& new.stage == RestoreStage::CreatingTemp
            &&& r matches RestoreAction::CreateTemp(t) && t@ == new.temp_name@
        },
        (RestoreStage::CreatingTemp, RestoreOutcome::TempCreated(Err(e))) => fail(e@),
        (RestoreStage::CreatingTemp, RestoreOutcome::TempCreated(Ok(()))) => same && new.stage == RestoreStage::Copying && (r matches RestoreAction::CopyToTemp(s, t) && s@ == old.save_name@ && t@ == old.temp_name@),
        (RestoreStage::Copying, RestoreOutcome::Copied(Err(e))) => {
            &&& new.backup_name == old.backup_name && new.save_name == old.save_name && new.temp_name == old.temp_name
            &&& new.copy_error@ == e@
            &&& new.stage == RestoreStage::Discarding
            &&& r matches RestoreAction::DiscardTemp(t) && t@ == old.temp_name@
        },
        (RestoreStage::Copying, RestoreOutcome::Copied(Ok(()))) => same && new.stage == RestoreStage::Replacing && (r matches RestoreAction::RemoveOldSave(s) && s@ == old.save_name@),
        (RestoreStage::Discarding, RestoreOutcome::Discarded) => fail(restore_copy_failed_message(old.copy_error@)),
        (RestoreStage::Replacing, RestoreOutcome::Replaced(Err(e))) => fail(remove_failed_message(e@)),
        (RestoreStage::Replacing, RestoreOutcome::Replaced(Ok(()))) => same && new.stage == RestoreStage::Renaming && (r matches RestoreAction::Rename(t, s) && t@ == old.temp_name@ && s@ == old.save_name@),
        (RestoreStage::Renaming, RestoreOutcome::Renamed(Err(e))) => fail(finalize_failed_message(e@)),
        (RestoreStage::Renaming, RestoreOutcome::Renamed(Ok(()))) => same && new.stage == RestoreStage::Marking && (r matches RestoreAction::MarkRestored(s) && s@ == old.save_name@),
        (RestoreStage::Marking, RestoreOutcome::Marked) => go(RestoreStage::Finished, RestoreAction::Finish(Ok(()))),
        _ => same && new.stage == old.stage && r == RestoreAction::Unexpected,
    }
}

impl RestoreJob {
    /// A restore of the backup `backup_name` that has not started.
    pub fn new(backup_name: &str) -> (r: Self)
        ensures
            r.backup_name@ == backup_name@,
            r.stage == RestoreStage::Start,
    {
        RestoreJob {
            backup_name: backup_name.to_owned(),
            save_name: String::new(),
            temp_name: String::new(),
            copy_error: String::new(),
            stage: RestoreStage::Start,
        }
    }

    /// The next action of the restore, given the outcome of the last one.
    pub fn step(&mut self, outcome: RestoreOutcome) -> (r: RestoreAction)
        ensures
            restore_step(*old(self), outcome, *final(self), r),
    {
        match (self.stage, outcome) {
            (RestoreStage::Start, RestoreOutcome::Begin) => {
                self.stage = RestoreStage::FindingBackup;
                RestoreAction::FindBackup(self.backup_name.clone())
            },
            (RestoreStage::FindingBackup, RestoreOutcome::BackupFound(found)) => match found {
                Err(e) => {
                    self.stage = RestoreStage::Finished;
                    RestoreAction::Finish(Err(e))
                },
                Ok(false) => {
                    self.stage = RestoreStage::Finished;
                    RestoreAction::Finish(
                        Err(concat3("Backup '", self.backup_name.as_str(), "' does not exist")),
                    )
                },
                Ok(true) => match original_save_name(self.backup_name.as_str()) {
                    Ok(save) => {
                        self.save_name = save.clone();
                        self.stage = RestoreStage::FindingInner;
                        RestoreAction::FindInner(save)
                    },
                    Err(m) => {
                        self.stage = RestoreStage::Finished;
                        RestoreAction::Finish(Err(m))
                    },
                },
            },
            (RestoreStage::FindingInner, RestoreOutcome::InnerFound(found, shown)) => {
                if found {
                    self.stage = RestoreStage::ResolvingSaveRoot;
                    RestoreAction::ResolveSaveRoot
                } else {
                    self.stage = RestoreStage::Finished;
                    RestoreAction::Finish(
                        Err(
                            concat3(
                                "Backup appears to be corrupt — expected inner folder '",
                                shown.as_str(),
                                "' not found",
                            ),
                        ),
                    )
                }
            },
            (RestoreStage::ResolvingSaveRoot, RestoreOutcome::SaveRoot(root)) => match root {
                Err(e) => {
                    self.stage = RestoreStage::Finished;
                    RestoreAction::Finish(Err(e))
                },
                Ok(()) => {
                    self.stage = RestoreStage::Stamping;
                    RestoreAction::ReadClock
                },
            },
            (RestoreStage::Stamping, RestoreOutcome::Clock(nanos)) => {
                let temp = temp_restore_dir_name(self.save_name.as_str(), nanos);
                self.temp_name = temp.clone();
                self.stage = RestoreStage::CreatingTemp;
                RestoreAction::CreateTemp(temp)
            },
            (RestoreStage::CreatingTemp, RestoreOutcome::TempCreated(created)) => match created {
                Err(e) => {
                    self.stage = RestoreStage::Finished;
                    RestoreAction::Finish(Err(e))
                },
                Ok(()) => {
                    self.stage = RestoreStage::Copying;
                    RestoreAction::CopyToTemp(self.save_name.clone(), self.temp_name.clone())
                },
            },
            (RestoreStage::Copying, RestoreOutcome::Copied(copied)) => match copied {
                Err(e) => {
                    self.copy_error = e;
                    self.stage = RestoreStage::Discarding;
                    RestoreAction::DiscardTemp(self.temp_name.clone())
                },
                Ok(()) => {
                    self.stage = RestoreStage::Replacing;
                    RestoreAction::RemoveOldSave(self.save_name.clone())
                },
            },
            (RestoreStage::Discarding, RestoreOutcome::Discarded) => {
                self.stage = RestoreStage::Finished;
                RestoreAction::Finish(Err(concat("Copy failed: ", self.copy_error.as_str())))
            },
            (RestoreStage::Replacing, RestoreOutcome::Replaced(replaced)) => match replaced {
                Err(e) => {
                    self.stage = RestoreStage::Finished;
                    RestoreAction::Finish(Err(concat("Failed to remove old save: ", e.as_str())))
                },
                Ok(()) => {
                    self.stage = RestoreStage::Renaming;
                    RestoreAction::Rename(self.temp_name.clone(), self.save_name.clone())
                },
            },
            (RestoreStage::Renaming, RestoreOutcome::Renamed(renamed)) => match renamed {
                Err(e) => {
                    self.stage = RestoreStage::Finished;
                    RestoreAction::Finish(Err(concat("Could not finalize restore: ", e.as_str())))
                },
                Ok(()) => {
                    self.stage = RestoreStage::Marking;
                    RestoreAction::MarkRestored(self.save_name.clone())
                },
            },
            (RestoreStage::Marking, RestoreOutcome::Marked) => {
                self.stage = RestoreStage::Finished;
                RestoreAction::Finish(Ok(()))
            },
            _ => RestoreAction::Unexpected,
        }
    }
}

/// A restore reports success only after the complete copy took the save's
/// name and the restore was recorded.
pub proof fn lemma_restore_succeeds_only_when_done(old: RestoreJob, outcome: RestoreOutcome, new: RestoreJob)
    requires
        restore_step(old, outcome, new, RestoreAction::Finish(Ok(()))),
    ensures
        old.stage == RestoreStage::Marking,
        outcome matches RestoreOutcome::Marked,
{
}

/// The old save is removed only after the backup was copied completely into
/// the temporary folder.
pub proof fn lemma_old_save_removed_only_after_copy(
    old: RestoreJob,
    outcome: RestoreOutcome,
    new: RestoreJob,
    r: RestoreAction,
)
    requires
        restore_step(old, outcome, new, r),
        r matches RestoreAction::RemoveOldSave(_),
    ensures
        old.stage == RestoreStage::Copying,
        outcome matches RestoreOutcome::Copied(Ok(())),
{
}

/// A restore records, and so shields from the watcher, exactly the save that
/// the backup's name designates, and its temporary folder is one that the
/// watcher leaves alone.
pub proof fn lemma_restore_marks_the_backups_save(
    old: RestoreJob,
    outcome: RestoreOutcome,
    new: RestoreJob,
    r: RestoreAction,
)
    requires
        old.stage == RestoreStage::FindingBackup,
        restore_step(old, outcome, new, r),
        new.stage == RestoreStage::FindingInner,
    ensures
        naming::spec_original_save_name(old.backup_name@) == Some(new.save_name@),
{
}

} // verus!

verus! {

/// A restore of the backup that a backup job named goes back to the save
/// that was backed up: it looks for that save's folder inside the backup and
/// later copies over, marks and shields that same save (for a non-empty save
/// name inside which the separator does not begin).
pub proof fn lemma_restore_targets_the_backed_up_save(
    backup_old: BackupJob,
    nanos: u32,
    ts: String,
    backup_new: BackupJob,
    backup_action: BackupAction,
    restore_old: RestoreJob,
    restore_new: RestoreJob,
    restore_action: RestoreAction,
)
    requires
        backup_old.stage == BackupStage::Stamping,
        backup_step(backup_old, BackupOutcome::Clock(nanos, ts), backup_new, backup_action),
        backup_old.save_name@.len() > 0,
        naming::separator_only_at_end(backup_old.save_name@),
        restore_old.stage == RestoreStage::FindingBackup,
        restore_old.backup_name@ == backup_new.backup_name@,
        restore_step(restore_old, RestoreOutcome::BackupFound(Ok(true)), restore_new, restore_action),
    ensures
        restore_new.stage == RestoreStage::FindingInner,
        restore_new.save_name@ == backup_old.save_name@,
        restore_action matches RestoreAction::FindInner(s) && s@ == backup_old.save_name@,
{
    naming::lemma_backup_name_round_trip(backup_old.save_name@, ts@);
}

} // verus!
