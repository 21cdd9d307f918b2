use bg3_save_manager::backup::{BackupAction, BackupJob, BackupOutcome, BackupStage};
use bg3_save_manager::listing::SaveFolder;
use bg3_save_manager::restore_job::{RestoreAction, RestoreJob, RestoreOutcome, RestoreStage};

fn folder(name: &str, path: &str, t: u64) -> SaveFolder {
    SaveFolder { name: name.to_string(), path: path.to_string(), last_modified: t, notes: None }
}

fn start_backup(save: &str) -> BackupJob {
    let mut job = BackupJob::new(save);
    assert_eq!(job.step(BackupOutcome::Begin), BackupAction::CheckSource);
    assert_eq!(job.step(BackupOutcome::SourceChecked(Ok(true))), BackupAction::PrepareRoot);
    assert_eq!(job.step(BackupOutcome::RootReady(Ok(()))), BackupAction::ListBackups);
    job
}

#[test]
fn backup_of_missing_save_fails() {
    let mut job = BackupJob::new("Gone");
    job.step(BackupOutcome::Begin);
    assert_eq!(
        job.step(BackupOutcome::SourceChecked(Ok(false))),
        BackupAction::Finish(Err("Save folder does not exist".to_string()))
    );
    assert_eq!(job.stage, BackupStage::Finished);
}

#[test]
fn backup_fails_when_save_dir_unknown() {
    let mut job = BackupJob::new("S");
    job.step(BackupOutcome::Begin);
    assert_eq!(
        job.step(BackupOutcome::SourceChecked(Err("no dir".to_string()))),
        BackupAction::Finish(Err("no dir".to_string()))
    );
}

#[test]
fn unchanged_save_is_not_backed_up_again() {
    let mut job = start_backup("Save");
    let list = vec![folder("Save__TS__2", "/b/Save__TS__2", 20), folder("Save__TS__1", "/b/Save__TS__1", 10)];
    assert_eq!(
        job.step(BackupOutcome::Listed(Ok(list))),
        BackupAction::ReadPreviews("/b/Save__TS__2".to_string())
    );
    assert_eq!(
        job.step(BackupOutcome::PreviewsRead(Ok(vec![7, 7]), Ok(vec![7, 7]))),
        BackupAction::Finish(Ok(false))
    );
}

#[test]
fn changed_save_is_backed_up_through_a_temporary_folder() {
    let mut job = start_backup("Save");
    let list = vec![folder("Save__TS__1", "/b/Save__TS__1", 10)];
    job.step(BackupOutcome::Listed(Ok(list)));
    assert_eq!(job.step(BackupOutcome::PreviewsRead(Ok(vec![1]), Ok(vec![2]))), BackupAction::ReadClock);
    let temp = match job.step(BackupOutcome::Clock(123, "20240101_120000".to_string())) {
        BackupAction::PrepareTemp(t) => t,
        other => panic!("unexpected {:?}", other),
    };
    assert_eq!(job.backup_name, "Save__TS__20240101_120000");
    assert_eq!(temp, format!(".tmp_{}_123", job.backup_name));
    assert_eq!(job.step(BackupOutcome::TempReady(Ok(()))), BackupAction::CopyToTemp(temp.clone()));
    assert_eq!(
        job.step(BackupOutcome::Copied(Ok(()))),
        BackupAction::Rename(temp, job.backup_name.clone())
    );
    assert_eq!(job.step(BackupOutcome::Renamed(Ok(()))), BackupAction::Finish(Ok(true)));
}

#[test]
fn first_backup_skips_the_comparison() {
    let mut job = start_backup("New");
    assert_eq!(
        job.step(BackupOutcome::Listed(Ok(vec![folder("Other__TS__1", "/b/o", 5)]))),
        BackupAction::ReadClock
    );
    let mut job = start_backup("New");
    assert_eq!(job.step(BackupOutcome::Listed(Err("unreadable".to_string()))), BackupAction::ReadClock);
}

#[test]
fn backup_errors_are_reported() {
    let mut job = start_backup("S");
    job.step(BackupOutcome::Listed(Ok(vec![])));
    job.step(BackupOutcome::Clock(0, "20240101_120000".to_string()));
    job.step(BackupOutcome::TempReady(Ok(())));
    assert_eq!(
        job.step(BackupOutcome::Copied(Err("disk full".to_string()))),
        BackupAction::Finish(Err("Copy failed: disk full".to_string()))
    );
    let mut job = start_backup("S");
    job.step(BackupOutcome::Listed(Ok(vec![])));
    job.step(BackupOutcome::Clock(0, "20240101_120000".to_string()));
    job.step(BackupOutcome::TempReady(Ok(())));
    job.step(BackupOutcome::Copied(Ok(())));
    assert_eq!(
        job.step(BackupOutcome::Renamed(Err("busy".to_string()))),
        BackupAction::Finish(Err("Could not finalise backup (rename failed): busy".to_string()))
    );
    let mut job = BackupJob::new("S");
    job.step(BackupOutcome::Begin);
    job.step(BackupOutcome::SourceChecked(Ok(true)));
    assert_eq!(
        job.step(BackupOutcome::RootReady(Err("denied".to_string()))),
        BackupAction::Finish(Err("denied".to_string()))
    );
}

#[test]
fn out_of_order_outcome_changes_nothing() {
    let mut job = BackupJob::new("S");
    assert_eq!(job.step(BackupOutcome::Renamed(Ok(()))), BackupAction::Unexpected);
    assert_eq!(job.stage, BackupStage::Start);
}

#[test]
fn restore_runs_to_completion() {
    let mut job = RestoreJob::new("Save__TS__20240101_000000");
    assert_eq!(
        job.step(RestoreOutcome::Begin),
        RestoreAction::FindBackup("Save__TS__20240101_000000".to_string())
    );
    assert_eq!(job.step(RestoreOutcome::BackupFound(Ok(true))), RestoreAction::FindInner("Save".to_string()));
    assert_eq!(job.step(RestoreOutcome::InnerFound(true, "/b/x/Save".to_string())), RestoreAction::ResolveSaveRoot);
    assert_eq!(job.step(RestoreOutcome::SaveRoot(Ok(()))), RestoreAction::ReadClock);
    assert_eq!(
        job.step(RestoreOutcome::Clock(77)),
        RestoreAction::CreateTemp(".tmp_restore_Save_77".to_string())
    );
    assert_eq!(
        job.step(RestoreOutcome::TempCreated(Ok(()))),
        RestoreAction::CopyToTemp("Save".to_string(), ".tmp_restore_Save_77".to_string())
    );
    assert_eq!(job.step(RestoreOutcome::Copied(Ok(()))), RestoreAction::RemoveOldSave("Save".to_string()));
    assert_eq!(
        job.step(RestoreOutcome::Replaced(Ok(()))),
        RestoreAction::Rename(".tmp_restore_Save_77".to_string(), "Save".to_string())
    );
    assert_eq!(job.step(RestoreOutcome::Renamed(Ok(()))), RestoreAction::MarkRestored("Save".to_string()));
    assert_eq!(job.step(RestoreOutcome::Marked), RestoreAction::Finish(Ok(())));
    assert_eq!(job.stage, RestoreStage::Finished);
}

#[test]
fn restore_of_missing_backup_fails() {
    let mut job = RestoreJob::new("Nope");
    job.step(RestoreOutcome::Begin);
    assert_eq!(
        job.step(RestoreOutcome::BackupFound(Ok(false))),
        RestoreAction::Finish(Err("Backup 'Nope' does not exist".to_string()))
    );
}

#[test]
fn restore_of_unnamed_backup_fails() {
    let mut job = RestoreJob::new("__TS__1");
    job.step(RestoreOutcome::Begin);
    assert_eq!(
        job.step(RestoreOutcome::BackupFound(Ok(true))),
        RestoreAction::Finish(Err("Could not determine original save name from backup name: '__TS__1'".to_string()))
    );
}

#[test]
fn corrupt_backup_is_reported() {
    let mut job = RestoreJob::new("S__TS__1");
    job.step(RestoreOutcome::Begin);
    job.step(RestoreOutcome::BackupFound(Ok(true)));
    assert_eq!(
        job.step(RestoreOutcome::InnerFound(false, "/b/S__TS__1/S".to_string())),
        RestoreAction::Finish(Err("Backup appears to be corrupt — expected inner folder '/b/S__TS__1/S' not found".to_string()))
    );
}

fn restore_until_copy(name: &str) -> RestoreJob {
    let mut job = RestoreJob::new(name);
    job.step(RestoreOutcome::Begin);
    job.step(RestoreOutcome::BackupFound(Ok(true)));
    job.step(RestoreOutcome::InnerFound(true, String::new()));
    job.step(RestoreOutcome::SaveRoot(Ok(())));
    job.step(RestoreOutcome::Clock(1));
    job.step(RestoreOutcome::TempCreated(Ok(())));
    job
}

#[test]
fn failed_copy_discards_the_temporary_folder() {
    let mut job = restore_until_copy("S__TS__1");
    assert_eq!(
        job.step(RestoreOutcome::Copied(Err("io".to_string()))),
        RestoreAction::DiscardTemp(".tmp_restore_S_1".to_string())
    );
    assert_eq!(job.step(RestoreOutcome::Discarded), RestoreAction::Finish(Err("Copy failed: io".to_string())));
}

#[test]
fn restore_errors_after_copy() {
    let mut job = restore_until_copy("S__TS__1");
    job.step(RestoreOutcome::Copied(Ok(())));
    assert_eq!(
        job.step(RestoreOutcome::Replaced(Err("locked".to_string()))),
        RestoreAction::Finish(Err("Failed to remove old save: locked".to_string()))
    );
    let mut job = restore_until_copy("S__TS__1");
    job.step(RestoreOutcome::Copied(Ok(())));
    job.step(RestoreOutcome::Replaced(Ok(())));
    assert_eq!(
        job.step(RestoreOutcome::Renamed(Err("x".to_string()))),
        RestoreAction::Finish(Err("Could not finalize restore: x".to_string()))
    );
}
