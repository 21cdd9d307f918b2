//! Verified core of a save-game backup manager for Baldur's Gate 3: the names
//! of backups, the order of listings, the choice of preview images, notes
//! files, the backup and restore procedures as step-by-step jobs, the memory
//! of recent restores and the decisions of the automatic backup watcher.
//! File-system work, clocks and the file watcher belong to the caller.

pub mod backup;
pub mod listing;
pub mod locations;
pub mod naming;
pub mod notes;
pub mod preview;
pub mod restore;
pub mod restore_job;
pub mod text;
pub mod watcher;
