# bg3_save_manager

The verified core of a desktop tool that backs up, restores and deletes
Baldur's Gate 3 save games, and backs a save up on its own when the game
writes it.

`src/` is a Verus library. Its functions carry contracts that Verus proves,
except four small trusted wrappers around outside code, whose contracts are
believed: `String::push`, `Path::join`, and serde_json's parser and
pretty-printer (in `text`, `locations` and `notes`). The properties the tool
relies on are stated as proof functions:

- `naming` — backup folders are named `<save>__TS__<timestamp>`; the save is
  read back from that name; the names of the temporary folders used for atomic
  backups and restores.
- `listing` — a folder's modification time, the stable newest-first order of
  listings, and the lookup of a save's latest backup.
- `preview` — the `.webp` preview of a save or backup folder.
- `notes` — the JSON notes file of a backup, whose exact text is stated.
- `backup`, `restore_job` — backup and restore as jobs that decide each next
  step from the outcome of the last one.
- `restore` — saves restored in the last thirty seconds.
- `watcher` — which save folders a burst of file events touched, the ten second
  cool-down, and which of them are backed up.
- `locations` — where the saves and the backups live, below the user folders
  that the caller reads from the operating system.

`app/` holds the file-system work, the clocks and the file watcher, and drives
the library; `tests/` exercises the library.
