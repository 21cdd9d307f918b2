//! The decisions of the automatic backup: which save folders a burst of file
//! events touched, when a burst is ignored, and which saves are backed up.
//! The caller waits for events, performs the backups and reads the clock (a
//! monotonic clock, in nanoseconds); this module decides.

use vstd::prelude::*;

use crate::naming;
use crate::naming::is_temp_folder;
use crate::restore;
use crate::restore::{recently_restored, RestoreTracker};
use crate::text;

verus! {

/// How long after a round that backed something up further bursts are
/// ignored: ten seconds.
pub const COOLDOWN_NANOS: u128 = 10_000_000_000;

/// What the watcher received.
pub enum WatchEvent {
    /// No burst arrived in time.
    Timeout,
    /// The channel of bursts was closed.
    ChannelClosed,
    /// A burst of debounced events, each given by the components of its path
    /// (`None` for a component that is not valid Unicode). An empty burst
    /// stands for a failure that the debouncer reported.
    Burst(Vec<Vec<Option<String>>>),
}

/// What the watcher does in answer.
pub enum WatchAction {
    /// Keep waiting.
    Wait,
    /// Stop watching.
    Stop,
    /// The debouncer reported a failure; keep waiting.
    DebounceFailed,
    /// A round backed something up less than ten seconds ago; the burst is
    /// ignored.
    CoolingDown,
    /// No event lies inside a save folder; keep waiting.
    NoSaveFolders,
    /// Consider backing up these save folders, in this order.
    BackUp(Vec<String>),
}

/// The name of the save folder that an event's path lies in: the component
/// right below the save directory, which has `depth` components.
pub open spec fn event_folder(path: Vec<Option<String>>, depth: int) -> Option<Seq<char>> {
    if 0 <= depth < path@.len() {
        match path@[depth] {
            Some(s) => Some(s@),
            None => None,
        }
    } else {
        None
    }
}

/// The save folders that the events touched, each once, in the order of their
/// first event.
pub open spec fn affected_folders(events: Seq<Vec<Option<String>>>, depth: int) -> Seq<Seq<char>>
    decreases events.len(),
{
    if events.len() == 0 {
        Seq::empty()
    } else {
        let acc = affected_folders(events.drop_last(), depth);
        match event_folder(events.last(), depth) {
            Some(s) => if acc.contains(s) {
                acc
            } else {
                acc.push(s)
            },
            None => acc,
        }
    }
}

/// Whether a round that backed something up at `last` still silences bursts
/// at `now`.
pub open spec fn cooling_down(last: Option<u128>, now: u128) -> bool {
    match last {
        Some(t) => restore::elapsed(t, now) < COOLDOWN_NANOS,
        None => false,
    }
}

/// The views of a list of names.
pub open spec fn names_view(v: Seq<String>) -> Seq<Seq<char>> {
    v.map_values(|s: String| s@)
}

/// The state that the watcher keeps between bursts.
pub struct AutoBackupState {
    /// When the last round that backed something up ended.
    pub last_backup: Option<u128>,
}

/// Whether `name` is among `names`.
fn contains_name(names: &Vec<String>, name: &String) -> (r: bool)
    ensures
        r == names_view(names@).contains(name@),
{
    let mut i: usize = 0;
    while i < names.len()
        invariant
            i <= names@.len(),
            forall|k: int| 0 <= k < i ==> names@[k]@ != name@,
        decreases names.len() - i,
    {
        if names[i] == *name {
            assert(names_view(names@)[i as int] == name@);
            return true;
        }
        i = i + 1;
    }
    proof {
        if names_view(names@).contains(name@) {
            let k = choose|k: int| 0 <= k < names_view(names@).len() && names_view(names@)[k] == name@;
            assert(names@[k]@ == name@);
        }
    }
    false
}

/// The folders that a burst touched, as `affected_folders` gives them.
pub fn affected_save_folders(events: &Vec<Vec<Option<String>>>, depth: usize) -> (r: Vec<String>)
    ensures
        names_view(r@) == affected_folders(events@, depth as int),
{
    let mut r: Vec<String> = Vec::new();
    let mut i: usize = 0;
    while i < events.len()
        invariant
            i <= events@.len(),
            names_view(r@) == affected_folders(events@.take(i as int), depth as int),
        decreases events.len() - i,
    {
        proof {
            assert(events@.take(i + 1).drop_last() == events@.take(i as int));
            assert(events@.take(i + 1).last() == events@[i as int]);
        }
        let path = &events[i];
        if depth < path.len() {
            match &path[depth] {
                Some(name) => {
                    let seen = contains_name(&r, name);
                    if !seen {
                        let ghost before = r@;
                        r.push(name.clone());
                        proof {
                            assert(names_view(r@) =~= names_view(before).push(name@));
                        }
                    }
                },
                None => {},
            }
        }
        i = i + 1;
    }
    assert(events@.take(i as int) == events@);
    r
}

} // verus!

verus! {

/// What the watcher decides, with the names of a `BackUp` taken by their
/// characters.
pub enum WatchDecision {
    Wait,
    Stop,
    DebounceFailed,
    CoolingDown,
    NoSaveFolders,
    BackUp(Seq<Seq<char>>),
}

/// The decision for `event`, received at `now`, when the last round that
/// backed something up ended at `last` and the save directory has `depth`
/// path components.
pub open spec fn spec_on_event(last: Option<u128>, event: WatchEvent, depth: int, now: u128) -> WatchDecision {
    match event {
        WatchEvent::Timeout => WatchDecision::Wait,
        WatchEvent::ChannelClosed => WatchDecision::Stop,
        WatchEvent::Burst(events) => if events@.len() == 0 {
            WatchDecision::DebounceFailed
        } else if cooling_down(last, now) {
            WatchDecision::CoolingDown
        } else if affected_folders(events@, depth).len() == 0 {
            WatchDecision::NoSaveFolders
        } else {
            WatchDecision::BackUp(affected_folders(events@, depth))
        },
    }
}

/// The decision that an action carries out.
pub open spec fn action_decision(a: WatchAction) -> WatchDecision {
    match a {
        WatchAction::Wait => WatchDecision::Wait,
        WatchAction::Stop => WatchDecision::Stop,
        WatchAction::DebounceFailed => WatchDecision::DebounceFailed,
        WatchAction::CoolingDown => WatchDecision::CoolingDown,
        WatchAction::NoSaveFolders => WatchDecision::NoSaveFolders,
        WatchAction::BackUp(names) => WatchDecision::BackUp(names_view(names@)),
    }
}

impl AutoBackupState {
    /// The state before any backup.
    pub fn new() -> (r: Self)
        ensures
            r.last_backup is None,
    {
        AutoBackupState { last_backup: None }
    }

    /// The answer to `event` received at `now`, for a save directory whose
    /// path has `depth` components: stop when the channel closed, ignore
    /// timeouts, failures, bursts during the cool-down and bursts outside any
    /// save folder, and otherwise consider backing up the touched folders.
    pub fn on_event(&self, event: &WatchEvent, depth: usize, now: u128) -> (r: WatchAction)
        ensures
            action_decision(r) == spec_on_event(self.last_backup, *event, depth as int, now),
    {
        match event {
            WatchEvent::Timeout => WatchAction::Wait,
            WatchEvent::ChannelClosed => WatchAction::Stop,
            WatchEvent::Burst(events) => {
                if events.len() == 0 {
                    return WatchAction::DebounceFailed;
                }
                match self.last_backup {
                    Some(t) => {
                        let elapsed = if now >= t {
                            now - t
                        } else {
                            0
                        };
                        if elapsed < COOLDOWN_NANOS {
                            return WatchAction::CoolingDown;
                        }
                    },
                    None => {},
                }
                let names = affected_save_folders(events, depth);
                if names.len() == 0 {
                    WatchAction::NoSaveFolders
                } else {
                    WatchAction::BackUp(names)
                }
            },
        }
    }

    /// Records the end, at `now`, of a round of backups; only a round that
    /// backed something up starts a cool-down.
    pub fn on_round_finished(&mut self, any_backed_up: bool, now: u128)
        ensures
            final(self).last_backup == if any_backed_up {
                Some(now)
            } else {
                old(self).last_backup
            },
    {
        if any_backed_up {
            self.last_backup = Some(now);
        }
    }
}

/// Whether the watcher backs up the save folder `save` at `now`, given the
/// restores `m` remembered.
pub open spec fn spec_should_back_up(m: Map<Seq<char>, u128>, save: Seq<char>, now: u128) -> bool {
    !text::starts_with(save, ".tmp_"@) && !restore::spec_recently_restored(m, save, now)
}

/// Whether the save folder `save_name` is backed up in a round at `now`: not
/// when it is a temporary folder of a backup or restore, nor when it was
/// restored less than thirty seconds ago (a restore older than that is
/// forgotten on the way).
pub fn should_back_up(tracker: &mut RestoreTracker, save_name: &str, now: u128) -> (r: bool)
    ensures
        r == spec_should_back_up(old(tracker)@, save_name@, now),
        final(tracker)@ == if text::starts_with(save_name@, ".tmp_"@) {
            old(tracker)@
        } else {
            restore::spec_after_check(old(tracker)@, save_name@, now)
        },
{
    if is_temp_folder(save_name) {
        return false;
    }
    !recently_restored(tracker, save_name, now)
}

/// The folders of a burst are distinct, each is the folder of one of the
/// burst's events, and the folder of every event is among them.
pub proof fn lemma_affected_folders_exact(events: Seq<Vec<Option<String>>>, depth: int)
    ensures
        affected_folders(events, depth).no_duplicates(),
        forall|s: Seq<char>|
            affected_folders(events, depth).contains(s) <==> exists|i: int|
                0 <= i < events.len() && #[trigger] event_folder(events[i], depth) == Some(s),
    decreases events.len(),
{
    if events.len() > 0 {
        let prev = events.drop_last();
        lemma_affected_folders_exact(prev, depth);
        let acc = affected_folders(prev, depth);
        assert forall|s: Seq<char>|
            affected_folders(events, depth).contains(s) <==> exists|i: int|
                0 <= i < events.len() && #[trigger] event_folder(events[i], depth) == Some(s) by {
            if affected_folders(events, depth).contains(s) {
                if acc.contains(s) {
                    let i = choose|i: int|
                        0 <= i < prev.len() && #[trigger] event_folder(prev[i], depth) == Some(s);
                    assert(events[i] == prev[i]);
                } else {
                    assert(event_folder(events[events.len() - 1], depth) == Some(s));
                }
            }
            if exists|i: int| 0 <= i < events.len() && #[trigger] event_folder(events[i], depth) == Some(s) {
                let i = choose|i: int|
                    0 <= i < events.len() && #[trigger] event_folder(events[i], depth) == Some(s);
                if i < events.len() - 1 {
                    assert(prev[i] == events[i]);
                    assert(acc.contains(s));
                } else {
                    assert(events.last() == events[i]);
                }
                if acc.contains(s) {
                    let k = choose|k: int| 0 <= k < acc.len() && acc[k] == s;
                    assert(affected_folders(events, depth)[k] == s);
                } else {
                    let r = affected_folders(events, depth);
                    assert(r[r.len() - 1] == s);
                }
            }
        }
    }
}

/// After a round that backed something up, every burst in the next ten
/// seconds is ignored: nothing is backed up.
pub proof fn lemma_cooldown_silences_bursts(events: Vec<Vec<Option<String>>>, depth: int, t: u128, now: u128)
    requires
        events@.len() > 0,
        t <= now,
        now - t < COOLDOWN_NANOS,
    ensures
        spec_on_event(Some(t), WatchEvent::Burst(events), depth, now) is CoolingDown,
{
}

/// Ten seconds after the last round that backed something up, a burst that
/// touched a save folder is acted on again.
pub proof fn lemma_cooldown_ends(events: Vec<Vec<Option<String>>>, depth: int, t: u128, now: u128)
    requires
        affected_folders(events@, depth).len() > 0,
        t <= now,
        now - t >= COOLDOWN_NANOS,
    ensures
        spec_on_event(Some(t), WatchEvent::Burst(events), depth, now) == WatchDecision::BackUp(
            affected_folders(events@, depth),
        ),
{
    if events@.len() == 0 {
        assert(affected_folders(events@, depth) == Seq::<Seq<char>>::empty());
    }
}

} // verus!

verus! {

/// The watcher never backs up the temporary folder of a backup or of a
/// restore in progress.
pub proof fn lemma_temp_folders_never_backed_up(
    m: Map<Seq<char>, u128>,
    name: Seq<char>,
    nanos: nat,
    now: u128,
)
    ensures
        !spec_should_back_up(m, naming::spec_temp_backup_dir_name(name, nanos), now),
        !spec_should_back_up(m, naming::spec_temp_restore_dir_name(name, nanos), now),
{
    naming::lemma_temp_folders_are_temp(name, nanos);
}

/// For thirty seconds after a save is restored, the watcher does not back it
/// up; afterwards it does again (unless it is a temporary folder).
pub proof fn lemma_restored_save_left_alone(
    m: Map<Seq<char>, u128>,
    save: Seq<char>,
    then: u128,
    now: u128,
)
    requires
        then <= now,
    ensures
        now - then < restore::RESTORE_GRACE_NANOS ==> !spec_should_back_up(
            restore::spec_mark_restored(m, save, then),
            save,
            now,
        ),
        now - then >= restore::RESTORE_GRACE_NANOS ==> spec_should_back_up(
            restore::spec_mark_restored(m, save, then),
            save,
            now,
        ) == !text::starts_with(save, ".tmp_"@),
{
}

} // verus!
