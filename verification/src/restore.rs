//! Remembering which saves were just restored, so that the automatic backup
//! does not immediately back up the files that a restore itself wrote.
//! Times are readings of a monotonic clock, in nanoseconds.

use vstd::prelude::*;
use vstd::hash_map::StringHashMap;

verus! {

/// How long after its restore a save is left alone: thirty seconds.
pub const RESTORE_GRACE_NANOS: u128 = 30_000_000_000;

/// The time from `then` to `now`, or zero when `now` is not later (a clock
/// reading that saturates, as `Instant::elapsed` does).
pub open spec fn elapsed(then: u128, now: u128) -> int {
    if now >= then {
        now - then
    } else {
        0
    }
}

/// Whether a restore at `then` is still recent at `now`.
pub open spec fn within_grace(then: u128, now: u128) -> bool {
    elapsed(then, now) < RESTORE_GRACE_NANOS
}

/// The restores that the tracker remembers after `save` was restored at `now`.
pub open spec fn spec_mark_restored(m: Map<Seq<char>, u128>, save: Seq<char>, now: u128) -> Map<
    Seq<char>,
    u128,
> {
    m.insert(save, now)
}

/// Whether `save` counts as recently restored at `now`.
pub open spec fn spec_recently_restored(m: Map<Seq<char>, u128>, save: Seq<char>, now: u128) -> bool {
    m.contains_key(save) && within_grace(m[save], now)
}

/// The restores remembered after asking about `save` at `now`: a restore that
/// is no longer recent is forgotten.
pub open spec fn spec_after_check(m: Map<Seq<char>, u128>, save: Seq<char>, now: u128) -> Map<
    Seq<char>,
    u128,
> {
    if spec_recently_restored(m, save, now) {
        m
    } else {
        m.remove(save)
    }
}

/// The saves restored lately, each with the time of its latest restore.
pub struct RestoreTracker {
    restored: StringHashMap<u128>,
}

impl View for RestoreTracker {
    type V = Map<Seq<char>, u128>;

    closed spec fn view(&self) -> Map<Seq<char>, u128> {
        self.restored@
    }
}

impl RestoreTracker {
    /// A tracker that remembers no restore.
    pub fn new() -> (r: Self)
        ensures
            r@ == Map::<Seq<char>, u128>::empty(),
    {
        RestoreTracker { restored: StringHashMap::new() }
    }
}

/// Records that `save_name` was restored at `now`.
pub fn mark_restored(tracker: &mut RestoreTracker, save_name: &str, now: u128)
    ensures
        final(tracker)@ == spec_mark_restored(old(tracker)@, save_name@, now),
{
    tracker.restored.insert(save_name.to_owned(), now);
}

/// Whether `save_name` was restored less than thirty seconds before `now`; a
/// restore that is older than that is forgotten.
pub fn recently_restored(tracker: &mut RestoreTracker, save_name: &str, now: u128) -> (r: bool)
    ensures
        r == spec_recently_restored(old(tracker)@, save_name@, now),
        final(tracker)@ == spec_after_check(old(tracker)@, save_name@, now),
{
    match tracker.restored.get(save_name) {
        Some(then) => {
            let then = *then;
            let elapsed = if now >= then {
                now - then
            } else {
                0
            };
            if elapsed < RESTORE_GRACE_NANOS {
                true
            } else {
                tracker.restored.remove(save_name);
                false
            }
        },
        None => {
            proof {
                assert(tracker.restored@.remove(save_name@) =~= tracker.restored@);
            }
            false
        },
    }
}

/// A save restored at `then` counts as recently restored at any `now` less
/// than thirty seconds later, and the check leaves the record in place.
pub proof fn lemma_recent_restore_is_remembered(
    m: Map<Seq<char>, u128>,
    save: Seq<char>,
    then: u128,
    now: u128,
)
    requires
        then <= now,
        now - then < RESTORE_GRACE_NANOS,
    ensures
        spec_recently_restored(spec_mark_restored(m, save, then), save, now),
        spec_after_check(spec_mark_restored(m, save, then), save, now) == spec_mark_restored(
            m,
            save,
            then,
        ),
{
}

/// Thirty seconds or more after its restore a save no longer counts, its
/// record is dropped, and it does not count at any later check either.
pub proof fn lemma_old_restore_is_forgotten(
    m: Map<Seq<char>, u128>,
    save: Seq<char>,
    then: u128,
    now: u128,
    later: u128,
)
    requires
        then <= now,
        now - then >= RESTORE_GRACE_NANOS,
    ensures
        !spec_recently_restored(spec_mark_restored(m, save, then), save, now),
        !spec_after_check(spec_mark_restored(m, save, then), save, now).contains_key(save),
        !spec_recently_restored(
            spec_after_check(spec_mark_restored(m, save, then), save, now),
            save,
            later,
        ),
{
}

/// A save that was never restored does not count as recently restored, and
/// asking changes nothing.
pub proof fn lemma_unrestored_save_is_not_recent(m: Map<Seq<char>, u128>, save: Seq<char>, now: u128)
    requires
        !m.contains_key(save),
    ensures
        !spec_recently_restored(m, save, now),
        spec_after_check(m, save, now) == m,
{
    assert(m.remove(save) =~= m);
}

/// Asking about one save never changes what is remembered of another.
pub proof fn lemma_check_leaves_other_saves(
    m: Map<Seq<char>, u128>,
    save: Seq<char>,
    other: Seq<char>,
    now: u128,
)
    requires
        save != other,
    ensures
        spec_after_check(m, save, now).contains_key(other) == m.contains_key(other),
        m.contains_key(other) ==> spec_after_check(m, save, now)[other] == m[other],
{
}

} // verus!

verus! {

/// Recording a restore of `save` at `now` remembers `save` as restored at
/// `now` and leaves the record of every other save as it was: whether another
/// save counts as recently restored, at any time, is the same before and
/// after.
pub proof fn lemma_mark_restored_touches_only_its_save(
    m: Map<Seq<char>, u128>,
    save: Seq<char>,
    now: u128,
    other: Seq<char>,
    later: u128,
)
    ensures
        spec_mark_restored(m, save, now).contains_key(save),
        spec_mark_restored(m, save, now)[save] == now,
        other != save ==> spec_mark_restored(m, save, now).contains_key(other) == m.contains_key(
            other,
        ),
        other != save && m.contains_key(other) ==> spec_mark_restored(m, save, now)[other]
            == m[other],
        other != save ==> spec_recently_restored(spec_mark_restored(m, save, now), other, later)
            == spec_recently_restored(m, other, later),
{
}

/// Two saves restored one after the other are both recent while within
/// thirty seconds of their own restore: the second restore does not wipe the
/// record of the first.
pub proof fn lemma_restores_are_remembered_independently(
    m: Map<Seq<char>, u128>,
    a: Seq<char>,
    ta: u128,
    b: Seq<char>,
    tb: u128,
    now: u128,
)
    requires
        a != b,
        ta <= now,
        now - ta < RESTORE_GRACE_NANOS,
    ensures
        spec_recently_restored(spec_mark_restored(spec_mark_restored(m, a, ta), b, tb), a, now),
{
}

} // verus!
