//! The folders of saves and backups as the manager lists them: when a folder
//! was last modified, the newest-first order of a listing, and the lookup of
//! a save's most recent backup.

use vstd::prelude::*;

use crate::naming;
use crate::naming::backup_prefix;
use crate::text;
use crate::text::{concat3, str_starts_with};

verus! {

broadcast use vstd::seq_lib::group_to_multiset_ensures;

/// A save (or backup) folder: its name, its full path, when it was last
/// modified (in seconds since the Unix epoch) and, for a backup, its notes.
#[derive(Clone, Debug, PartialEq, Eq)]
pub struct SaveFolder {
    pub name: String,
    pub path: String,
    pub last_modified: u64,
    pub notes: Option<String>,
}

/// The time a folder counts as last modified: the later of the folder's own
/// time and the times of the files directly inside it.
pub open spec fn spec_folder_last_modified(folder: u64, inner: Seq<u64>) -> u64
    decreases inner.len(),
{
    if inner.len() == 0 {
        folder
    } else {
        let rest = spec_folder_last_modified(folder, inner.drop_last());
        if inner.last() > rest {
            inner.last()
        } else {
            rest
        }
    }
}

/// Where `x` goes in `s`: before the first folder older than `x`.
pub open spec fn insert_pos(s: Seq<SaveFolder>, x: SaveFolder) -> int
    decreases s.len(),
{
    if s.len() == 0 || s[0].last_modified < x.last_modified {
        0
    } else {
        1 + insert_pos(s.drop_first(), x)
    }
}

/// `s` with `x` placed before the first folder older than `x` (after every
/// folder at least as new).
pub open spec fn insert_newest(s: Seq<SaveFolder>, x: SaveFolder) -> Seq<SaveFolder> {
    s.insert(insert_pos(s, x), x)
}

/// The folders of `s`, newest first; folders of equal age keep their order
/// (the stable sort that `sort_by` with a descending key performs).
pub open spec fn newest_first(s: Seq<SaveFolder>) -> Seq<SaveFolder>
    decreases s.len(),
{
    if s.len() == 0 {
        Seq::empty()
    } else {
        insert_newest(newest_first(s.drop_last()), s.last())
    }
}

/// Whether `s` is ordered newest first.
pub open spec fn is_newest_first(s: Seq<SaveFolder>) -> bool {
    forall|i: int, j: int| 0 <= i < j < s.len() ==> s[i].last_modified >= s[j].last_modified
}

/// The folders of `s` whose time is `t`, in order.
pub open spec fn modified_at(s: Seq<SaveFolder>, t: u64) -> Seq<SaveFolder> {
    s.filter(|f: SaveFolder| f.last_modified == t)
}

/// The index of the first folder in `s` whose name begins with `prefix`.
pub open spec fn first_with_prefix(s: Seq<SaveFolder>, prefix: Seq<char>, i: int) -> Option<int>
    decreases s.len() - i,
{
    if i < 0 || i >= s.len() {
        None
    } else if text::starts_with(s[i].name@, prefix) {
        Some(i)
    } else {
        first_with_prefix(s, prefix, i + 1)
    }
}

proof fn lemma_insert_pos_bounds(s: Seq<SaveFolder>, x: SaveFolder)
    ensures
        0 <= insert_pos(s, x) <= s.len(),
        forall|k: int| 0 <= k < insert_pos(s, x) ==> s[k].last_modified >= x.last_modified,
        insert_pos(s, x) < s.len() ==> s[insert_pos(s, x)].last_modified < x.last_modified,
    decreases s.len(),
{
    if s.len() > 0 && s[0].last_modified >= x.last_modified {
        lemma_insert_pos_bounds(s.drop_first(), x);
        assert forall|k: int| 0 <= k < insert_pos(s, x) implies s[k].last_modified
            >= x.last_modified by {
            if k > 0 {
                assert(s[k] == s.drop_first()[k - 1]);
            }
        }
    }
}

/// A position with only folders at least as new as `x` before it and an
/// older folder (or the end) at it is where `x` goes.
proof fn lemma_insert_pos_unique(s: Seq<SaveFolder>, x: SaveFolder, j: int)
    requires
        0 <= j <= s.len(),
        forall|k: int| 0 <= k < j ==> s[k].last_modified >= x.last_modified,
        j < s.len() ==> s[j].last_modified < x.last_modified,
    ensures
        insert_pos(s, x) == j,
    decreases s.len(),
{
    if j > 0 {
        assert forall|k: int| 0 <= k < j - 1 implies s.drop_first()[k].last_modified
            >= x.last_modified by {
            assert(s.drop_first()[k] == s[k + 1]);
        }
        lemma_insert_pos_unique(s.drop_first(), x, j - 1);
    }
}

/// Inserting into a newest-first listing keeps it newest first.
proof fn lemma_insert_keeps_order(s: Seq<SaveFolder>, x: SaveFolder)
    requires
        is_newest_first(s),
    ensures
        is_newest_first(insert_newest(s, x)),
{
    lemma_insert_pos_bounds(s, x);
    let p = insert_pos(s, x);
    let r = insert_newest(s, x);
    assert forall|i: int, j: int| 0 <= i < j < r.len() implies r[i].last_modified
        >= r[j].last_modified by {
        if j < p {
        } else if j == p {
        } else if i < p {
            assert(r[j] == s[j - 1]);
            assert(s[i].last_modified >= s[p].last_modified || p == s.len());
        } else if i == p {
            assert(r[j] == s[j - 1]);
            assert(s[p].last_modified >= s[j - 1].last_modified);
        } else {
            assert(r[j] == s[j - 1]);
            assert(r[i] == s[i - 1]);
        }
    }
}

/// Sorting yields a newest-first listing.
pub proof fn lemma_newest_first_is_ordered(s: Seq<SaveFolder>)
    ensures
        is_newest_first(newest_first(s)),
    decreases s.len(),
{
    if s.len() > 0 {
        lemma_newest_first_is_ordered(s.drop_last());
        lemma_insert_keeps_order(newest_first(s.drop_last()), s.last());
    }
}

/// Sorting neither loses, duplicates nor invents a folder.
pub proof fn lemma_newest_first_is_permutation(s: Seq<SaveFolder>)
    ensures
        newest_first(s).to_multiset() == s.to_multiset(),
    decreases s.len(),
{
    if s.len() > 0 {
        lemma_newest_first_is_permutation(s.drop_last());
        let t = newest_first(s.drop_last());
        lemma_insert_pos_bounds(t, s.last());
        assert(s.drop_last().push(s.last()) == s);
    }
}

/// In a newest-first listing, inserting `x` adds it after every folder of the
/// same age.
proof fn lemma_insert_stable(s: Seq<SaveFolder>, x: SaveFolder, t: u64)
    requires
        is_newest_first(s),
    ensures
        modified_at(insert_newest(s, x), t) == if x.last_modified == t {
            modified_at(s, t).push(x)
        } else {
            modified_at(s, t)
        },
{
    lemma_insert_pos_bounds(s, x);
    let p = insert_pos(s, x);
    let pred = |f: SaveFolder| f.last_modified == t;
    let a = s.subrange(0, p);
    let b = s.subrange(p, s.len() as int);
    assert(s == a + b);
    assert(insert_newest(s, x) == a + (seq![x] + b));
    Seq::filter_distributes_over_add(a, seq![x] + b, pred);
    Seq::filter_distributes_over_add(a, b, pred);
    b.lemma_filter_prepend(x, pred);
    if x.last_modified == t {
        // Every folder after the insertion point is strictly older than x.
        assert forall|k: int| 0 <= k < b.len() implies !pred(b[k]) by {
            assert(b[k] == s[p + k]);
            assert(s[p].last_modified >= s[p + k].last_modified);
        }
        b.lemma_all_neg_filter_empty(pred);
        assert(a.filter(pred).push(x) == a.filter(pred) + seq![x]);
        assert(a.filter(pred) + (seq![x] + b.filter(pred)) == a.filter(pred) + seq![x]);
    } else {
        assert(Seq::<SaveFolder>::empty() + b.filter(pred) =~= b.filter(pred));
    }
}

/// Sorting is stable: the folders of any one age appear in the same order as
/// before.
pub proof fn lemma_newest_first_is_stable(s: Seq<SaveFolder>, t: u64)
    ensures
        modified_at(newest_first(s), t) == modified_at(s, t),
    decreases s.len(),
{
    if s.len() > 0 {
        let pred = |f: SaveFolder| f.last_modified == t;
        lemma_newest_first_is_stable(s.drop_last(), t);
        lemma_newest_first_is_ordered(s.drop_last());
        lemma_insert_stable(newest_first(s.drop_last()), s.last(), t);
        assert(s.drop_last().push(s.last()) == s);
        s.drop_last().lemma_filter_push(s.last(), pred);
    }
}

/// The time `folder_last_modified` computes is one of the given times and is
/// no earlier than any of them.
pub proof fn lemma_folder_last_modified_is_latest(folder: u64, inner: Seq<u64>)
    ensures
        spec_folder_last_modified(folder, inner) >= folder,
        forall|i: int| 0 <= i < inner.len() ==> spec_folder_last_modified(folder, inner) >= inner[i],
        spec_folder_last_modified(folder, inner) == folder || inner.contains(
            spec_folder_last_modified(folder, inner),
        ),
    decreases inner.len(),
{
    if inner.len() > 0 {
        lemma_folder_last_modified_is_latest(folder, inner.drop_last());
        assert forall|i: int| 0 <= i < inner.len() implies spec_folder_last_modified(folder, inner)
            >= inner[i] by {
            if i < inner.len() - 1 {
                assert(inner[i] == inner.drop_last()[i]);
            }
        }
        let m = spec_folder_last_modified(folder, inner);
        if m != folder && m != inner.last() {
            let k = choose|k: int| 0 <= k < inner.drop_last().len() && inner.drop_last()[k] == m;
            assert(inner[k] == m);
        }
        if m == inner.last() {
            assert(inner[inner.len() - 1] == m);
        }
    }
}

/// The time a folder counts as last modified: the latest of its own time and
/// the times of the files inside it.
pub fn folder_last_modified(folder_secs: u64, inner_secs: &Vec<u64>) -> (r: u64)
    ensures
        r == spec_folder_last_modified(folder_secs, inner_secs@),
{
    let mut r = folder_secs;
    let mut i: usize = 0;
    while i < inner_secs.len()
        invariant
            i <= inner_secs@.len(),
            r == spec_folder_last_modified(folder_secs, inner_secs@.take(i as int)),
        decreases inner_secs.len() - i,
    {
        assert(inner_secs@.take(i + 1).drop_last() == inner_secs@.take(i as int));
        if inner_secs[i] > r {
            r = inner_secs[i];
        }
        i = i + 1;
    }
    assert(inner_secs@.take(i as int) == inner_secs@);
    r
}

/// Where a folder with time `t` goes in the newest-first listing `out`.
fn insertion_index(out: &Vec<SaveFolder>, t: u64) -> (j: usize)
    ensures
        j <= out@.len(),
        forall|k: int| 0 <= k < j ==> out@[k].last_modified >= t,
        j < out@.len() ==> out@[j as int].last_modified < t,
{
    let mut j: usize = 0;
    while j < out.len() && out[j].last_modified >= t
        invariant
            j <= out@.len(),
            forall|k: int| 0 <= k < j ==> out@[k].last_modified >= t,
        decreases out.len() - j,
    {
        j = j + 1;
    }
    j
}

/// The folders of `saves`, newest first; folders of equal age keep their
/// order.
pub fn sort_newest_first(saves: Vec<SaveFolder>) -> (r: Vec<SaveFolder>)
    ensures
        r@ == newest_first(saves@),
{
    let ghost orig = saves@;
    let mut rest = saves;
    let mut out: Vec<SaveFolder> = Vec::new();
    let ghost mut i: int = 0;
    assert(orig.take(0) == Seq::<SaveFolder>::empty());
    while rest.len() > 0
        invariant
            0 <= i <= orig.len(),
            rest@ == orig.skip(i),
            out@ == newest_first(orig.take(i)),
        decreases rest.len(),
    {
        let x = rest.remove(0);
        proof {
            assert(x == orig[i]);
            assert(orig.take(i + 1).drop_last() == orig.take(i));
            assert(orig.take(i + 1).last() == orig[i]);
        }
        let j = insertion_index(&out, x.last_modified);
        proof {
            lemma_insert_pos_unique(out@, x, j as int);
        }
        out.insert(j, x);
        proof {
            assert(rest@ == orig.skip(i + 1));
            i = i + 1;
        }
    }
    assert(orig.take(i) == orig);
    out
}

/// The message when a backup to delete or annotate is missing.
pub open spec fn backup_not_found_message(name: Seq<char>) -> Seq<char> {
    "Backup '"@ + name + "' not found"@
}

/// Succeeds when the backup `backup_name` exists (`exists`), and otherwise
/// gives the message that it was not found; checked before a backup is
/// deleted or its notes are written.
pub fn require_existing_backup(backup_name: &str, exists: bool) -> (r: Result<(), String>)
    ensures
        r is Ok <==> exists,
        r matches Err(m) ==> m@ == backup_not_found_message(backup_name@),
{
    if exists {
        Ok(())
    } else {
        Err(concat3("Backup '", backup_name, "' not found"))
    }
}

/// The index of the most recent backup of `save_name` in `backups`, a listing
/// ordered newest first: the first folder whose name begins with
/// `<save_name>__TS__`.
pub fn find_latest_backup(backups: &Vec<SaveFolder>, save_name: &str) -> (r: Option<usize>)
    ensures
        match r {
            Some(i) => first_with_prefix(backups@, save_name@ + naming::separator(), 0) == Some(
                i as int,
            ),
            None => first_with_prefix(backups@, save_name@ + naming::separator(), 0) is None,
        },
        r matches Some(i) ==> i < backups@.len(),
{
    let prefix = backup_prefix(save_name);
    let mut i: usize = 0;
    while i < backups.len()
        invariant
            i <= backups@.len(),
            prefix@ == save_name@ + naming::separator(),
            first_with_prefix(backups@, prefix@, 0) == first_with_prefix(backups@, prefix@, i as int),
        decreases backups.len() - i,
    {
        if str_starts_with(backups[i].name.as_str(), prefix.as_str()) {
            return Some(i);
        }
        i = i + 1;
    }
    None
}

} // verus!

verus! {

/// What `first_with_prefix` finds, from `i` on: the first folder whose name
/// begins with `prefix`, or nothing when no folder from `i` on has such a
/// name.
pub proof fn lemma_first_with_prefix_found(s: Seq<SaveFolder>, prefix: Seq<char>, i: int)
    requires
        0 <= i,
    ensures
        match first_with_prefix(s, prefix, i) {
            Some(k) => i <= k < s.len() && text::starts_with(s[k].name@, prefix) && forall|j: int|
                i <= j < k ==> !text::starts_with(#[trigger] s[j].name@, prefix),
            None => forall|j: int|
                i <= j < s.len() ==> !text::starts_with(#[trigger] s[j].name@, prefix),
        },
    decreases s.len() - i,
{
    if i < s.len() && !text::starts_with(s[i].name@, prefix) {
        lemma_first_with_prefix_found(s, prefix, i + 1);
    }
}

/// In a newest-first listing, the backup that `find_latest_backup` picks is a
/// backup of the save, and no other backup of that save is newer.
pub proof fn lemma_latest_backup_is_newest(backups: Seq<SaveFolder>, save: Seq<char>)
    requires
        is_newest_first(backups),
    ensures
        match first_with_prefix(backups, save + naming::separator(), 0) {
            Some(i) => text::starts_with(backups[i].name@, save + naming::separator()) && forall|
                j: int,
            |
                0 <= j < backups.len() && text::starts_with(
                    #[trigger] backups[j].name@,
                    save + naming::separator(),
                ) ==> backups[i].last_modified >= backups[j].last_modified,
            None => forall|j: int|
                0 <= j < backups.len() ==> !text::starts_with(
                    #[trigger] backups[j].name@,
                    save + naming::separator(),
                ),
        },
{
    lemma_first_with_prefix_found(backups, save + naming::separator(), 0);
}

} // verus!
