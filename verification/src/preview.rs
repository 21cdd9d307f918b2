//! Choosing the preview image of a save folder: the first `.webp` file in the
//! folder, or else, for a backup (whose save lies one folder deeper), the
//! first `.webp` file in one of its subfolders.

use vstd::prelude::*;

use crate::text::chars_of;

verus! {

/// The position of the last `.` in `name`, if any.
pub open spec fn last_dot(name: Seq<char>) -> Option<int>
    decreases name.len(),
{
    if name.len() == 0 {
        None
    } else if name.last() == '.' {
        Some(name.len() - 1)
    } else {
        last_dot(name.drop_last())
    }
}

/// The extension of a file name, as `Path::extension` gives it: the text after
/// the final `.`; none when there is no `.`, when the only `.` begins the
/// name, or for the name `..`.
pub open spec fn extension(name: Seq<char>) -> Option<Seq<char>> {
    if name == seq!['.', '.'] {
        None
    } else {
        match last_dot(name) {
            Some(i) => if i == 0 {
                None
            } else {
                Some(name.subrange(i + 1, name.len() as int))
            },
            None => None,
        }
    }
}

/// A character in ASCII lower case (other characters unchanged).
pub open spec fn ascii_lower(c: char) -> char {
    if 'A' <= c && c <= 'Z' {
        (((c as u32) + 32) as u8) as char
    } else {
        c
    }
}

/// Whether `a` equals `b` when ASCII letters are compared without regard to
/// case (`str::eq_ignore_ascii_case` for an ASCII `b`).
pub open spec fn eq_ignore_ascii_case(a: Seq<char>, b: Seq<char>) -> bool {
    a.len() == b.len() && forall|i: int| 0 <= i < a.len() ==> ascii_lower(a[i]) == ascii_lower(b[i])
}

/// Whether a file name has the extension `webp`, in any case.
pub open spec fn is_webp(name: Seq<char>) -> bool {
    match extension(name) {
        Some(e) => eq_ignore_ascii_case(e, seq!['w', 'e', 'b', 'p']),
        None => false,
    }
}

/// A subfolder entry of a save folder and, when it is a readable folder, the
/// names of the entries inside it.
pub struct ListedEntry {
    pub name: String,
    pub children: Option<Vec<String>>,
}

/// Which file is the preview.
#[derive(Debug, PartialEq, Eq)]
pub enum PreviewPick {
    /// The entry at this index of the folder.
    Direct(usize),
    /// The child at the second index inside the entry at the first index.
    Nested(usize, usize),
}

/// The index of the first `.webp` name in `names`, from `i` on.
pub open spec fn first_webp(names: Seq<String>, i: int) -> Option<int>
    decreases names.len() - i,
{
    if i < 0 || i >= names.len() {
        None
    } else if is_webp(names[i]@) {
        Some(i)
    } else {
        first_webp(names, i + 1)
    }
}

/// The names of a folder's entries.
pub open spec fn entry_names(entries: Seq<ListedEntry>) -> Seq<String> {
    entries.map_values(|e: ListedEntry| e.name)
}

/// The first entry, from `i` on, that is a folder holding a `.webp` file,
/// with the index of that file.
pub open spec fn first_nested_webp(entries: Seq<ListedEntry>, i: int) -> Option<(int, int)>
    decreases entries.len() - i,
{
    if i < 0 || i >= entries.len() {
        None
    } else {
        match entries[i].children {
            Some(children) => match first_webp(children@, 0) {
                Some(j) => Some((i, j)),
                None => first_nested_webp(entries, i + 1),
            },
            None => first_nested_webp(entries, i + 1),
        }
    }
}

/// The preview of a folder with these entries, as `pick_preview` chooses it.
pub open spec fn spec_pick_preview(entries: Seq<ListedEntry>) -> Option<PreviewPick> {
    match first_webp(entry_names(entries), 0) {
        Some(i) => Some(PreviewPick::Direct(i as usize)),
        None => match first_nested_webp(entries, 0) {
            Some((i, j)) => Some(PreviewPick::Nested(i as usize, j as usize)),
            None => None,
        },
    }
}

/// Whether a file name has the extension `webp`, in any case.
pub fn is_webp_file_name(name: &str) -> (r: bool)
    ensures
        r == is_webp(name@),
{
    let cs = chars_of(name);
    let n = cs.len();
    if n == 2 && cs[0] == '.' && cs[1] == '.' {
        assert(cs@ =~= seq!['.', '.']);
        return false;
    }
    assert(n == 2 ==> !(cs@ =~= seq!['.', '.']));
    // Find the last dot.
    let mut i: usize = n;
    assert(cs@.subrange(0, n as int) == cs@);
    while i > 0 && cs[i - 1] != '.'
        invariant
            i <= n == cs@.len(),
            last_dot(cs@) == last_dot(cs@.subrange(0, i as int)),
        decreases i,
    {
        assert(cs@.subrange(0, i as int).drop_last() == cs@.subrange(0, i - 1));
        i = i - 1;
    }
    if i <= 1 {
        proof {
            if i == 0 {
                assert(cs@.subrange(0, 0) == Seq::<char>::empty());
            }
        }
        return false;
    }
    let dot = i - 1;
    assert(cs@.subrange(0, i as int).last() == '.');
    assert(last_dot(cs@) == Some(dot as int));
    if n - i != 4 {
        return false;
    }
    let a = lower(cs[i]);
    let b = lower(cs[i + 1]);
    let c = lower(cs[i + 2]);
    let d = lower(cs[i + 3]);
    let ghost ext = cs@.subrange(i as int, n as int);
    assert(ext[0] == cs@[i as int] && ext[1] == cs@[i + 1] && ext[2] == cs@[i + 2] && ext[3]
        == cs@[i + 3]);
    a == 'w' && b == 'e' && c == 'b' && d == 'p'
}

/// A character in ASCII lower case.
fn lower(c: char) -> (r: char)
    ensures
        r == ascii_lower(c),
{
    if 'A' <= c && c <= 'Z' {
        let code: u8 = (c as u32 + 32) as u8;
        code as char
    } else {
        c
    }
}

} // verus!

verus! {

/// The index of the first `.webp` name in `names`.
pub fn first_webp_name(names: &Vec<String>) -> (r: Option<usize>)
    ensures
        match r {
            Some(i) => first_webp(names@, 0) == Some(i as int),
            None => first_webp(names@, 0) is None,
        },
{
    let mut i: usize = 0;
    while i < names.len()
        invariant
            i <= names@.len(),
            first_webp(names@, 0) == first_webp(names@, i as int),
        decreases names.len() - i,
    {
        if is_webp_file_name(names[i].as_str()) {
            return Some(i);
        }
        i = i + 1;
    }
    None
}

/// The preview of a folder with these entries: the first `.webp` entry, or
/// else the first `.webp` file inside the first subfolder that holds one.
pub fn pick_preview(entries: &Vec<ListedEntry>) -> (r: Option<PreviewPick>)
    ensures
        r == spec_pick_preview(entries@),
{
    let mut i: usize = 0;
    while i < entries.len()
        invariant
            i <= entries@.len(),
            first_webp(entry_names(entries@), 0) == first_webp(entry_names(entries@), i as int),
        decreases entries.len() - i,
    {
        assert(entry_names(entries@)[i as int] == entries@[i as int].name);
        if is_webp_file_name(entries[i].name.as_str()) {
            return Some(PreviewPick::Direct(i));
        }
        i = i + 1;
    }
    let mut k: usize = 0;
    while k < entries.len()
        invariant
            k <= entries@.len(),
            first_webp(entry_names(entries@), 0) is None,
            first_nested_webp(entries@, 0) == first_nested_webp(entries@, k as int),
        decreases entries.len() - k,
    {
        match &entries[k].children {
            Some(children) => match first_webp_name(children) {
                Some(j) => {
                    return Some(PreviewPick::Nested(k, j));
                },
                None => {},
            },
            None => {},
        }
        k = k + 1;
    }
    None
}

} // verus!

verus! {

/// Whether some child of the entry `e` has a `.webp` name.
pub open spec fn holds_webp(e: ListedEntry) -> bool {
    match e.children {
        Some(children) => exists|j: int| 0 <= j < children@.len() && is_webp(#[trigger] children@[j]@),
        None => false,
    }
}

proof fn lemma_first_webp_found(names: Seq<String>, i: int)
    requires
        0 <= i,
    ensures
        match first_webp(names, i) {
            Some(k) => i <= k < names.len() && is_webp(names[k]@) && forall|j: int|
                i <= j < k ==> !is_webp(#[trigger] names[j]@),
            None => forall|j: int| i <= j < names.len() ==> !is_webp(#[trigger] names[j]@),
        },
    decreases names.len() - i,
{
    if i < names.len() && !is_webp(names[i]@) {
        lemma_first_webp_found(names, i + 1);
    }
}

proof fn lemma_first_nested_webp_found(entries: Seq<ListedEntry>, i: int)
    requires
        0 <= i,
    ensures
        match first_nested_webp(entries, i) {
            Some((k, j)) => i <= k < entries.len() && holds_webp(entries[k]) && (entries[k].children matches Some(c) && 0 <= j < c@.len() && is_webp(c@[j]@) && forall|l: int| 0 <= l < j ==> !is_webp(#[trigger] c@[l]@)) && forall|m: int| i <= m < k ==> !holds_webp(#[trigger] entries[m]),
            None => forall|m: int| i <= m < entries.len() ==> !holds_webp(#[trigger] entries[m]),
        },
    decreases entries.len() - i,
{
    if i < entries.len() {
        lemma_first_nested_webp_found(entries, i + 1);
        match entries[i].children {
            Some(children) => {
                lemma_first_webp_found(children@, 0);
            },
            None => {},
        }
    }
}

/// The preview chosen is the first `.webp` entry of the folder; when there is
/// none, it is the first `.webp` child of the first entry (searching all
/// entries, from the first) that holds one; and there is no preview only when
/// neither any entry nor any child of an entry has a `.webp` name.
pub proof fn lemma_pick_preview_finds_first_webp(entries: Seq<ListedEntry>)
    requires
        entries.len() <= usize::MAX,
    ensures
        match spec_pick_preview(entries) {
            Some(PreviewPick::Direct(i)) => 0 <= i < entries.len() && is_webp(entries[i as int].name@)
                && forall|k: int| 0 <= k < i ==> !is_webp(#[trigger] entries[k].name@),
            Some(PreviewPick::Nested(i, j)) => {
                &&& forall|k: int| 0 <= k < entries.len() ==> !is_webp(#[trigger] entries[k].name@)
                &&& 0 <= i < entries.len()
                &&& entries[i as int].children matches Some(c) && j < c@.len() && is_webp(c@[j as int]@)
                    && forall|l: int| 0 <= l < j ==> !is_webp(#[trigger] c@[l]@)
                &&& forall|m: int| 0 <= m < i ==> !holds_webp(#[trigger] entries[m])
            },
            None => (forall|k: int| 0 <= k < entries.len() ==> !is_webp(#[trigger] entries[k].name@))
                && forall|m: int| 0 <= m < entries.len() ==> !holds_webp(#[trigger] entries[m]),
        },
{
    let names = entry_names(entries);
    lemma_first_webp_found(names, 0);
    lemma_first_nested_webp_found(entries, 0);
    assert forall|k: int| 0 <= k < entries.len() implies names[k] == #[trigger] entries[k].name by {}
    match first_webp(names, 0) {
        Some(i) => {
            assert(spec_pick_preview(entries) == Some(PreviewPick::Direct(i as usize)));
            assert forall|k: int| 0 <= k < i implies !is_webp(#[trigger] entries[k].name@) by {
                assert(names[k] == entries[k].name);
            }
        },
        None => {
            assert forall|k: int| 0 <= k < entries.len() implies !is_webp(#[trigger] entries[k].name@) by {
                assert(names[k] == entries[k].name);
            }
            match first_nested_webp(entries, 0) {
                Some((i, j)) => {
                    let c = entries[i].children->Some_0;
                    assert(j < c@.len());
                    assert(c.len() == c@.len());
                },
                None => {},
            }
        },
    }
}

} // verus!

verus! {

proof fn lemma_last_dot_found(name: Seq<char>)
    ensures
        match last_dot(name) {
            Some(i) => 0 <= i < name.len() && name[i] == '.' && forall|k: int|
                i < k < name.len() ==> name[k] != '.',
            None => forall|k: int| 0 <= k < name.len() ==> name[k] != '.',
        },
    decreases name.len(),
{
    if name.len() > 0 && name.last() != '.' {
        let p = name.drop_last();
        lemma_last_dot_found(p);
        assert forall|k: int| 0 <= k < p.len() implies p[k] == name[k] by {}
        assert(name[name.len() - 1] != '.');
    }
}

/// A file name counts as a `.webp` file exactly when it is at least six
/// characters long and ends in a dot followed by `webp` in any mix of upper
/// and lower case (so `.webp` alone, a hidden file without extension, does
/// not count).
pub proof fn lemma_webp_names(name: Seq<char>)
    ensures
        is_webp(name) <==> (name.len() >= 6 && name[name.len() - 5] == '.' && eq_ignore_ascii_case(
            name.subrange(name.len() - 4, name.len() as int),
            seq!['w', 'e', 'b', 'p'],
        )),
{
    lemma_last_dot_found(name);
    let n = name.len() as int;
    let w = seq!['w', 'e', 'b', 'p'];
    if is_webp(name) {
        let i = last_dot(name)->Some_0;
        let e = name.subrange(i + 1, n);
        assert(e.len() == 4);
        assert(i == n - 5);
        assert(i != 0);
        assert(name != seq!['.', '.']);
    }
    if n >= 6 && name[n - 5] == '.' && eq_ignore_ascii_case(name.subrange(n - 4, n), w) {
        // No dot among the last four characters: each lowers to a letter.
        assert forall|k: int| n - 5 < k < n implies name[k] != '.' by {
            assert(name.subrange(n - 4, n)[k - (n - 4)] == name[k]);
            assert(ascii_lower(name[k]) == ascii_lower(w[k - (n - 4)]));
            if name[k] == '.' {
                assert(ascii_lower('.') == '.');
                assert(w[k - (n - 4)] == 'w' || w[k - (n - 4)] == 'e' || w[k - (n - 4)] == 'b'
                    || w[k - (n - 4)] == 'p');
            }
        }
        assert(last_dot(name) == Some(n - 5)) by {
            match last_dot(name) {
                Some(j) => {
                    if j < n - 5 {
                        assert(name[n - 5] != '.');
                    }
                },
                None => {
                    assert(name[n - 5] != '.');
                },
            }
        }
        assert(name.len() != 2);
    }
}

} // verus!
