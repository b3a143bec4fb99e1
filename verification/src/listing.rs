//! The directory listing of the file browser: which entries it shows, and in
//! what order.

use crate::text::{
    comes_before, lemma_text_before_asymmetric, lemma_text_before_chain, lowercase, same_text,
    text_before, to_lowercase,
};
use std::path::PathBuf;
use vstd::prelude::*;
use vstd::string::StringExecFns;

verus! {

/// `std::path::PathBuf`, an owned path; the library hands paths through and
/// never looks inside one.
#[verifier::external_type_specification]
#[verifier::external_body]
pub struct ExPathBuf(PathBuf);

/// `Clone::clone` of `std::path::PathBuf`: the copy is the same path.
pub assume_specification[ <PathBuf as Clone>::clone ](path: &PathBuf) -> (copy: PathBuf)
    ensures
        copy == *path,
;

/// An entry of the directory listing.
#[derive(Debug, Clone, PartialEq, Eq)]
pub struct FileEntry {
    /// The name shown.
    pub name: String,
    /// The full path.
    pub path: PathBuf,
    /// Whether the entry is a directory.
    pub is_dir: bool,
}

impl View for FileEntry {
    type V = (Seq<char>, PathBuf, bool);

    open spec fn view(&self) -> (Seq<char>, PathBuf, bool) {
        (self.name@, self.path, self.is_dir)
    }
}

/// A directory listing as triples of name, path and kind.
pub open spec fn entries_view(entries: Seq<FileEntry>) -> Seq<EntryView> {
    Seq::new(entries.len(), |i: int| entries[i]@)
}

/// An entry as the triple of its name, its path and its kind.
pub type EntryView = (Seq<char>, PathBuf, bool);

/// The test for the entries of one kind that a listing shows: directories
/// where `dirs` is set, files where it is not, and never `.` or `..`.
pub open spec fn listed(dirs: bool) -> spec_fn(EntryView) -> bool {
    |entry: EntryView| entry.2 == dirs && entry.0 != "."@ && entry.0 != ".."@
}

/// The order of a listing: `a` comes before `b` where the lowercase name of
/// `a` comes before that of `b`, character by character.
pub open spec fn entry_before(a: EntryView, b: EntryView) -> bool {
    text_before(lowercase(a.0), lowercase(b.0))
}

/// A list in order with one more entry put in its place: behind every entry
/// that it does not come before.
pub open spec fn inserted(sorted: Seq<EntryView>, entry: EntryView) -> Seq<EntryView>
    decreases sorted.len(),
{
    if sorted.len() == 0 {
        seq![entry]
    } else if entry_before(entry, sorted.last()) {
        inserted(sorted.drop_last(), entry).push(sorted.last())
    } else {
        sorted.push(entry)
    }
}

/// The entries ordered by lowercase name; entries whose names are equal but
/// for case keep the order in which they were given.
pub open spec fn sorted_by_name(entries: Seq<EntryView>) -> Seq<EntryView>
    decreases entries.len(),
{
    if entries.len() == 0 {
        Seq::empty()
    } else {
        inserted(sorted_by_name(entries.drop_last()), entries.last())
    }
}

/// The listing that the file browser shows: the way up first, where there is
/// one, then the directories, then the files, each kind ordered by name.
pub open spec fn listing(parent: Option<PathBuf>, entries: Seq<EntryView>) -> Seq<EntryView> {
    let up = match parent {
        Some(path) => seq![(".."@, path, true)],
        None => Seq::empty(),
    };
    up + sorted_by_name(entries.filter(listed(true))) + sorted_by_name(
        entries.filter(listed(false)),
    )
}

/// An entry that comes before everything from `at` on, and before nothing in
/// front of `at`, is put at `at`.
pub proof fn lemma_inserted_at(sorted: Seq<EntryView>, entry: EntryView, at: int)
    requires
        0 <= at <= sorted.len(),
        forall|k: int| at <= k < sorted.len() ==> entry_before(entry, #[trigger] sorted[k]),
        at > 0 ==> !entry_before(entry, sorted[at - 1]),
    ensures
        inserted(sorted, entry) == sorted.insert(at, entry),
    decreases sorted.len(),
{
    if sorted.len() == 0 {
        assert(sorted.insert(at, entry) =~= seq![entry]);
    } else if at == sorted.len() {
        assert(sorted.insert(at, entry) =~= sorted.push(entry));
    } else {
        assert(entry_before(entry, sorted[sorted.len() - 1]));
        lemma_inserted_at(sorted.drop_last(), entry, at);
        assert(sorted.drop_last().insert(at, entry).push(sorted.last()) =~= sorted.insert(
            at,
            entry,
        ));
    }
}

/// A copy of an entry.
fn copy_entry(entry: &FileEntry) -> (copy: FileEntry)
    ensures
        copy@ == entry@,
{
    FileEntry { name: entry.name.clone(), path: entry.path.clone(), is_dir: entry.is_dir }
}

/// Copies of the entries of `entries` that are of the kind asked for and are
/// neither `.` nor `..`, in the order given.
fn entries_of_kind(entries: &Vec<FileEntry>, dirs: bool) -> (shown: Vec<FileEntry>)
    ensures
        entries_view(shown@) == entries_view(entries@).filter(listed(dirs)),
{
    let ghost all = entries_view(entries@);
    let mut shown: Vec<FileEntry> = Vec::new();
    let mut i: usize = 0;
    proof {
        reveal(Seq::filter);
        assert(entries_view(shown@) =~= all.take(0).filter(listed(dirs)));
    }
    while i < entries.len()
        invariant
            i <= entries@.len(),
            all == entries_view(entries@),
            entries_view(shown@) == all.take(i as int).filter(listed(dirs)),
        decreases entries@.len() - i,
    {
        let entry = &entries[i];
        let dot = same_text(entry.name.as_str(), ".");
        let dots = same_text(entry.name.as_str(), "..");
        let show = entry.is_dir == dirs && !dot && !dots;
        proof {
            let before = all.take(i as int);
            assert(all.take(i + 1) =~= before.push(entry@));
            before.lemma_filter_push(entry@, listed(dirs));
            assert(show == listed(dirs)(entry@));
        }
        let ghost sofar = entries_view(shown@);
        if show {
            shown.push(copy_entry(entry));
            assert(entries_view(shown@) =~= sofar.push(entry@));
        }
        i += 1;
    }
    assert(all.take(entries@.len() as int) =~= all);
    shown
}

/// Tells whether `entry` comes before `other` in a listing.
fn entry_comes_before(entry: &FileEntry, other: &FileEntry) -> (before: bool)
    ensures
        before == entry_before(entry@, other@),
{
    let key = to_lowercase(entry.name.as_str());
    let other_key = to_lowercase(other.name.as_str());
    comes_before(key.as_str(), other_key.as_str())
}

/// Orders entries by lowercase name; entries whose names are equal but for
/// case keep their order.
pub fn sort_entries(entries: &Vec<FileEntry>) -> (sorted: Vec<FileEntry>)
    ensures
        entries_view(sorted@) == sorted_by_name(entries_view(entries@)),
{
    let ghost all = entries_view(entries@);
    let mut sorted: Vec<FileEntry> = Vec::new();
    let mut i: usize = 0;
    assert(entries_view(sorted@) =~= sorted_by_name(all.take(0)));
    while i < entries.len()
        invariant
            i <= entries@.len(),
            all == entries_view(entries@),
            sorted@.len() == i,
            entries_view(sorted@) == sorted_by_name(all.take(i as int)),
        decreases entries@.len() - i,
    {
        let entry = &entries[i];
        let ghost before = entries_view(sorted@);
        let mut at: usize = sorted.len();
        let mut searching = true;
        while searching && at > 0
            invariant
                at <= sorted@.len(),
                before == entries_view(sorted@),
                forall|k: int| at <= k < before.len() ==> entry_before(entry@, #[trigger] before[k]),
                !searching ==> at > 0 && !entry_before(entry@, before[at - 1]),
            decreases at + (if searching { 1int } else { 0int }),
        {
            if entry_comes_before(entry, &sorted[at - 1]) {
                at -= 1;
            } else {
                searching = false;
            }
        }
        sorted.insert(at, copy_entry(entry));
        proof {
            lemma_inserted_at(before, entry@, at as int);
            assert(entries_view(sorted@) =~= before.insert(at as int, entry@));
            assert(all.take(i + 1).drop_last() =~= all.take(i as int));
            assert(all.take(i + 1).last() == entry@);
        }
        i += 1;
    }
    assert(all.take(entries@.len() as int) =~= all);
    sorted
}

/// Lays out a directory listing: `parent` is the path of the directory above,
/// if there is one, and `entries` what the directory holds, in any order.
pub fn arrange_listing(parent: Option<PathBuf>, entries: &Vec<FileEntry>) -> (shown: Vec<FileEntry>)
    ensures
        entries_view(shown@) == listing(parent, entries_view(entries@)),
{
    let mut shown: Vec<FileEntry> = Vec::new();
    if let Some(path) = parent {
        shown.push(FileEntry { name: String::from_str(".."), path, is_dir: true });
    }
    let ghost up = entries_view(shown@);
    assert(up =~= match parent {
        Some(path) => seq![(".."@, path, true)],
        None => Seq::empty(),
    });
    let dirs = sort_entries(&entries_of_kind(entries, true));
    let files = sort_entries(&entries_of_kind(entries, false));
    append_entries(&mut shown, &dirs);
    append_entries(&mut shown, &files);
    shown
}

/// Appends copies of `more` to `shown`.
fn append_entries(shown: &mut Vec<FileEntry>, more: &Vec<FileEntry>)
    ensures
        entries_view(final(shown)@) == entries_view(old(shown)@) + entries_view(more@),
{
    let ghost start = entries_view(shown@);
    let mut i: usize = 0;
    assert(entries_view(shown@) =~= start + entries_view(more@).take(0));
    while i < more.len()
        invariant
            i <= more@.len(),
            entries_view(shown@) == start + entries_view(more@).take(i as int),
        decreases more@.len() - i,
    {
        let ghost sofar = entries_view(shown@);
        shown.push(copy_entry(&more[i]));
        assert(entries_view(shown@) =~= sofar.push(more@[i as int]@));
        assert(entries_view(more@).take(i + 1) =~= entries_view(more@).take(i as int).push(
            more@[i as int]@,
        ));
        i += 1;
    }
    assert(entries_view(more@).take(more@.len() as int) =~= entries_view(more@));
}

/// No entry of the list comes before an entry in front of it.
pub open spec fn in_order(entries: Seq<EntryView>) -> bool {
    forall|i: int, j: int|
        0 <= i < j < entries.len() ==> !entry_before(#[trigger] entries[j], #[trigger] entries[i])
}

/// Putting an entry in its place keeps a list in order, and adds that entry
/// and nothing else.
pub proof fn lemma_inserted_keeps_order(sorted: Seq<EntryView>, entry: EntryView)
    requires
        in_order(sorted),
    ensures
        in_order(inserted(sorted, entry)),
        inserted(sorted, entry).len() == sorted.len() + 1,
        inserted(sorted, entry).to_multiset() == sorted.to_multiset().insert(entry),
        forall|k: int|
            0 <= k < inserted(sorted, entry).len() ==> (#[trigger] inserted(sorted, entry)[k])
                == entry || sorted.contains(inserted(sorted, entry)[k]),
    decreases sorted.len(),
{
    broadcast use {vstd::seq_lib::to_multiset_build, vstd::multiset::group_multiset_axioms};

    let out = inserted(sorted, entry);
    if sorted.len() == 0 {
        assert(out =~= sorted.push(entry));
    } else if entry_before(entry, sorted.last()) {
        let rest = sorted.drop_last();
        let last = sorted.last();
        assert(in_order(rest)) by {
            assert forall|i: int, j: int| 0 <= i < j < rest.len() implies !entry_before(
                #[trigger] rest[j],
                #[trigger] rest[i],
            ) by {
                assert(!entry_before(sorted[j], sorted[i]));
            }
        }
        lemma_inserted_keeps_order(rest, entry);
        let inner = inserted(rest, entry);
        assert(rest.push(last) =~= sorted);
        assert(out.to_multiset() =~= sorted.to_multiset().insert(entry));
        assert forall|k: int| 0 <= k < out.len() implies (#[trigger] out[k]) == entry
            || sorted.contains(out[k]) by {
            if k < inner.len() {
                if inner[k] != entry {
                    assert(rest.contains(inner[k]));
                    let m = choose|m: int| 0 <= m < rest.len() && rest[m] == inner[k];
                    assert(sorted[m] == out[k]);
                }
            } else {
                assert(sorted[sorted.len() - 1] == out[k]);
            }
        }
        assert forall|i: int, j: int| 0 <= i < j < out.len() implies !entry_before(
            #[trigger] out[j],
            #[trigger] out[i],
        ) by {
            if j < inner.len() {
                assert(!entry_before(inner[j], inner[i]));
            } else if inner[i] == entry {
                lemma_text_before_asymmetric(lowercase(entry.0), lowercase(last.0));
            } else {
                assert(rest.contains(inner[i]));
                let m = choose|m: int| 0 <= m < rest.len() && rest[m] == inner[i];
                assert(!entry_before(sorted[sorted.len() - 1], sorted[m]));
            }
        }
    } else {
        assert forall|i: int, j: int| 0 <= i < j < out.len() implies !entry_before(
            #[trigger] out[j],
            #[trigger] out[i],
        ) by {
            if j < sorted.len() {
                assert(!entry_before(sorted[j], sorted[i]));
            } else if entry_before(entry, sorted[i]) {
                assert(!entry_before(sorted[sorted.len() - 1], sorted[i]));
                lemma_text_before_chain(
                    lowercase(entry.0),
                    lowercase(sorted[i].0),
                    lowercase(sorted.last().0),
                );
            }
        }
        assert forall|k: int| 0 <= k < out.len() implies (#[trigger] out[k]) == entry
            || sorted.contains(out[k]) by {
            if k < sorted.len() {
                assert(sorted[k] == out[k]);
            }
        }
    }
}

/// Ordering a listing gives the same entries, each as often as before, and
/// in order: no entry comes before one in front of it.
pub proof fn law_sorted_by_name(entries: Seq<EntryView>)
    ensures
        in_order(sorted_by_name(entries)),
        sorted_by_name(entries).len() == entries.len(),
        sorted_by_name(entries).to_multiset() == entries.to_multiset(),
    decreases entries.len(),
{
    broadcast use {vstd::seq_lib::to_multiset_build, vstd::multiset::group_multiset_axioms};

    if entries.len() == 0 {
        assert(sorted_by_name(entries) =~= entries);
    } else {
        let rest = entries.drop_last();
        law_sorted_by_name(rest);
        lemma_inserted_keeps_order(sorted_by_name(rest), entries.last());
        assert(rest.push(entries.last()) =~= entries);
    }
}

} // verus!
