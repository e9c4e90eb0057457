//! The directory lister: from the raw items of one directory level to the
//! entry list, sorted by name.

use crate::entry::{
    entries_view, items_view, DirItem, DirItemModel, Entry, EntryKind, EntryModel, IoError,
};
use crate::text::{
    lemma_bytes_le_reflexive, lemma_bytes_le_total, lemma_bytes_le_transitive,
    lemma_name_le_antisymmetric, name_at_most, name_le,
};
use vstd::prelude::*;
use vstd::seq_lib::*;
use vstd::utf8::*;

verus! {

/// The entry that a raw item stands for: none for a slot whose read failed.
pub open spec fn classified(item: DirItemModel) -> Option<EntryModel> {
    match item {
        DirItemModel::Found { name, is_dir } => Some(
            EntryModel { name, kind: EntryKind::of(is_dir) },
        ),
        DirItemModel::Unreadable => None,
    }
}

/// The entries of the items that were read, in the order of the items.
pub open spec fn readable_entries(items: Seq<DirItemModel>) -> Seq<EntryModel>
    decreases items.len(),
{
    if items.len() == 0 {
        Seq::empty()
    } else {
        let rest = readable_entries(items.drop_last());
        match classified(items.last()) {
            Some(entry) => rest.push(entry),
            None => rest,
        }
    }
}

/// Ascending by name, in the ordinal order of names.
pub open spec fn sorted_by_name(entries: Seq<EntryModel>) -> bool {
    forall|i: int, j: int|
        #![trigger entries[i], entries[j]]
        0 <= i <= j < entries.len() ==> name_le(entries[i].name, entries[j].name)
}

/// No name occurs twice.
pub open spec fn distinct_names(entries: Seq<EntryModel>) -> bool {
    forall|i: int, j: int|
        #![trigger entries[i], entries[j]]
        0 <= i < j < entries.len() ==> entries[i].name != entries[j].name
}

/// Each name is strictly below the names after it.
pub open spec fn strictly_ascending(entries: Seq<EntryModel>) -> bool {
    forall|i: int, j: int|
        #![trigger entries[i], entries[j]]
        0 <= i < j < entries.len() ==> name_le(entries[i].name, entries[j].name) && !name_le(
            entries[j].name,
            entries[i].name,
        )
}

/// What a listing is: the readable items, each classified, rearranged into
/// ascending order of name.
pub open spec fn is_listing_of(entries: Seq<EntryModel>, items: Seq<DirItemModel>) -> bool {
    &&& sorted_by_name(entries)
    &&& entries.to_multiset() == readable_entries(items).to_multiset()
}

/// A listing holds exactly the entries that were read: nothing is lost and
/// nothing is made up, and every entry is a file or a directory according to
/// the item it came from.
pub proof fn lemma_listing_holds_the_readable_items(
    entries: Seq<EntryModel>,
    items: Seq<DirItemModel>,
)
    requires
        is_listing_of(entries, items),
    ensures
        entries.len() == readable_entries(items).len(),
        forall|entry: EntryModel|
            entries.contains(entry) <==> readable_entries(items).contains(entry),
{
    broadcast use group_to_multiset_ensures;

    let readable = readable_entries(items);
    assert(entries.to_multiset().len() == readable.to_multiset().len());
    assert forall|entry: EntryModel| entries.contains(entry) <==> readable.contains(entry) by {
        assert(entries.to_multiset().count(entry) == readable.to_multiset().count(entry));
    }
}

/// The listing of a directory, whose items carry pairwise different names, is
/// sorted ascending by name and holds no name twice.
pub proof fn lemma_listing_sorted_without_duplicates(
    entries: Seq<EntryModel>,
    items: Seq<DirItemModel>,
)
    requires
        is_listing_of(entries, items),
        distinct_names(readable_entries(items)),
    ensures
        sorted_by_name(entries),
        distinct_names(entries),
        strictly_ascending(entries),
{
    broadcast use group_to_multiset_ensures;

    let readable = readable_entries(items);
    assert(readable.no_duplicates()) by {
        assert forall|i: int, j: int|
            0 <= i < readable.len() && 0 <= j < readable.len() && i != j implies readable[i]
            != readable[j] by {
            if i < j {
                assert(readable[i].name != readable[j].name);
            } else {
                assert(readable[j].name != readable[i].name);
            }
        }
    }
    readable.lemma_multiset_has_no_duplicates();
    entries.lemma_multiset_has_no_duplicates_conv();
    assert forall|i: int, j: int| 0 <= i < j < entries.len() implies entries[i].name
        != entries[j].name by {
        assert(entries[i] != entries[j]);
        assert(entries.contains(entries[i]));
        assert(entries.contains(entries[j]));
        assert(entries.to_multiset().count(entries[i]) > 0);
        assert(entries.to_multiset().count(entries[j]) > 0);
        assert(readable.contains(entries[i]));
        assert(readable.contains(entries[j]));
        let a = choose|a: int| 0 <= a < readable.len() && readable[a] == entries[i];
        let b = choose|b: int| 0 <= b < readable.len() && readable[b] == entries[j];
        if a < b {
            assert(readable[a].name != readable[b].name);
        } else {
            assert(readable[b].name != readable[a].name);
        }
    }
    assert forall|i: int, j: int| 0 <= i < j < entries.len() implies name_le(
        entries[i].name,
        entries[j].name,
    ) && !name_le(entries[j].name, entries[i].name) by {
        if name_le(entries[j].name, entries[i].name) {
            lemma_name_le_antisymmetric(entries[i].name, entries[j].name);
        }
    }
}

/// Puts `entry` into a sorted list at the end of the run of names that are
/// at most its own.
fn insert_sorted(entries: &mut Vec<Entry>, entry: Entry)
    requires
        sorted_by_name(entries_view(old(entries)@)),
    ensures
        sorted_by_name(entries_view(final(entries)@)),
        entries_view(final(entries)@).to_multiset() == entries_view(
            old(entries)@,
        ).to_multiset().insert(entry@),
{
    let ghost before = entries_view(entries@);
    let mut at: usize = 0;
    while at < entries.len() && name_at_most(entries[at].name.as_str(), entry.name.as_str())
        invariant
            at <= entries@.len(),
            entries_view(entries@) == before,
            forall|k: int| 0 <= k < at ==> name_le((#[trigger] before[k]).name, entry@.name),
        decreases entries@.len() - at,
    {
        at = at + 1;
    }
    proof {
        assert forall|k: int| at <= k < before.len() implies name_le(
            entry@.name,
            (#[trigger] before[k]).name,
        ) by {
            let first = before[at as int];
            assert(!name_le(first.name, entry@.name));
            lemma_bytes_le_total(encode_utf8(first.name), encode_utf8(entry@.name));
            assert(name_le(first.name, before[k].name));
            lemma_bytes_le_transitive(
                encode_utf8(entry@.name),
                encode_utf8(first.name),
                encode_utf8(before[k].name),
            );
        }
    }
    entries.insert(at, entry);
    proof {
        let after = entries_view(entries@);
        assert(after =~= before.insert(at as int, entry@));
        to_multiset_insert(before, at as int, entry@);
        assert forall|i: int, j: int| 0 <= i <= j < after.len() implies name_le(
            after[i].name,
            after[j].name,
        ) by {
            if i == j {
                lemma_bytes_le_reflexive(encode_utf8(after[i].name));
            } else if i < at && j < at {
                assert(name_le(before[i].name, before[j].name));
            } else if i < at && j == at {
            } else if i < at {
                assert(name_le(before[i].name, before[j - 1].name));
            } else if i == at {
                assert(after[j] == before[j - 1]);
            } else {
                assert(name_le(before[i - 1].name, before[j - 1].name));
            }
        }
    }
}

/// Builds the listing of one directory level from its raw items: slots whose
/// read failed are skipped, every other item becomes an entry, and the
/// entries are put in ascending order of name.
pub fn list_directory(items: &Vec<DirItem>) -> (entries: Vec<Entry>)
    ensures
        is_listing_of(entries_view(entries@), items_view(items@)),
        entries@.len() == readable_entries(items_view(items@)).len(),
        distinct_names(readable_entries(items_view(items@))) ==> strictly_ascending(
            entries_view(entries@),
        ) && distinct_names(entries_view(entries@)),
{
    let mut entries: Vec<Entry> = Vec::new();
    let mut i: usize = 0;
    let ghost all = items_view(items@);
    proof {
        assert(all.take(0) =~= Seq::empty());
        assert(entries_view(entries@) =~= readable_entries(all.take(0)));
    }
    while i < items.len()
        invariant
            i <= items@.len(),
            all == items_view(items@),
            sorted_by_name(entries_view(entries@)),
            entries_view(entries@).to_multiset() == readable_entries(
                all.take(i as int),
            ).to_multiset(),
        decreases items@.len() - i,
    {
        proof {
            let next = all.take(i + 1);
            assert(next.drop_last() =~= all.take(i as int));
            assert(next.last() == items@[i as int]@);
        }
        match &items[i] {
            DirItem::Found { name, is_dir } => {
                let entry = Entry { name: name.clone(), kind: EntryKind::classify(*is_dir) };
                proof {
                    to_multiset_build(readable_entries(all.take(i as int)), entry@);
                }
                insert_sorted(&mut entries, entry);
            },
            DirItem::Unreadable => {},
        }
        i = i + 1;
    }
    proof {
        assert(all.take(i as int) =~= all);
        lemma_listing_holds_the_readable_items(entries_view(entries@), all);
        if distinct_names(readable_entries(all)) {
            lemma_listing_sorted_without_duplicates(entries_view(entries@), all);
        }
    }
    entries
}

/// The directory lister on the outcome of a directory read: the listing of
/// the items where the read succeeded, the read's own error where it failed.
pub fn list(read: &Result<Vec<DirItem>, IoError>) -> (listing: Result<Vec<Entry>, IoError>)
    ensures
        match (read, listing) {
            (Ok(items), Ok(entries)) => is_listing_of(
                entries_view(entries@),
                items_view(items@),
            ),
            (Err(failure), Err(reported)) => reported == failure,
            _ => false,
        },
{
    match read {
        Ok(items) => Ok(list_directory(items)),
        Err(failure) => Err(*failure),
    }
}

} // verus!
