//! Directory entries and the raw items a directory read produces.

use vstd::prelude::*;
use vstd::string::*;

verus! {

/// Whether a directory entry is a plain file or a directory.
#[derive(Clone, Copy, Debug, PartialEq, Eq, Structural)]
pub enum EntryKind {
    File,
    Directory,
}

impl EntryKind {
    /// The kind that the answer to "is it a directory?" stands for.
    pub open spec fn of(is_dir: bool) -> EntryKind {
        if is_dir {
            EntryKind::Directory
        } else {
            EntryKind::File
        }
    }

    /// Classifies an entry from the answer to "is it a directory?".
    pub fn classify(is_dir: bool) -> (kind: EntryKind)
        ensures
            kind == EntryKind::of(is_dir),
    {
        if is_dir {
            EntryKind::Directory
        } else {
            EntryKind::File
        }
    }
}

/// Every entry kind is exactly one of file and directory.
pub proof fn lemma_kind_is_file_or_directory(kind: EntryKind)
    ensures
        (kind is File) != (kind is Directory),
        forall|is_dir: bool| (EntryKind::of(is_dir) is Directory) == is_dir,
        forall|is_dir: bool| (EntryKind::of(is_dir) is File) == !is_dir,
{
}

/// One name within a single directory level.
#[derive(Debug, PartialEq, Eq)]
pub struct Entry {
    pub name: String,
    pub kind: EntryKind,
}

/// The mathematical value of an [`Entry`].
pub struct EntryModel {
    pub name: Seq<char>,
    pub kind: EntryKind,
}

impl EntryModel {
    /// The text shown for the entry: a directory carries a trailing slash.
    pub open spec fn label(self) -> Seq<char> {
        if self.kind is Directory {
            self.name.push('/')
        } else {
            self.name
        }
    }
}

impl View for Entry {
    type V = EntryModel;

    open spec fn view(&self) -> EntryModel {
        EntryModel { name: self.name@, kind: self.kind }
    }
}

impl Clone for Entry {
    fn clone(&self) -> (copy: Self)
        ensures
            copy@ == self@,
    {
        Entry { name: self.name.clone(), kind: self.kind }
    }
}

impl Entry {
    /// The entry called `name` of the given kind.
    pub fn new(name: String, kind: EntryKind) -> (entry: Entry)
        ensures
            entry@ == (EntryModel { name: name@, kind }),
    {
        Entry { name, kind }
    }

    /// Whether the entry is a directory.
    pub fn is_directory(&self) -> (yes: bool)
        ensures
            yes == (self@.kind is Directory),
    {
        match self.kind {
            EntryKind::Directory => true,
            EntryKind::File => false,
        }
    }

    /// The text shown for the entry: a directory carries a trailing slash.
    pub fn label(&self) -> (text: String)
        ensures
            text@ == self@.label(),
    {
        let mut text = self.name.clone();
        if self.is_directory() {
            proof {
                reveal_strlit("/");
            }
            text.append("/");
            assert(text@ =~= self.name@.push('/'));
        }
        text
    }
}

/// The values of a sequence of entries.
pub open spec fn entries_view(entries: Seq<Entry>) -> Seq<EntryModel> {
    entries.map_values(|entry: Entry| entry@)
}

/// What enumerating a directory yields for one slot: an entry that was
/// read, or a slot whose read failed.
#[derive(Debug, PartialEq, Eq)]
pub enum DirItem {
    Found { name: String, is_dir: bool },
    Unreadable,
}

/// The mathematical value of a [`DirItem`].
pub enum DirItemModel {
    Found { name: Seq<char>, is_dir: bool },
    Unreadable,
}

impl View for DirItem {
    type V = DirItemModel;

    open spec fn view(&self) -> DirItemModel {
        match self {
            DirItem::Found { name, is_dir } => DirItemModel::Found { name: name@, is_dir: *is_dir },
            DirItem::Unreadable => DirItemModel::Unreadable,
        }
    }
}

/// The values of a sequence of raw items.
pub open spec fn items_view(items: Seq<DirItem>) -> Seq<DirItemModel> {
    items.map_values(|item: DirItem| item@)
}

/// Why a filesystem operation failed.
#[derive(Clone, Copy, Debug, PartialEq, Eq, Structural)]
pub enum IoError {
    NotFound,
    PermissionDenied,
    AlreadyExists,
    Other,
}

} // verus!
