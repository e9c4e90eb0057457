//! Browsing locations as plain data: an anchor followed by components.

use vstd::prelude::*;

verus! {

/// One component of a path after its anchor.
#[derive(Debug, PartialEq, Eq)]
pub enum PathPart {
    /// An ordinary file or directory name.
    Normal(String),
    /// The current directory, `.`.
    CurDir,
    /// The parent directory, `..`.
    ParentDir,
}

/// The mathematical value of a [`PathPart`].
pub enum PartModel {
    Normal(Seq<char>),
    CurDir,
    ParentDir,
}

impl View for PathPart {
    type V = PartModel;

    open spec fn view(&self) -> PartModel {
        match self {
            PathPart::Normal(name) => PartModel::Normal(name@),
            PathPart::CurDir => PartModel::CurDir,
            PathPart::ParentDir => PartModel::ParentDir,
        }
    }
}

impl Clone for PathPart {
    fn clone(&self) -> (copy: Self)
        ensures
            copy@ == self@,
    {
        match self {
            PathPart::Normal(name) => PathPart::Normal(name.clone()),
            PathPart::CurDir => PathPart::CurDir,
            PathPart::ParentDir => PathPart::ParentDir,
        }
    }
}

/// A browsing location: an anchor (empty for a relative path, otherwise the
/// root or drive prefix) followed by the components below it.
#[derive(Debug, PartialEq, Eq)]
pub struct DirectoryPath {
    pub anchor: String,
    pub parts: Vec<PathPart>,
}

/// The mathematical value of a [`DirectoryPath`].
#[verifier::ext_equal]
pub struct PathModel {
    pub anchor: Seq<char>,
    pub parts: Seq<PartModel>,
}

/// The values of a sequence of components.
pub open spec fn parts_view(parts: Seq<PathPart>) -> Seq<PartModel> {
    parts.map_values(|part: PathPart| part@)
}

impl View for DirectoryPath {
    type V = PathModel;

    open spec fn view(&self) -> PathModel {
        PathModel { anchor: self.anchor@, parts: parts_view(self.parts@) }
    }
}

/// The values of a sequence of paths.
pub open spec fn paths_view(paths: Seq<DirectoryPath>) -> Seq<PathModel> {
    paths.map_values(|path: DirectoryPath| path@)
}

impl PathModel {
    /// The path of the entry called `name` directly below this location.
    pub open spec fn child(self, name: Seq<char>) -> PathModel {
        PathModel { anchor: self.anchor, parts: self.parts.push(PartModel::Normal(name)) }
    }

    /// A location has a parent unless it is the bare anchor.
    pub open spec fn has_parent(self) -> bool {
        self.parts.len() > 0
    }

    /// The location one component up. Meaningful where `has_parent` holds.
    pub open spec fn parent(self) -> PathModel {
        PathModel { anchor: self.anchor, parts: self.parts.drop_last() }
    }

    /// The name of the entry the path leads to: its last component when
    /// that is an ordinary name.
    pub open spec fn file_name(self) -> Option<Seq<char>> {
        if self.parts.len() > 0 {
            match self.parts.last() {
                PartModel::Normal(name) => Some(name),
                _ => None,
            }
        } else {
            None
        }
    }

    /// The name a search tests: the file name, or the empty text for a path
    /// that has none.
    pub open spec fn search_name(self) -> Seq<char> {
        match self.file_name() {
            Some(name) => name,
            None => Seq::empty(),
        }
    }
}

impl Clone for DirectoryPath {
    fn clone(&self) -> (copy: Self)
        ensures
            copy@ == self@,
    {
        let mut parts: Vec<PathPart> = Vec::new();
        let mut i: usize = 0;
        while i < self.parts.len()
            invariant
                i <= self.parts@.len(),
                parts@.len() == i,
                forall|j: int| 0 <= j < i ==> (#[trigger] parts@[j])@ == self.parts@[j]@,
            decreases self.parts@.len() - i,
        {
            parts.push(self.parts[i].clone());
            i = i + 1;
        }
        assert(parts_view(parts@) =~= parts_view(self.parts@));
        DirectoryPath { anchor: self.anchor.clone(), parts }
    }
}

impl DirectoryPath {
    /// The bare anchor: the empty relative path when `anchor` is empty.
    pub fn new(anchor: String) -> (path: DirectoryPath)
        ensures
            path@ == (PathModel { anchor: anchor@, parts: Seq::empty() }),
    {
        DirectoryPath { anchor, parts: Vec::new() }
    }

    /// The path of the entry called `name` directly below this location.
    /// The name becomes one component, whatever characters it holds.
    pub fn join(&self, name: &str) -> (path: DirectoryPath)
        ensures
            path@ == self@.child(name@),
    {
        let mut path = self.clone();
        path.parts.push(PathPart::Normal(name.to_owned()));
        assert(parts_view(path.parts@) =~= parts_view(self.parts@).push(PartModel::Normal(name@)));
        path
    }

    /// Whether there is a location one component up.
    pub fn has_parent(&self) -> (yes: bool)
        ensures
            yes == self@.has_parent(),
    {
        self.parts.len() > 0
    }

    /// Drops the last component. Returns false, and changes nothing, where
    /// the path has no parent.
    pub fn pop(&mut self) -> (popped: bool)
        ensures
            popped == old(self)@.has_parent(),
            popped ==> final(self)@ == old(self)@.parent(),
            !popped ==> final(self)@ == old(self)@,
    {
        match self.parts.pop() {
            Some(_) => {
                assert(parts_view(self.parts@) =~= parts_view(old(self).parts@).drop_last());
                true
            },
            None => false,
        }
    }

    /// The location one component up, if there is one.
    pub fn parent(&self) -> (up: Option<DirectoryPath>)
        ensures
            up is Some == self@.has_parent(),
            up matches Some(path) ==> path@ == self@.parent(),
    {
        let mut path = self.clone();
        if path.pop() {
            Some(path)
        } else {
            None
        }
    }

    /// The name of the entry the path leads to, if its last component is an
    /// ordinary name.
    pub fn file_name(&self) -> (name: Option<String>)
        ensures
            name is Some == self@.file_name() is Some,
            name matches Some(text) ==> Some(text@) == self@.file_name(),
    {
        let n: usize = self.parts.len();
        if n == 0 {
            None
        } else {
            match &self.parts[n - 1] {
                PathPart::Normal(name) => Some(name.clone()),
                _ => None,
            }
        }
    }

    /// The name a search tests: the file name, or the empty text.
    pub fn search_name(&self) -> (name: String)
        ensures
            name@ == self@.search_name(),
    {
        match self.file_name() {
            Some(name) => name,
            None => String::new(),
        }
    }
}

} // verus!
