//! The tree walker's matching step: from the entries a subtree walk visited
//! to the paths whose names contain the query.

use crate::path::{paths_view, DirectoryPath, PathModel};
use crate::text::{matches_chars, name_matches, to_chars};
use rayon::iter::{ParallelBridge, ParallelIterator};
use vstd::multiset::*;
use vstd::prelude::*;
use vstd::seq_lib::*;

verus! {

/// What a subtree walk yields for one step: the path of an entry it reached
/// (the start of the walk included), or a step that failed, such as a
/// directory that could not be opened.
#[derive(Debug, PartialEq, Eq)]
pub enum WalkItem {
    Visited(DirectoryPath),
    Failed,
}

/// The mathematical value of a [`WalkItem`].
pub enum WalkItemModel {
    Visited(PathModel),
    Failed,
}

impl View for WalkItem {
    type V = WalkItemModel;

    open spec fn view(&self) -> WalkItemModel {
        match self {
            WalkItem::Visited(path) => WalkItemModel::Visited(path@),
            WalkItem::Failed => WalkItemModel::Failed,
        }
    }
}

/// The values of a sequence of walk items.
pub open spec fn walk_view(items: Seq<WalkItem>) -> Seq<WalkItemModel> {
    items.map_values(|item: WalkItem| item@)
}

/// Whether the entry at `path` matches: its name, in lowercase, contains the
/// query. A path without a file name is tested as the empty name.
pub open spec fn path_matches(path: PathModel, query_lower: Seq<char>) -> bool {
    name_matches(path.search_name(), query_lower)
}

/// The path that one walk step contributes to the result: the visited path
/// where it matches, nothing for a failed step or a name without the query.
pub open spec fn selected(item: WalkItemModel, query_lower: Seq<char>) -> Option<PathModel> {
    match item {
        WalkItemModel::Visited(path) => if path_matches(path, query_lower) {
            Some(path)
        } else {
            None
        },
        WalkItemModel::Failed => None,
    }
}

/// The matching paths of a walk, in the order of the walk.
pub open spec fn matching_paths(items: Seq<WalkItemModel>, query_lower: Seq<char>) -> Seq<
    PathModel,
>
    decreases items.len(),
{
    if items.len() == 0 {
        Seq::empty()
    } else {
        let rest = matching_paths(items.drop_last(), query_lower);
        match selected(items.last(), query_lower) {
            Some(path) => rest.push(path),
            None => rest,
        }
    }
}

/// What a search result is: the matching paths of the walk, each as often
/// as the walk visited it, in any order.
pub open spec fn is_search_result(
    found: Seq<PathModel>,
    items: Seq<WalkItemModel>,
    query_lower: Seq<char>,
) -> bool {
    found.to_multiset() == matching_paths(items, query_lower).to_multiset()
}

/// How often a path occurs among the matching paths of a walk: as often as
/// the walk visited it where it matches, and never where it does not.
pub proof fn lemma_matching_count(items: Seq<WalkItemModel>, query_lower: Seq<char>, path: PathModel)
    ensures
        matching_paths(items, query_lower).to_multiset().count(path) == (if path_matches(
            path,
            query_lower,
        ) {
            items.to_multiset().count(WalkItemModel::Visited(path))
        } else {
            0
        }),
    decreases items.len(),
{
    broadcast use group_multiset_axioms;

    if items.len() == 0 {
        assert(items.to_multiset().len() == 0) by {
            to_multiset_len(items);
        }
        assert(matching_paths(items, query_lower).to_multiset().len() == 0) by {
            to_multiset_len(matching_paths(items, query_lower));
        }
    } else {
        let rest = items.drop_last();
        lemma_matching_count(rest, query_lower, path);
        assert(items =~= rest.push(items.last()));
        to_multiset_build(rest, items.last());
        match selected(items.last(), query_lower) {
            Some(hit) => {
                to_multiset_build(matching_paths(rest, query_lower), hit);
            },
            None => {},
        }
    }
}

/// A search result holds a path exactly when the walk visited it and its
/// name matches: no path without the query in its name is included, and no
/// visited path with the query in its name is left out.
pub proof fn lemma_search_result_is_exact(
    found: Seq<PathModel>,
    items: Seq<WalkItemModel>,
    query_lower: Seq<char>,
)
    requires
        is_search_result(found, items, query_lower),
    ensures
        forall|path: PathModel|
            found.contains(path) <==> (items.contains(WalkItemModel::Visited(path))
                && path_matches(path, query_lower)),
        found.len() == matching_paths(items, query_lower).len(),
{
    broadcast use group_to_multiset_ensures;

    assert(found.to_multiset().len() == matching_paths(items, query_lower).to_multiset().len());
    assert forall|path: PathModel|
        found.contains(path) <==> (items.contains(WalkItemModel::Visited(path)) && path_matches(
            path,
            query_lower,
        )) by {
        lemma_matching_count(items, query_lower, path);
        assert(found.to_multiset().count(path) == matching_paths(
            items,
            query_lower,
        ).to_multiset().count(path));
        assert(items.contains(WalkItemModel::Visited(path)) <==> items.to_multiset().count(
            WalkItemModel::Visited(path),
        ) > 0);
    }
}

/// Searching twice for the same query over walks that visited the same
/// entries, in whatever order, finds the same paths: the two results hold
/// each path equally often, and so are equal as sets.
pub proof fn lemma_search_is_repeatable(
    first: Seq<PathModel>,
    second: Seq<PathModel>,
    first_walk: Seq<WalkItemModel>,
    second_walk: Seq<WalkItemModel>,
    query_lower: Seq<char>,
)
    requires
        is_search_result(first, first_walk, query_lower),
        is_search_result(second, second_walk, query_lower),
        first_walk.to_multiset() == second_walk.to_multiset(),
    ensures
        first.to_multiset() == second.to_multiset(),
        first.to_set() == second.to_set(),
        first.len() == second.len(),
{
    broadcast use group_to_multiset_ensures;

    assert forall|path: PathModel|
        first.to_multiset().count(path) == second.to_multiset().count(path) by {
        lemma_matching_count(first_walk, query_lower, path);
        lemma_matching_count(second_walk, query_lower, path);
    }
    assert(first.to_multiset() =~= second.to_multiset());
    assert(first.to_multiset().len() == second.to_multiset().len());
    assert forall|path: PathModel| first.to_set().contains(path) == second.to_set().contains(
        path,
    ) by {
        assert(first.contains(path) <==> first.to_multiset().count(path) > 0);
        assert(second.contains(path) <==> second.to_multiset().count(path) > 0);
    }
    assert(first.to_set() =~= second.to_set());
}

/// Decides whether the entry at `path` matches a lowercase query, given as
/// its characters.
pub fn is_match(path: &DirectoryPath, query_lower: &Vec<char>) -> (hit: bool)
    ensures
        hit == path_matches(path@, query_lower@),
{
    let name = path.search_name();
    matches_chars(name.as_str(), query_lower)
}

/// The path that one walk step contributes to the result, if any.
pub fn select_match(item: WalkItem, query_lower: &Vec<char>) -> (hit: Option<DirectoryPath>)
    ensures
        hit is Some == selected(item@, query_lower@) is Some,
        hit matches Some(path) ==> Some(path@) == selected(item@, query_lower@),
{
    match item {
        WalkItem::Visited(path) => {
            if is_match(&path, query_lower) {
                Some(path)
            } else {
                None
            }
        },
        WalkItem::Failed => None,
    }
}

/// Runs `select_match` over the items on rayon's thread pool, through
/// `ParallelBridge::par_bridge`, `ParallelIterator::filter_map` and
/// `ParallelIterator::collect`. The bridge hands every item to the closure
/// once and keeps no order, so the contract claims the selected paths as a
/// multiset: each as often as the items select it.
#[verifier::external_body]
fn select_in_parallel(items: Vec<WalkItem>, query_lower: &Vec<char>) -> (found: Vec<DirectoryPath>)
    ensures
        paths_view(found@).to_multiset() == matching_paths(
            walk_view(items@),
            query_lower@,
        ).to_multiset(),
{
    items.into_iter().par_bridge().filter_map(|item| select_match(item, query_lower)).collect()
}

/// The matching step of a recursive search. `items` is what a walk of the
/// subtree yielded, start included; `query_lower` is the query in lowercase.
/// Failed steps are skipped. The result holds the visited paths whose names,
/// in lowercase, contain the query; their order is not fixed.
pub fn find_entries_recursively(items: Vec<WalkItem>, query_lower: &str) -> (found: Vec<
    DirectoryPath,
>)
    ensures
        is_search_result(paths_view(found@), walk_view(items@), query_lower@),
        found@.len() == matching_paths(walk_view(items@), query_lower@).len(),
        forall|path: PathModel|
            paths_view(found@).contains(path) <==> (walk_view(items@).contains(
                WalkItemModel::Visited(path),
            ) && path_matches(path, query_lower@)),
{
    let needle = to_chars(query_lower);
    let found = select_in_parallel(items, &needle);
    proof {
        lemma_search_result_is_exact(paths_view(found@), walk_view(items@), query_lower@);
    }
    found
}

} // verus!
