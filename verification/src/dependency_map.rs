//! Dependency maps: which tasks depend on which.
use vstd::prelude::*;
use crate::error::Error;
use crate::ids::{hyphenated, lemma_hyphenated_injective, parsed_uuid, uuid2tc, uuids_to_strings};

verus! {

/// A dependency map, as taskchampion's `DependencyMap`: a list of edges `(a, b)`, each
/// saying that task `a` depends on task `b`.
#[verifier::external_body]
pub struct DependencyMap {
    /// The taskchampion value, shared with the tasks that were read with it.
    pub inner: std::sync::Arc<taskchampion::DependencyMap>,
}

/// The edges of a dependency map, in the order in which they were added.
pub uninterp spec fn dependency_edges(d: DependencyMap) -> Seq<(u128, u128)>;

/// The text that `Debug` writes for a dependency map with these edges.
pub uninterp spec fn dependency_map_debug_text(edges: Seq<(u128, u128)>) -> Seq<char>;

/// The tasks on which `task` depends, in the order of the edges.
pub open spec fn dependencies_of(edges: Seq<(u128, u128)>, task: u128) -> Seq<u128>
    decreases edges.len(),
{
    if edges.len() == 0 {
        Seq::empty()
    } else {
        let rest = dependencies_of(edges.drop_last(), task);
        if edges.last().0 == task {
            rest.push(edges.last().1)
        } else {
            rest
        }
    }
}

/// The tasks that depend on `task`, in the order of the edges.
pub open spec fn dependents_of(edges: Seq<(u128, u128)>, task: u128) -> Seq<u128>
    decreases edges.len(),
{
    if edges.len() == 0 {
        Seq::empty()
    } else {
        let rest = dependents_of(edges.drop_last(), task);
        if edges.last().1 == task {
            rest.push(edges.last().0)
        } else {
            rest
        }
    }
}

/// Calls `DependencyMap::dependencies`. Trusted: as its source shows, it walks the edges in
/// order and yields `b` for each edge `(task, b)`.
#[verifier::external_body]
fn tc_dependencies(d: &DependencyMap, task: u128) -> (r: Vec<u128>)
    ensures
        r@ == dependencies_of(dependency_edges(*d), task),
{
    d.inner.dependencies(taskchampion::Uuid::from_u128(task)).map(|u| u.as_u128()).collect()
}

/// Calls `DependencyMap::dependents`. Trusted: as its source shows, it walks the edges in
/// order and yields `a` for each edge `(a, task)`.
#[verifier::external_body]
fn tc_dependents(d: &DependencyMap, task: u128) -> (r: Vec<u128>)
    ensures
        r@ == dependents_of(dependency_edges(*d), task),
{
    d.inner.dependents(taskchampion::Uuid::from_u128(task)).map(|u| u.as_u128()).collect()
}

/// Writes a dependency map with `format!("{:?}", ..)`. Trusted: the text is the one that
/// `dependency_map_debug_text` names for its edges (the derived `Debug` of the struct).
#[verifier::external_body]
fn tc_debug(d: &DependencyMap) -> (r: String)
    ensures
        r@ == dependency_map_debug_text(dependency_edges(*d)),
{
    format!("{:?}", d.inner.as_ref())
}

impl DependencyMap {
    /// The text of the dependency map.
    pub fn __repr__(&self) -> (r: String)
        ensures
            r@ == dependency_map_debug_text(dependency_edges(*self)),
    {
        tc_debug(self)
    }

    /// The UUIDs of the tasks on which the given task depends; text that is not a UUID is
    /// refused.
    pub fn dependencies(&self, dep_of: String) -> (r: Result<Vec<String>, Error>)
        ensures
            match parsed_uuid(dep_of@) {
                Some(u) => r matches Ok(v) && v@.map_values(|s: String| s@) == dependencies_of(
                    dependency_edges(*self),
                    u,
                ).map_values(|x: u128| hyphenated(x)),
                None => r matches Err(e) && e == Error::InvalidUuid,
            },
    {
        let u = uuid2tc(dep_of.as_str())?;
        let deps = tc_dependencies(self, u);
        let r = uuids_to_strings(&deps);
        assert(r@.map_values(|s: String| s@) =~= deps@.map_values(|x: u128| hyphenated(x)));
        Ok(r)
    }

    /// The UUIDs of the tasks that depend on the given task; text that is not a UUID is
    /// refused.
    pub fn dependents(&self, dep_on: String) -> (r: Result<Vec<String>, Error>)
        ensures
            match parsed_uuid(dep_on@) {
                Some(u) => r matches Ok(v) && v@.map_values(|s: String| s@) == dependents_of(
                    dependency_edges(*self),
                    u,
                ).map_values(|x: u128| hyphenated(x)),
                None => r matches Err(e) && e == Error::InvalidUuid,
            },
    {
        let u = uuid2tc(dep_on.as_str())?;
        let deps = tc_dependents(self, u);
        let r = uuids_to_strings(&deps);
        assert(r@.map_values(|s: String| s@) =~= deps@.map_values(|x: u128| hyphenated(x)));
        Ok(r)
    }
}

/// Task `b` is among the dependencies of task `a` exactly when `a` is among the dependents of
/// `b`: both say that the map has an edge `(a, b)`.
pub proof fn lemma_dependency_symmetry(d: DependencyMap, a: u128, b: u128)
    ensures
        dependencies_of(dependency_edges(d), a).contains(b) <==> dependents_of(
            dependency_edges(d),
            b,
        ).contains(a),
{
    lemma_edge_lists(dependency_edges(d), a, b);
}

/// In the lists of UUID texts that `dependencies` and `dependents` give, the canonical text of
/// task `b` is among the dependencies of task `a` exactly when the canonical text of `a` is
/// among the dependents of `b`.
pub proof fn lemma_dependency_text_symmetry(d: DependencyMap, a: u128, b: u128)
    ensures
        dependencies_of(dependency_edges(d), a).map_values(|x: u128| hyphenated(x)).contains(
            hyphenated(b),
        ) <==> dependents_of(dependency_edges(d), b).map_values(|x: u128| hyphenated(x)).contains(
            hyphenated(a),
        ),
{
    lemma_edge_lists(dependency_edges(d), a, b);
    lemma_texts_contain(dependencies_of(dependency_edges(d), a), b);
    lemma_texts_contain(dependents_of(dependency_edges(d), b), a);
}

/// A list of UUIDs holds `x` exactly when their texts hold the text of `x`.
proof fn lemma_texts_contain(s: Seq<u128>, x: u128)
    ensures
        s.map_values(|u: u128| hyphenated(u)).contains(hyphenated(x)) <==> s.contains(x),
{
    let t = s.map_values(|u: u128| hyphenated(u));
    if t.contains(hyphenated(x)) {
        let i = choose|i: int| 0 <= i < t.len() && t[i] == hyphenated(x);
        lemma_hyphenated_injective(s[i], x);
        assert(s[i] == x);
    }
    if s.contains(x) {
        let i = choose|i: int| 0 <= i < s.len() && s[i] == x;
        assert(t[i] == hyphenated(x));
    }
}

proof fn lemma_push_contains<A>(s: Seq<A>, x: A, y: A)
    ensures
        s.push(x).contains(y) <==> (s.contains(y) || x == y),
{
    if s.push(x).contains(y) {
        let i = choose|i: int| 0 <= i < s.push(x).len() && s.push(x)[i] == y;
        if i < s.len() {
            assert(s[i] == y);
        }
    }
    if s.contains(y) {
        let i = choose|i: int| 0 <= i < s.len() && s[i] == y;
        assert(s.push(x)[i] == y);
    }
    if x == y {
        assert(s.push(x)[s.len() as int] == y);
    }
}

proof fn lemma_edge_lists(edges: Seq<(u128, u128)>, a: u128, b: u128)
    ensures
        dependencies_of(edges, a).contains(b) <==> edges.contains((a, b)),
        dependents_of(edges, b).contains(a) <==> edges.contains((a, b)),
    decreases edges.len(),
{
    if edges.len() > 0 {
        let rest = edges.drop_last();
        lemma_edge_lists(rest, a, b);
        assert(edges == rest.push(edges.last()));
        lemma_push_contains(rest, edges.last(), (a, b));
        let e = edges.last();
        lemma_push_contains(dependencies_of(rest, a), e.1, b);
        lemma_push_contains(dependents_of(rest, b), e.0, a);
    }
}

} // verus!
