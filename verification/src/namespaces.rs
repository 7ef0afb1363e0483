//! The namespaces known of the cluster.

use vstd::prelude::*;
use crate::text::{clone_names, contains_name, has_name};

verus! {

/// The names of the namespaces, in the order they were first seen.
#[derive(Clone, Debug)]
pub struct NamespaceData {
    pub names: Vec<String>,
}

/// `base` followed by the entries of `more` it does not hold yet, each once,
/// in the order they come.
pub open spec fn add_missing(base: Seq<Seq<char>>, more: Seq<Seq<char>>) -> Seq<Seq<char>>
    decreases more.len(),
{
    if more.len() == 0 {
        base
    } else {
        let sofar = add_missing(base, more.drop_last());
        if has_name(sofar, more.last()) {
            sofar
        } else {
            sofar.push(more.last())
        }
    }
}

/// The names known after a listing came in. A listing shorter than what is
/// known means that a namespace is gone: the listing then replaces what was
/// known. In either case the listed names that are not yet known follow.
pub open spec fn merged_names(known: Seq<Seq<char>>, listed: Seq<Seq<char>>) -> Seq<Seq<char>> {
    add_missing(
        if listed.len() < known.len() {
            listed
        } else {
            known
        },
        listed,
    )
}

/// Whether no name occurs twice.
pub open spec fn distinct_names(names: Seq<Seq<char>>) -> bool {
    forall|i: int, j: int| 0 <= i < j < names.len() ==> names[i] != names[j]
}

impl NamespaceData {
    /// No namespace known yet.
    pub fn new() -> (data: Self)
        ensures
            data.names@.len() == 0,
    {
        NamespaceData { names: Vec::new() }
    }

    /// Takes in a listing of the cluster's namespaces.
    pub fn update(&mut self, listed: &Vec<String>)
        ensures
            final(self).names.deep_view() == merged_names(
                old(self).names.deep_view(),
                listed.deep_view(),
            ),
    {
        if listed.len() < self.names.len() {
            self.names = clone_names(listed);
        }
        let ghost base = self.names.deep_view();
        let mut i: usize = 0;
        while i < listed.len()
            invariant
                i <= listed.len(),
                self.names.deep_view() == add_missing(base, listed.deep_view().subrange(0, i as int)),
            decreases listed.len() - i,
        {
            let ghost before = self.names.deep_view();
            proof {
                let next = listed.deep_view().subrange(0, i + 1);
                assert(next.drop_last() == listed.deep_view().subrange(0, i as int));
                assert(next.last() == listed.deep_view()[i as int]);
            }
            if !contains_name(&self.names, listed[i].as_str()) {
                self.names.push(listed[i].clone());
                assert(self.names.deep_view() == before.push(listed.deep_view()[i as int]));
            }
            i += 1;
        }
        assert(listed.deep_view().subrange(0, listed.len() as int) == listed.deep_view());
    }
}

impl Default for NamespaceData {
    fn default() -> (data: Self)
        ensures
            data.names@.len() == 0,
    {
        NamespaceData::new()
    }
}

/// Merging never writes a name twice: from names that are distinct it gives
/// names that are distinct.
pub proof fn lemma_add_missing_distinct(base: Seq<Seq<char>>, more: Seq<Seq<char>>)
    requires
        distinct_names(base),
    ensures
        distinct_names(add_missing(base, more)),
    decreases more.len(),
{
    if more.len() > 0 {
        lemma_add_missing_distinct(base, more.drop_last());
    }
}

/// A first listing without repeats is taken as it is, in the order produced.
pub proof fn lemma_first_listing_kept(listed: Seq<Seq<char>>)
    requires
        distinct_names(listed),
    ensures
        merged_names(Seq::empty(), listed) == listed,
    decreases listed.len(),
{
    let none = Seq::<Seq<char>>::empty();
    if listed.len() > 0 {
        let front = listed.drop_last();
        lemma_first_listing_kept(front);
        assert(add_missing(none, front) == front);
        assert(!has_name(front, listed.last()));
        assert(front.push(listed.last()) == listed);
    }
}

} // verus!
