//! Walking hash tables: each member once, in an order that the table alone decides.

use std::collections::{HashMap, HashSet};
use std::hash::Hash;
use vstd::prelude::*;
use vstd::std_specs::hash::obeys_key_model;
use vstd::std_specs::iter::IteratorSpec;

verus! {

/// `s` holds each member of `members` once and nothing else, in some order.
pub open spec fn lists<A>(s: Seq<A>, members: Set<A>) -> bool {
    &&& s.no_duplicates()
    &&& forall|a: A| #[trigger] s.contains(a) <==> members.contains(a)
}

/// The keys of a table.
pub(crate) fn keys_of<K: Copy + Eq + Hash, V>(m: &HashMap<K, V>) -> (r: Vec<K>)
    requires
        obeys_key_model::<K>(),
    ensures
        lists(r@, m@.dom()),
{
    let mut r: Vec<K> = Vec::new();
    let ghost all = m.keys().remaining();
    for k in it: m.keys()
        invariant
            it.seq() == all,
            r.len() == it.index(),
            forall|i: int| 0 <= i < r.len() ==> #[trigger] r[i] == *all[i],
    {
        r.push(*k);
    }
    proof {
        lemma_lists_refs(all, r@, m@.dom());
    }
    r
}

/// The members of a set.
pub(crate) fn members_of<K: Copy + Eq + Hash>(m: &HashSet<K>) -> (r: Vec<K>)
    requires
        obeys_key_model::<K>(),
    ensures
        lists(r@, m@),
{
    let mut r: Vec<K> = Vec::new();
    let ghost all = m.iter().remaining();
    for k in it: m.iter()
        invariant
            it.seq() == all,
            r.len() == it.index(),
            forall|i: int| 0 <= i < r.len() ==> #[trigger] r[i] == *all[i],
    {
        r.push(*k);
    }
    proof {
        lemma_lists_refs(all, r@, m@);
    }
    r
}

proof fn lemma_lists_refs<K>(refs: Seq<&K>, s: Seq<K>, members: Set<K>)
    requires
        refs.no_duplicates(),
        refs.unref().to_set() == members,
        s.len() == refs.len(),
        forall|i: int| 0 <= i < s.len() ==> #[trigger] s[i] == *refs[i],
    ensures
        lists(s, members),
{
    assert(s =~= refs.unref());
    assert forall|a: K| #[trigger] s.contains(a) <==> members.contains(a) by {
        assert(s.contains(a) <==> s.to_set().contains(a));
    }
}

} // verus!
