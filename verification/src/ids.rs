//! Sets of identifiers, made of lists and listed again.

use std::collections::HashSet;
use vstd::prelude::*;
use vstd::std_specs::iter::IteratorSpec;

verus! {

/// The set of the identifiers in a list.
pub fn collect(ids: &Vec<i64>) -> (out: HashSet<i64>)
    ensures
        out@ == ids@.to_set(),
{
    broadcast use vstd::std_specs::hash::group_hash_axioms;

    let mut out: HashSet<i64> = HashSet::new();
    extend(&mut out, ids);
    assert(out@ =~= ids@.to_set());
    out
}

/// Adds the identifiers in a list to a set.
pub fn extend(into: &mut HashSet<i64>, ids: &Vec<i64>)
    ensures
        final(into)@ == old(into)@.union(ids@.to_set()),
{
    broadcast use vstd::std_specs::hash::group_hash_axioms;

    let ghost start = into@;
    let mut i: usize = 0;
    assert(into@ =~= start.union(ids@.take(0).to_set()));
    while i < ids.len()
        invariant
            0 <= i <= ids.len(),
            into@ == start.union(ids@.take(i as int).to_set()),
        decreases ids.len() - i,
    {
        let id = ids[i];
        into.insert(id);
        proof {
            let before = ids@.take(i as int);
            let after = ids@.take(i + 1);
            assert(after == before.push(id));
            assert forall|x: i64| after.to_set().contains(x) <==> (before.to_set().contains(x)
                || x == id) by {
                if after.contains(x) {
                    let j = choose|j: int| 0 <= j < after.len() && after[j] == x;
                    if j < before.len() {
                        assert(before[j] == x);
                    }
                }
                if before.contains(x) {
                    let j = choose|j: int| 0 <= j < before.len() && before[j] == x;
                    assert(after[j] == x);
                }
                if x == id {
                    assert(after[i as int] == x);
                }
            }
            assert(into@ =~= start.union(after.to_set()));
        }
        i += 1;
    }
    assert(ids@.take(ids.len() as int) == ids@);
}

/// Whether a set holds every identifier in a list.
pub fn covers(set: &HashSet<i64>, ids: &Vec<i64>) -> (yes: bool)
    ensures
        yes == ids@.to_set().subset_of(set@),
{
    broadcast use vstd::std_specs::hash::group_hash_axioms;

    let mut i: usize = 0;
    while i < ids.len()
        invariant
            0 <= i <= ids.len(),
            forall|j: int| 0 <= j < i ==> set@.contains(ids@[j]),
        decreases ids.len() - i,
    {
        if !set.contains(&ids[i]) {
            assert(ids@.contains(ids@[i as int]));
            assert(ids@.to_set().contains(ids@[i as int]));
            return false;
        }
        i += 1;
    }
    assert forall|id: i64| ids@.to_set().contains(id) implies set@.contains(id) by {
        let j = choose|j: int| 0 <= j < ids@.len() && ids@[j] == id;
        assert(set@.contains(ids@[j]));
    }
    true
}

/// The identifiers of a set in a list, each once, in the order in which the
/// set hands them out.
pub fn listed(set: &HashSet<i64>) -> (out: Vec<i64>)
    ensures
        out@.no_duplicates(),
        out@.to_set() == set@,
{
    broadcast use vstd::std_specs::hash::group_hash_axioms;

    let mut out: Vec<i64> = Vec::new();
    for id in it: set.iter()
        invariant
            out@ == it.seq().unref().take(it.index() as int),
    {
        out.push(*id);
        assert(out@ =~= it.seq().unref().take(it.index() + 1));
    }
    assert(out@ =~= set.iter().remaining().unref());
    out
}

/// An identifier that a list without repetitions holds occurs in it exactly
/// once.
pub proof fn lemma_listed_once(ids: Seq<i64>, id: i64)
    requires
        ids.no_duplicates(),
        ids.contains(id),
    ensures
        ids.to_multiset().count(id) == 1,
{
    ids.lemma_multiset_has_no_duplicates();
    ids.to_multiset_ensures();
}

} // verus!
