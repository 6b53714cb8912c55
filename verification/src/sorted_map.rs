//! Maps and sets keyed by process id (`BTreeMap<u32, String>`, `BTreeSet<u32>`) and the
//! sorted vectors that iterating them gives: keys strictly increasing.
use std::collections::{BTreeMap, BTreeSet};

use vstd::prelude::*;
use vstd::std_specs::btree::{increasing_seq, spec_btree_keys_iter, spec_btree_map_iter};
use vstd::std_specs::cmp::OrdSpec;
use vstd::std_specs::iter::IteratorSpec;

verus! {

/// A sorted association list `v` holds exactly the entries of `m`: keys strictly
/// increasing, each entry present in `m` with the same value, each key of `m` present.
pub open spec fn represents(v: Seq<(u32, String)>, m: Map<u32, Seq<char>>) -> bool {
    &&& forall|i: int, j: int| 0 <= i < j < v.len() ==> (#[trigger] v[i]).0 < (#[trigger] v[j]).0
    &&& forall|i: int| 0 <= i < v.len() ==> m.contains_key((#[trigger] v[i]).0) && m[v[i].0] == v[i].1@
    &&& forall|k: u32| m.contains_key(k) ==> exists|i: int| 0 <= i < v.len() && (#[trigger] v[i]).0 == k
}

/// The map after inserting `ops` in order into `m`; a later insert replaces an earlier
/// value for the same key, as `BTreeMap::insert` does.
pub open spec fn apply_inserts(m: Map<u32, Seq<char>>, ops: Seq<(u32, Seq<char>)>) -> Map<u32, Seq<char>>
    decreases ops.len(),
{
    if ops.len() == 0 {
        m
    } else {
        apply_inserts(m, ops.drop_last()).insert(ops.last().0, ops.last().1)
    }
}

/// A sorted vector `v` holds exactly the members of `s`: strictly increasing, each
/// element a member, each member present.
pub open spec fn represents_set(v: Seq<u32>, s: Set<u32>) -> bool {
    &&& forall|i: int, j: int| 0 <= i < j < v.len() ==> #[trigger] v[i] < #[trigger] v[j]
    &&& forall|i: int| 0 <= i < v.len() ==> s.contains(#[trigger] v[i])
    &&& forall|x: u32| s.contains(x) ==> exists|i: int| 0 <= i < v.len() && #[trigger] v[i] == x
}

/// The map with each name taken by its characters.
pub open spec fn text_values(m: Map<u32, String>) -> Map<u32, Seq<char>> {
    m.map_values(|s: String| s@)
}

/// The entries of a `BTreeMap` in its iteration order, which is increasing key order.
pub fn sorted_entries(m: &BTreeMap<u32, String>) -> (r: Vec<(u32, String)>)
    ensures
        represents(r@, text_values(m@)),
{
    broadcast use vstd::std_specs::btree::group_btree_axioms;
    broadcast use vstd::laws_cmp::group_laws_cmp;
    let iter = m.iter();
    let ghost all = iter.remaining();
    assert(increasing_seq(all.map_values(|kv: (&u32, &String)| *kv.0)));
    let mut out: Vec<(u32, String)> = Vec::new();
    for kv in it: iter
        invariant
            all == it.seq(),
            out@.len() == it.index(),
            forall|j: int| 0 <= j < it.index() ==> (#[trigger] out@[j]).0 == *all[j].0 && out@[j].1@ == (*all[j].1)@,
    {
        out.push((*kv.0, kv.1.clone()));
    }
    proof {
        let v = spec_btree_map_iter(m).remaining();
        assert(all == v);
        let keys = all.map_values(|kv: (&u32, &String)| *kv.0);
        assert forall|i: int, j: int| 0 <= i < j < out@.len() implies (#[trigger] out@[i]).0 < (#[trigger] out@[j]).0 by {
            assert(keys[i] == *all[i].0);
            assert(keys[j] == *all[j].0);
            assert(keys[i].cmp_spec(&keys[j]) is Less);
        }
        assert forall|i: int| 0 <= i < out@.len() implies text_values(m@).contains_key((#[trigger] out@[i]).0)
            && text_values(m@)[out@[i].0] == out@[i].1@ by {
            assert(m@.contains_key(*v[i].0) && m@[*v[i].0] == *v[i].1);
        }
        assert forall|k: u32| text_values(m@).contains_key(k) implies exists|i: int|
            0 <= i < out@.len() && (#[trigger] out@[i]).0 == k by {
            assert(m@.contains_key(k));
            assert(v.contains((&k, &m@[k])));
            let i = choose|i: int| 0 <= i < v.len() && v[i] == (&k, &m@[k]);
            assert(out@[i].0 == k);
        }
    }
    out
}

/// Inserts a name under a pid; a later name for the same pid replaces the earlier one.
pub(crate) fn insert_text(m: &mut BTreeMap<u32, String>, k: u32, v: String)
    ensures
        text_values(final(m)@) == text_values(old(m)@).insert(k, v@),
{
    broadcast use vstd::laws_cmp::group_laws_cmp;
    let ghost text = v@;
    m.insert(k, v);
    assert(text_values(m@) =~= text_values(old(m)@).insert(k, text));
}

/// An empty map from pids to names.
pub(crate) fn empty_text_map() -> (r: BTreeMap<u32, String>)
    ensures
        text_values(r@) == Map::<u32, Seq<char>>::empty(),
{
    let r = BTreeMap::new();
    assert(text_values(r@) =~= Map::<u32, Seq<char>>::empty());
    r
}

/// Whether the map has a name under pid `k`.
pub(crate) fn contains_pid(m: &BTreeMap<u32, String>, k: u32) -> (r: bool)
    ensures
        r == text_values(m@).contains_key(k),
{
    broadcast use vstd::std_specs::btree::group_btree_axioms;
    broadcast use vstd::laws_cmp::group_laws_cmp;
    m.contains_key(&k)
}

/// The members of a `BTreeSet` in its iteration order, which is increasing order.
pub fn sorted_members(m: &BTreeSet<u32>) -> (r: Vec<u32>)
    ensures
        represents_set(r@, m@),
{
    broadcast use vstd::std_specs::btree::group_btree_axioms;
    broadcast use vstd::laws_cmp::group_laws_cmp;
    let iter = m.iter();
    let ghost all = iter.remaining();
    let mut out: Vec<u32> = Vec::new();
    for x in it: iter
        invariant
            all == it.seq(),
            out@.len() == it.index(),
            forall|j: int| 0 <= j < it.index() ==> #[trigger] out@[j] == *all[j],
    {
        out.push(*x);
    }
    proof {
        let v = spec_btree_keys_iter(m).remaining();
        assert(all == v);
        assert(vstd::laws_cmp::obeys_cmp::<u32>());
        assert(vstd::laws_cmp::obeys_cmp::<&u32>());
        assert(increasing_seq(v));
        assert forall|i: int, j: int| 0 <= i < j < out@.len() implies #[trigger] out@[i] < #[trigger] out@[j] by {
            assert(out@[i] == *v[i] && out@[j] == *v[j]);
            assert(OrdSpec::cmp_spec(&v[i], &v[j]) is Less);
            assert(OrdSpec::cmp_spec(v[i], v[j]) is Less);
        }
        assert forall|i: int| 0 <= i < out@.len() implies m@.contains(#[trigger] out@[i]) by {
            assert(v.unref()[i] == *v[i]);
            assert(v.unref().contains(*v[i]));
        }
        assert forall|x: u32| m@.contains(x) implies exists|i: int| 0 <= i < out@.len() && #[trigger] out@[i] == x by {
            assert(v.unref().to_set().contains(x));
            let i = choose|i: int| 0 <= i < v.unref().len() && v.unref()[i] == x;
            assert(out@[i] == x);
        }
    }
    out
}

/// Adds a pid to the set.
pub(crate) fn insert_pid(m: &mut BTreeSet<u32>, x: u32)
    ensures
        final(m)@ == old(m)@.insert(x),
{
    broadcast use vstd::laws_cmp::group_laws_cmp;
    m.insert(x);
}

} // verus!
