//! Which fetched records are new with respect to a snapshot of identifiers.
use vstd::prelude::*;

use crate::entity::Entity;

verus! {

/// The identifiers of a sequence of records, in order.
pub open spec fn ids_of(s: Seq<Entity>) -> Seq<u64> {
    s.map_values(|e: Entity| e.spec_id())
}

/// The records of `current` whose identifier is not in `baseline`, in fetch order.
pub open spec fn novel(baseline: Seq<u64>, current: Seq<Entity>) -> Seq<Entity> {
    current.filter(|e: Entity| !baseline.contains(e.spec_id()))
}

/// Whether `id` is among `ids`.
pub fn contains_id(ids: &Vec<u64>, id: u64) -> (r: bool)
    ensures
        r == ids@.contains(id),
{
    let mut i: usize = 0;
    while i < ids.len()
        invariant
            0 <= i <= ids@.len(),
            forall|j: int| 0 <= j < i ==> ids@[j] != id,
        decreases ids@.len() - i,
    {
        if ids[i] == id {
            assert(ids@[i as int] == id);
            return true;
        }
        i = i + 1;
    }
    false
}

/// The snapshot of a fetch: the identifiers of its records, in fetch order.
pub fn snapshot_ids(current: &Vec<Entity>) -> (r: Vec<u64>)
    ensures
        r@ == ids_of(current@),
{
    let mut r: Vec<u64> = Vec::new();
    let mut i: usize = 0;
    while i < current.len()
        invariant
            0 <= i <= current@.len(),
            r@ == ids_of(current@.subrange(0, i as int)),
        decreases current@.len() - i,
    {
        let id = current[i].id();
        r.push(id);
        i = i + 1;
        assert(ids_of(current@.subrange(0, i as int)) =~= r@);
    }
    assert(current@.subrange(0, current@.len() as int) =~= current@);
    r
}

proof fn lemma_novel_step(baseline: Seq<u64>, current: Seq<Entity>, i: int)
    requires
        0 <= i < current.len(),
    ensures
        novel(baseline, current.subrange(0, i + 1)) == if baseline.contains(current[i].spec_id()) {
            novel(baseline, current.subrange(0, i))
        } else {
            novel(baseline, current.subrange(0, i)).push(current[i])
        },
{
    let s = current.subrange(0, i + 1);
    assert(s.drop_last() =~= current.subrange(0, i));
    assert(s.last() == current[i]);
    reveal(Seq::filter);
}

/// The fetched records whose identifier the baseline does not hold, in fetch order.
pub fn new_entities(baseline: &Vec<u64>, current: &Vec<Entity>) -> (r: Vec<Entity>)
    ensures
        r@ == novel(baseline@, current@),
{
    let mut r: Vec<Entity> = Vec::new();
    let mut i: usize = 0;
    assert(current@.subrange(0, 0) =~= Seq::<Entity>::empty());
    proof {
        reveal(Seq::filter);
    }
    while i < current.len()
        invariant
            0 <= i <= current@.len(),
            r@ == novel(baseline@, current@.subrange(0, i as int)),
        decreases current@.len() - i,
    {
        proof {
            lemma_novel_step(baseline@, current@, i as int);
        }
        let seen = contains_id(baseline, current[i].id());
        if !seen {
            r.push(current[i].clone());
        }
        i = i + 1;
    }
    assert(current@.subrange(0, current@.len() as int) =~= current@);
    r
}

/// A fetched record is delivered exactly when the baseline lacks its identifier.
pub proof fn lemma_novel_membership(baseline: Seq<u64>, current: Seq<Entity>, e: Entity)
    ensures
        novel(baseline, current).contains(e) <==> (current.contains(e) && !baseline.contains(
            e.spec_id(),
        )),
{
    let pred = |x: Entity| !baseline.contains(x.spec_id());
    if novel(baseline, current).contains(e) {
        current.lemma_filter_contains_rev(pred, e);
    }
    if current.contains(e) && !baseline.contains(e.spec_id()) {
        let i = choose|i: int| 0 <= i < current.len() && current[i] == e;
        current.lemma_filter_contains(pred, i);
    }
}

/// An identifier that no fetched record carries is absent from the next snapshot.
pub proof fn lemma_stale_ids_drop_out(current: Seq<Entity>, id: u64)
    requires
        forall|i: int| 0 <= i < current.len() ==> current[i].spec_id() != id,
    ensures
        !ids_of(current).contains(id),
{
    if ids_of(current).contains(id) {
        let k = choose|k: int| 0 <= k < ids_of(current).len() && ids_of(current)[k] == id;
        assert(current[k].spec_id() == id);
    }
}

/// Diffing a fetch against its own snapshot finds nothing new.
pub proof fn lemma_nothing_new_against_own_snapshot(current: Seq<Entity>)
    ensures
        novel(ids_of(current), current).len() == 0,
{
    let pred = |x: Entity| !ids_of(current).contains(x.spec_id());
    if novel(ids_of(current), current).len() > 0 {
        let e = novel(ids_of(current), current)[0];
        assert(novel(ids_of(current), current).contains(e));
        current.lemma_filter_contains_rev(pred, e);
        let i = choose|i: int| 0 <= i < current.len() && current[i] == e;
        assert(ids_of(current)[i] == e.spec_id());
    }
}

} // verus!
