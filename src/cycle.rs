//! The decisions of one polling cycle for one (source, kind) pair.
//!
//! The caller performs the fetch and the snapshot read, hands their outcomes
//! to [`plan_cycle`], delivers the returned notices and writes the returned
//! snapshot, whatever became of the deliveries.
use vstd::prelude::*;

use crate::entity::Entity;
use crate::novelty::{ids_of, new_entities, novel, snapshot_ids};

verus! {

/// What the upstream fetch of one kind produced.
#[derive(Debug)]
pub enum FetchOutcome {
    /// Transport, timeout or schema failure.
    Failed,
    /// The upstream reported no data.
    Absent,
    /// The current records, in upstream order.
    Fetched(Vec<Entity>),
}

/// What reading the stored snapshot produced.
#[derive(Debug)]
pub enum BaselineRead {
    /// The store could not be read.
    Failed,
    /// No snapshot is stored yet.
    Missing,
    /// The identifiers stored at the end of the previous cycle.
    Found(Vec<u64>),
}

/// A new record ready to be delivered, with the record it refers to.
#[derive(Debug)]
pub struct Notice {
    pub entity: Entity,
    pub parent: Option<Entity>,
}

/// What a cycle does: the notices to deliver, the identifiers of the new
/// records skipped for a missing referent, and the snapshot to store.
#[derive(Debug)]
pub struct CyclePlan {
    pub notices: Vec<Notice>,
    pub skipped: Vec<u64>,
    pub snapshot: Option<Vec<u64>>,
}

/// The first record of `s` with identifier `id`.
pub open spec fn first_with_id(s: Seq<Entity>, id: u64) -> Option<Entity>
    decreases s.len(),
{
    if s.len() == 0 {
        None
    } else if s[0].spec_id() == id {
        Some(s[0])
    } else {
        first_with_id(s.drop_first(), id)
    }
}

/// The notice for `e`, or none when `e` refers to a record missing from `parents`.
pub open spec fn notice_for(e: Entity, parents: Seq<Entity>) -> Option<Notice> {
    match e.spec_parent_id() {
        Some(pid) => match first_with_id(parents, pid) {
            Some(p) => Some(Notice { entity: e, parent: Some(p) }),
            None => None,
        },
        None => Some(Notice { entity: e, parent: None }),
    }
}

/// The notices for `es`, in order, skipping records whose referent is missing.
pub open spec fn resolved(es: Seq<Entity>, parents: Seq<Entity>) -> Seq<Notice> {
    es.filter_map(|e: Entity| notice_for(e, parents))
}

/// The identifiers of the records of `es` whose referent is missing from `parents`, in order.
pub open spec fn unresolved(es: Seq<Entity>, parents: Seq<Entity>) -> Seq<u64> {
    es.filter_map(
        |e: Entity|
            if notice_for(e, parents) is None {
                Some(e.spec_id())
            } else {
                None
            },
    )
}

/// A notice is complete when exactly the votes and comments carry their referent.
pub open spec fn complete(n: Notice) -> bool {
    n.parent is Some <==> n.entity.spec_parent_id() is Some
}

/// A stored snapshot seen as a sequence of identifiers.
pub open spec fn snapshot_view(s: Option<Vec<u64>>) -> Option<Seq<u64>> {
    match s {
        Some(v) => Some(v@),
        None => None,
    }
}

/// The first record of `s` with identifier `id`, if any.
pub fn find_by_id(s: &Vec<Entity>, id: u64) -> (r: Option<Entity>)
    ensures
        r == first_with_id(s@, id),
{
    let mut i: usize = 0;
    assert(s@.subrange(0, s@.len() as int) =~= s@);
    while i < s.len()
        invariant
            0 <= i <= s@.len(),
            first_with_id(s@, id) == first_with_id(s@.subrange(i as int, s@.len() as int), id),
        decreases s@.len() - i,
    {
        let ghost rest = s@.subrange(i as int, s@.len() as int);
        assert(rest.drop_first() =~= s@.subrange(i + 1, s@.len() as int));
        if s[i].id() == id {
            return Some(s[i].clone());
        }
        i = i + 1;
    }
    None
}

/// Whether `n` is complete.
pub fn is_complete(n: &Notice) -> (r: bool)
    ensures
        r == complete(*n),
{
    n.parent.is_some() == n.entity.parent_id().is_some()
}

/// Pairs each record with the record it refers to, taken from the same
/// cycle's fetch of the parent kind; a record whose referent is missing is
/// skipped.
pub fn resolve_references(es: &Vec<Entity>, parents: &Vec<Entity>) -> (r: (Vec<Notice>, Vec<u64>))
    ensures
        r.0@ == resolved(es@, parents@),
        r.1@ == unresolved(es@, parents@),
{
    let mut r: Vec<Notice> = Vec::new();
    let mut skipped: Vec<u64> = Vec::new();
    let mut i: usize = 0;
    assert(es@.subrange(0, 0) =~= Seq::<Entity>::empty());
    while i < es.len()
        invariant
            0 <= i <= es@.len(),
            r@ == resolved(es@.subrange(0, i as int), parents@),
            skipped@ == unresolved(es@.subrange(0, i as int), parents@),
        decreases es@.len() - i,
    {
        let ghost s = es@.subrange(0, i + 1);
        assert(s.drop_last() =~= es@.subrange(0, i as int));
        assert(s.last() == es@[i as int]);
        let e = &es[i];
        match e.parent_id() {
            Some(pid) => {
                match find_by_id(parents, pid) {
                    Some(p) => {
                        r.push(Notice { entity: e.clone(), parent: Some(p) });
                        assert(r@ =~= resolved(s, parents@));
                    },
                    None => {
                        skipped.push(e.id());
                        assert(skipped@ =~= unresolved(s, parents@));
                    },
                }
            },
            None => {
                r.push(Notice { entity: e.clone(), parent: None });
                assert(r@ =~= resolved(s, parents@));
            },
        }
        i = i + 1;
    }
    assert(es@.subrange(0, es@.len() as int) =~= es@);
    (r, skipped)
}

/// Decides one cycle. A failed or absent fetch, or an unreadable snapshot,
/// ends the cycle with nothing delivered and nothing stored. Without a
/// snapshot the fetched records become the first one and nothing is
/// delivered. Otherwise the records whose identifier the snapshot lacks are
/// delivered, in fetch order, each with its referent from `parents`; those
/// whose referent is missing are skipped and listed; and the fetched records
/// replace the snapshot.
pub fn plan_cycle(fetch: FetchOutcome, baseline: BaselineRead, parents: &Vec<Entity>) -> (r:
    CyclePlan)
    ensures
        match fetch {
            FetchOutcome::Fetched(current) => match baseline {
                BaselineRead::Failed => r.notices@.len() == 0 && r.skipped@.len() == 0
                    && r.snapshot is None,
                BaselineRead::Missing => r.notices@.len() == 0 && r.skipped@.len() == 0
                    && snapshot_view(r.snapshot) == Some(ids_of(current@)),
                BaselineRead::Found(ids) => r.notices@ == resolved(novel(ids@, current@), parents@)
                    && r.skipped@ == unresolved(novel(ids@, current@), parents@)
                    && snapshot_view(r.snapshot) == Some(ids_of(current@)),
            },
            _ => r.notices@.len() == 0 && r.skipped@.len() == 0 && r.snapshot is None,
        },
{
    match fetch {
        FetchOutcome::Fetched(current) => match baseline {
            BaselineRead::Failed => CyclePlan { notices: Vec::new(), skipped: Vec::new(), snapshot: None },
            BaselineRead::Missing => CyclePlan {
                notices: Vec::new(),
                skipped: Vec::new(),
                snapshot: Some(snapshot_ids(&current)),
            },
            BaselineRead::Found(ids) => {
                let fresh = new_entities(&ids, &current);
                let (notices, skipped) = resolve_references(&fresh, parents);
                CyclePlan { notices, skipped, snapshot: Some(snapshot_ids(&current)) }
            },
        },
        _ => CyclePlan { notices: Vec::new(), skipped: Vec::new(), snapshot: None },
    }
}

proof fn lemma_first_with_id_absent(s: Seq<Entity>, id: u64)
    requires
        forall|i: int| 0 <= i < s.len() ==> s[i].spec_id() != id,
    ensures
        first_with_id(s, id) is None,
    decreases s.len(),
{
    if s.len() > 0 {
        assert(s[0].spec_id() != id);
        assert forall|i: int| 0 <= i < s.drop_first().len() implies s.drop_first()[i].spec_id()
            != id by {
            assert(s.drop_first()[i] == s[i + 1]);
        }
        lemma_first_with_id_absent(s.drop_first(), id);
    }
}

/// A vote or comment whose referent is missing from the same cycle's parent
/// fetch yields no notice.
pub proof fn lemma_unresolved_reference_skipped(es: Seq<Entity>, parents: Seq<Entity>, e: Entity)
    requires
        e.spec_parent_id() is Some,
        forall|i: int| 0 <= i < parents.len() ==> parents[i].spec_id() != e.spec_parent_id()->0,
    ensures
        forall|k: int| 0 <= k < resolved(es, parents).len() ==> resolved(es, parents)[k].entity != e,
    decreases es.len(),
{
    lemma_first_with_id_absent(parents, e.spec_parent_id()->0);
    if es.len() > 0 {
        lemma_unresolved_reference_skipped(es.drop_last(), parents, e);
        assert(resolved(es, parents) == match notice_for(es.last(), parents) {
            Some(n) => resolved(es.drop_last(), parents) + seq![n],
            None => resolved(es.drop_last(), parents),
        });
    }
}

/// A cycle run a second time on an unchanged fetch, against the snapshot the
/// first run stored, delivers nothing.
pub proof fn lemma_repeat_cycle_quiet(current: Seq<Entity>, parents: Seq<Entity>)
    ensures
        resolved(novel(ids_of(current), current), parents).len() == 0,
{
    crate::novelty::lemma_nothing_new_against_own_snapshot(current);
    assert(novel(ids_of(current), current) =~= Seq::<Entity>::empty());
}


/// Every notice of a resolution is complete and refers to a record of
/// `parents` with the identifier its record names.
pub proof fn lemma_resolved_complete(es: Seq<Entity>, parents: Seq<Entity>, k: int)
    requires
        0 <= k < resolved(es, parents).len(),
    ensures
        complete(resolved(es, parents)[k]),
        resolved(es, parents)[k].parent matches Some(p) ==> parents.contains(p) && Some(p.spec_id())
            == resolved(es, parents)[k].entity.spec_parent_id(),
    decreases es.len(),
{
    let rest = resolved(es.drop_last(), parents);
    assert(resolved(es, parents) == match notice_for(es.last(), parents) {
        Some(n) => rest + seq![n],
        None => rest,
    });
    if k < rest.len() {
        lemma_resolved_complete(es.drop_last(), parents, k);
        assert(resolved(es, parents)[k] == rest[k]);
    } else {
        let e = es.last();
        if let Some(pid) = e.spec_parent_id() {
            lemma_first_with_id_found(parents, pid);
        }
    }
}

proof fn lemma_first_with_id_found(s: Seq<Entity>, id: u64)
    ensures
        first_with_id(s, id) matches Some(p) ==> s.contains(p) && p.spec_id() == id,
    decreases s.len(),
{
    if s.len() > 0 && s[0].spec_id() != id {
        lemma_first_with_id_found(s.drop_first(), id);
        if let Some(p) = first_with_id(s.drop_first(), id) {
            let i = choose|i: int| 0 <= i < s.drop_first().len() && s.drop_first()[i] == p;
            assert(s[i + 1] == p);
        }
    }
}

} // verus!
