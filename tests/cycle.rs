use gov_notifier::cycle::{plan_cycle, resolve_references, BaselineRead, FetchOutcome};
use gov_notifier::dispatch::{fan_in, fanout, finish_cycle, Job};
use gov_notifier::entity::{Entity, Proposal, Vote};
use gov_notifier::novelty::{contains_id, new_entities, snapshot_ids};

fn proposal(id: u64) -> Entity {
    Entity::Proposal(Proposal {
        id,
        title: format!("Proposal {}", id),
        proposer: "0x1234567890abcdef1234567890abcdef12345678".to_string(),
    })
}

fn vote(id: u64, parent_id: u64) -> Entity {
    Entity::Vote(Vote {
        id,
        parent_id,
        voter: "0xabcdef".to_string(),
        direction: 1,
    })
}

fn proposals(ids: &[u64]) -> Vec<Entity> {
    ids.iter().map(|&i| proposal(i)).collect()
}

fn notice_ids(plan: &gov_notifier::cycle::CyclePlan) -> Vec<u64> {
    plan.notices.iter().map(|n| n.entity.id()).collect()
}

#[test]
fn cold_start_sends_nothing_and_stores_fetch() {
    let plan = plan_cycle(FetchOutcome::Fetched(proposals(&[1, 2, 3])), BaselineRead::Missing, &vec![]);
    assert!(plan.notices.is_empty());
    assert_eq!(plan.snapshot, Some(vec![1, 2, 3]));
}

#[test]
fn one_new_id_gives_one_notice() {
    let plan = plan_cycle(
        FetchOutcome::Fetched(proposals(&[1, 2, 3, 4])),
        BaselineRead::Found(vec![1, 2, 3]),
        &vec![],
    );
    assert_eq!(notice_ids(&plan), vec![4]);
    assert_eq!(plan.snapshot, Some(vec![1, 2, 3, 4]));
}

#[test]
fn vanished_id_is_not_notified_and_drops_out() {
    let plan = plan_cycle(
        FetchOutcome::Fetched(proposals(&[2, 3])),
        BaselineRead::Found(vec![1, 2, 3]),
        &vec![],
    );
    assert!(plan.notices.is_empty());
    assert_eq!(plan.snapshot, Some(vec![2, 3]));
}

#[test]
fn second_run_on_same_fetch_is_quiet() {
    let first = plan_cycle(
        FetchOutcome::Fetched(proposals(&[5, 6])),
        BaselineRead::Found(vec![5]),
        &vec![],
    );
    assert_eq!(notice_ids(&first), vec![6]);
    let stored = first.snapshot.unwrap();
    let second = plan_cycle(FetchOutcome::Fetched(proposals(&[5, 6])), BaselineRead::Found(stored), &vec![]);
    assert!(second.notices.is_empty());
    assert_eq!(second.snapshot, Some(vec![5, 6]));
}

#[test]
fn failed_or_absent_fetch_changes_nothing() {
    let a = plan_cycle(FetchOutcome::Failed, BaselineRead::Found(vec![1]), &vec![]);
    assert!(a.notices.is_empty());
    assert_eq!(a.snapshot, None);
    let b = plan_cycle(FetchOutcome::Absent, BaselineRead::Missing, &vec![]);
    assert!(b.notices.is_empty());
    assert_eq!(b.snapshot, None);
}

#[test]
fn unreadable_snapshot_ends_cycle() {
    let plan = plan_cycle(FetchOutcome::Fetched(proposals(&[1, 2])), BaselineRead::Failed, &vec![]);
    assert!(plan.notices.is_empty());
    assert_eq!(plan.snapshot, None);
}

#[test]
fn empty_fetch_replaces_snapshot() {
    let plan = plan_cycle(FetchOutcome::Fetched(vec![]), BaselineRead::Found(vec![1, 2]), &vec![]);
    assert!(plan.notices.is_empty());
    assert_eq!(plan.snapshot, Some(vec![]));
}

#[test]
fn novelty_keeps_fetch_order() {
    let fresh = new_entities(&vec![2, 9], &proposals(&[7, 2, 3, 9, 1]));
    let ids: Vec<u64> = fresh.iter().map(|e| e.id()).collect();
    assert_eq!(ids, vec![7, 3, 1]);
    assert_eq!(snapshot_ids(&proposals(&[7, 2])), vec![7, 2]);
    assert!(contains_id(&vec![4, 5], 5));
    assert!(!contains_id(&vec![], 5));
}

#[test]
fn vote_with_missing_proposal_is_skipped() {
    let parents = proposals(&[10, 11]);
    let plan = plan_cycle(
        FetchOutcome::Fetched(vec![vote(1, 10), vote(2, 99), vote(3, 11)]),
        BaselineRead::Found(vec![]),
        &parents,
    );
    assert_eq!(notice_ids(&plan), vec![1, 3]);
    assert_eq!(plan.notices[0].parent.as_ref().map(|p| p.id()), Some(10));
    assert_eq!(plan.notices[1].parent.as_ref().map(|p| p.id()), Some(11));
    assert_eq!(plan.skipped, vec![2]);
    assert_eq!(plan.snapshot, Some(vec![1, 2, 3]));
}

#[test]
fn referent_is_first_with_its_id() {
    let parents = vec![proposal(4), proposal(5)];
    let (notices, skipped) = resolve_references(&vec![vote(1, 5), proposal(8), vote(2, 6)], &parents);
    assert_eq!(skipped, vec![2]);
    assert_eq!(notices.len(), 2);
    assert_eq!(notices[0].parent.as_ref().map(|p| p.id()), Some(5));
    assert!(notices[1].parent.is_none());
}

#[test]
fn fanout_covers_every_pair() {
    let jobs = fanout(2, 3);
    assert_eq!(jobs.len(), 6);
    assert_eq!(jobs[0], Job { notice: 0, handler: 0 });
    assert_eq!(jobs[4], Job { notice: 1, handler: 1 });
    assert_eq!(jobs[5], Job { notice: 1, handler: 2 });
    assert!(fanout(0, 3).is_empty());
    assert!(fanout(3, 0).is_empty());
}

#[test]
fn failing_delivery_does_not_hide_others() {
    let jobs = fanout(2, 2);
    // every delivery of notice 0 fails
    let outcomes = vec![false, false, true, true];
    let report = fan_in(&jobs, &outcomes);
    assert_eq!(report.delivered, vec![Job { notice: 1, handler: 0 }, Job { notice: 1, handler: 1 }]);
    assert_eq!(report.failed, vec![Job { notice: 0, handler: 0 }, Job { notice: 0, handler: 1 }]);
}

#[test]
fn snapshot_written_whatever_deliveries_did() {
    let plan = plan_cycle(
        FetchOutcome::Fetched(proposals(&[1, 2])),
        BaselineRead::Found(vec![1]),
        &vec![],
    );
    let jobs = fanout(plan.notices.len(), 2);
    let outcomes = vec![false; jobs.len()];
    let done = finish_cycle(plan, &jobs, &outcomes);
    assert_eq!(done.snapshot, Some(vec![1, 2]));
    assert!(done.report.delivered.is_empty());
    assert_eq!(done.report.failed.len(), 2);
}
