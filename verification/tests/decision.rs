use frame_scheduler::decision::merge;
use frame_scheduler::decision::ShouldRender;

const MS: u64 = 1_000_000;

fn samples() -> Vec<ShouldRender> {
    vec![
        ShouldRender::Immediately,
        ShouldRender::Wait,
        ShouldRender::Deadline(0),
        ShouldRender::Deadline(2 * MS),
        ShouldRender::Deadline(5 * MS),
        ShouldRender::Deadline(u64::MAX),
    ]
}

#[test]
fn merge_is_idempotent_for_all_three_variants() {
    assert_eq!(merge(ShouldRender::Immediately, ShouldRender::Immediately), ShouldRender::Immediately);
    assert_eq!(merge(ShouldRender::Wait, ShouldRender::Wait), ShouldRender::Wait);
    assert_eq!(
        merge(ShouldRender::Deadline(7 * MS), ShouldRender::Deadline(7 * MS)),
        ShouldRender::Deadline(7 * MS)
    );
}

#[test]
fn immediately_absorbs_every_decision() {
    for x in samples() {
        assert_eq!(merge(ShouldRender::Immediately, x), ShouldRender::Immediately);
        assert_eq!(merge(x, ShouldRender::Immediately), ShouldRender::Immediately);
    }
}

#[test]
fn merge_keeps_the_earlier_deadline() {
    let five_ms = ShouldRender::Deadline(5 * MS);
    let two_ms = ShouldRender::Deadline(2 * MS);
    assert_eq!(merge(five_ms, two_ms), two_ms);
    assert_eq!(merge(two_ms, five_ms), two_ms);
}

#[test]
fn wait_never_weakens_a_deadline() {
    let deadline = ShouldRender::Deadline(3 * MS);
    assert_eq!(merge(ShouldRender::Wait, deadline), deadline);
    assert_eq!(merge(deadline, ShouldRender::Wait), deadline);
}

#[test]
fn wait_merged_with_wait_is_wait() {
    assert_eq!(merge(ShouldRender::Wait, ShouldRender::Wait), ShouldRender::Wait);
}

#[test]
fn merge_is_commutative_and_associative_on_samples() {
    for a in samples() {
        for b in samples() {
            assert_eq!(merge(a, b), merge(b, a));
            for c in samples() {
                assert_eq!(merge(merge(a, b), c), merge(a, merge(b, c)));
            }
        }
    }
}

#[test]
fn update_folds_the_argument_into_the_receiver() {
    let mut decision = ShouldRender::Wait;
    decision.update(ShouldRender::Deadline(9 * MS));
    assert_eq!(decision, ShouldRender::Deadline(9 * MS));
    decision.update(ShouldRender::Deadline(12 * MS));
    assert_eq!(decision, ShouldRender::Deadline(9 * MS));
    decision.update(ShouldRender::Deadline(4 * MS));
    assert_eq!(decision, ShouldRender::Deadline(4 * MS));
    decision.update(ShouldRender::Wait);
    assert_eq!(decision, ShouldRender::Deadline(4 * MS));
    decision.update(ShouldRender::Immediately);
    assert_eq!(decision, ShouldRender::Immediately);
    decision.update(ShouldRender::Deadline(1));
    assert_eq!(decision, ShouldRender::Immediately);
    decision.update(ShouldRender::Wait);
    assert_eq!(decision, ShouldRender::Immediately);
}

#[test]
fn folding_updates_does_not_depend_on_their_order() {
    let updates = [
        ShouldRender::Wait,
        ShouldRender::Deadline(8 * MS),
        ShouldRender::Deadline(3 * MS),
        ShouldRender::Wait,
    ];
    let mut forwards = ShouldRender::Wait;
    for update in updates.iter() {
        forwards.update(*update);
    }
    let mut backwards = ShouldRender::Wait;
    for update in updates.iter().rev() {
        backwards.update(*update);
    }
    assert_eq!(forwards, ShouldRender::Deadline(3 * MS));
    assert_eq!(backwards, forwards);
}
