//! The urgency of the next redraw, and how urgencies from several sources combine.

use vstd::prelude::*;

verus! {

/// How urgently the window needs its next redraw.
///
/// Times are nanoseconds on the caller's monotonic clock.
#[derive(Clone, Copy, Debug, PartialEq, Eq, Structural)]
pub enum ShouldRender {
    /// Redraw as soon as possible.
    Immediately,
    /// Nothing asks for a redraw.
    Wait,
    /// Redraw no later than the given time.
    Deadline(u64),
}

impl ShouldRender {
    /// The join of two urgencies: `Immediately` dominates, two deadlines keep
    /// the earlier one, and `Wait` yields to anything else.
    pub open spec fn merged(self, rhs: ShouldRender) -> ShouldRender {
        if self is Immediately || rhs is Immediately {
            ShouldRender::Immediately
        } else if self is Wait {
            rhs
        } else if rhs is Wait {
            self
        } else if rhs->Deadline_0 < self->Deadline_0 {
            rhs
        } else {
            self
        }
    }

    /// Folds `rhs` into `self`, keeping the more urgent of the two.
    pub fn update(&mut self, rhs: ShouldRender)
        ensures
            *final(self) == old(self).merged(rhs),
    {
        match (*self, rhs) {
            (ShouldRender::Immediately, _) => {},
            (_, ShouldRender::Immediately) => {
                *self = ShouldRender::Immediately;
            },
            (ShouldRender::Deadline(lhs), ShouldRender::Deadline(rhs)) => {
                if rhs < lhs {
                    *self = ShouldRender::Deadline(rhs);
                }
            },
            (ShouldRender::Deadline(_), ShouldRender::Wait) => {},
            (ShouldRender::Wait, ShouldRender::Deadline(instant)) => {
                *self = ShouldRender::Deadline(instant);
            },
            (ShouldRender::Wait, ShouldRender::Wait) => {},
        }
    }
}

impl ShouldRender {
    /// The decision after the updates of `updates` were folded in one after
    /// the other.
    pub open spec fn merged_all(self, updates: Seq<ShouldRender>) -> ShouldRender
        decreases updates.len(),
    {
        if updates.len() == 0 {
            self
        } else {
            self.merged_all(updates.drop_last()).merged(updates.last())
        }
    }

    /// Whether the decision is `self` or one of `updates`.
    pub open spec fn among(self, first: ShouldRender, updates: Seq<ShouldRender>) -> bool {
        self == first || updates.contains(self)
    }
}

/// The join of `current` and `incoming`: the more urgent of the two.
pub fn merge(current: ShouldRender, incoming: ShouldRender) -> (joined: ShouldRender)
    ensures
        joined == current.merged(incoming),
{
    let mut joined = current;
    joined.update(incoming);
    joined
}

/// Merging a decision with itself changes nothing.
pub proof fn lemma_merge_idempotent(x: ShouldRender)
    ensures
        x.merged(x) == x,
{
}

/// `Immediately` wins against every decision, on either side.
pub proof fn lemma_merge_immediately_absorbs(x: ShouldRender)
    ensures
        ShouldRender::Immediately.merged(x) == ShouldRender::Immediately,
        x.merged(ShouldRender::Immediately) == ShouldRender::Immediately,
{
}

/// `Wait` never weakens a decision: with a deadline, on either side, the
/// deadline stays, and so does any other decision.
pub proof fn lemma_merge_wait_is_neutral(x: ShouldRender, t: u64)
    ensures
        ShouldRender::Wait.merged(ShouldRender::Deadline(t)) == ShouldRender::Deadline(t),
        ShouldRender::Deadline(t).merged(ShouldRender::Wait) == ShouldRender::Deadline(t),
        ShouldRender::Wait.merged(x) == x,
        x.merged(ShouldRender::Wait) == x,
{
}

/// Two deadlines combine to the earlier one.
pub proof fn lemma_merge_keeps_earlier_deadline(a: u64, b: u64)
    ensures
        ShouldRender::Deadline(a).merged(ShouldRender::Deadline(b)) == ShouldRender::Deadline(
            if a <= b {
                a
            } else {
                b
            },
        ),
{
}

/// The order of the two operands does not matter.
pub proof fn lemma_merge_commutative(a: ShouldRender, b: ShouldRender)
    ensures
        a.merged(b) == b.merged(a),
{
}

/// The grouping of three operands does not matter.
pub proof fn lemma_merge_associative(a: ShouldRender, b: ShouldRender, c: ShouldRender)
    ensures
        a.merged(b).merged(c) == a.merged(b.merged(c)),
{
}

/// What a fold of updates comes to, said without their order: it is
/// `Immediately` exactly if a decision among them is, `Wait` exactly if all
/// are, and else the earliest of their deadlines.
pub proof fn lemma_fold_is_most_urgent(x: ShouldRender, updates: Seq<ShouldRender>)
    ensures
        x.merged_all(updates).among(x, updates),
        x.merged_all(updates) is Immediately <==> ShouldRender::Immediately.among(x, updates),
        x.merged_all(updates) is Wait <==> x is Wait && forall|i: int|
            0 <= i < updates.len() ==> updates[i] is Wait,
        forall|t: u64|
            x.merged_all(updates) is Deadline && #[trigger] ShouldRender::Deadline(t).among(
                x,
                updates,
            ) ==> x.merged_all(updates)->Deadline_0 <= t,
    decreases updates.len(),
{
    if updates.len() > 0 {
        let front = updates.drop_last();
        let last = updates.last();
        lemma_fold_is_most_urgent(x, front);
        let folded = x.merged_all(front);
        assert(updates.contains(last)) by {
            assert(updates[updates.len() - 1] == last);
        }
        assert forall|d: ShouldRender| front.contains(d) implies updates.contains(d) by {
            let i = choose|i: int| 0 <= i < front.len() && front[i] == d;
            assert(updates[i] == d);
        }
        assert forall|d: ShouldRender| updates.contains(d) implies front.contains(d) || d
            == last by {
            let i = choose|i: int| 0 <= i < updates.len() && updates[i] == d;
            if i < front.len() {
                assert(front[i] == d);
            }
        }
        assert forall|i: int| 0 <= i < front.len() implies front[i] == updates[i] by {}
        if x.merged_all(updates) is Wait {
            assert forall|i: int| 0 <= i < updates.len() implies updates[i] is Wait by {
                if i < front.len() {
                    assert(front[i] is Wait);
                }
            }
        }
        if x is Wait && (forall|i: int| 0 <= i < updates.len() ==> updates[i] is Wait) {
            assert forall|i: int| 0 <= i < front.len() implies front[i] is Wait by {
                assert(updates[i] is Wait);
            }
            assert(updates[updates.len() - 1] is Wait);
        }
        assert forall|t: u64|
            x.merged_all(updates) is Deadline && #[trigger] ShouldRender::Deadline(t).among(
                x,
                updates,
            ) implies x.merged_all(updates)->Deadline_0 <= t by {
            let d = ShouldRender::Deadline(t);
            if d == x || front.contains(d) {
                assert(d.among(x, front));
            }
        }
    }
}

/// Folding the same updates in another order gives the same decision.
pub proof fn lemma_fold_is_order_insensitive(
    x: ShouldRender,
    updates: Seq<ShouldRender>,
    reordered: Seq<ShouldRender>,
)
    requires
        updates.to_multiset() == reordered.to_multiset(),
    ensures
        x.merged_all(updates) == x.merged_all(reordered),
{
    lemma_fold_is_most_urgent(x, updates);
    lemma_fold_is_most_urgent(x, reordered);
    updates.to_multiset_ensures();
    reordered.to_multiset_ensures();
    assert forall|d: ShouldRender| updates.contains(d) <==> reordered.contains(d) by {
        assert(updates.contains(d) <==> updates.to_multiset().count(d) > 0);
        assert(reordered.contains(d) <==> reordered.to_multiset().count(d) > 0);
    }
    let a = x.merged_all(updates);
    let b = x.merged_all(reordered);
    assert(a.among(x, reordered));
    assert(b.among(x, updates));
    if a is Wait {
        assert forall|i: int| 0 <= i < reordered.len() implies reordered[i] is Wait by {
            assert(reordered.contains(reordered[i]));
            let j = choose|j: int| 0 <= j < updates.len() && updates[j] == reordered[i];
            assert(updates[j] is Wait);
        }
    }
    if b is Wait {
        assert forall|i: int| 0 <= i < updates.len() implies updates[i] is Wait by {
            assert(updates.contains(updates[i]));
            let j = choose|j: int| 0 <= j < reordered.len() && reordered[j] == updates[i];
            assert(reordered[j] is Wait);
        }
    }
    if a is Deadline && b is Deadline {
        assert(ShouldRender::Deadline(a->Deadline_0) == a);
        assert(ShouldRender::Deadline(b->Deadline_0) == b);
        assert(ShouldRender::Deadline(a->Deadline_0).among(x, reordered));
        assert(ShouldRender::Deadline(b->Deadline_0).among(x, updates));
    }
}

} // verus!
