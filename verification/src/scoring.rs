//! The scoring system: drains the tick's event queue and adds one point to
//! the matching side's counter per event. The updated counters are read
//! back by the host for display after the tick.

use vstd::prelude::*;

use crate::components::{Score, ScoreEvent, Side};

verus! {

/// The two per-side point counters.
#[derive(Clone, Copy, Debug, PartialEq, Eq, Structural)]
pub struct Scoreboard {
    pub left: Score,
    pub right: Score,
}

impl Scoreboard {
    /// The counter for the given side.
    pub open spec fn spec_of(self, side: Side) -> Score {
        match side {
            Side::Left => self.left,
            Side::Right => self.right,
        }
    }

    /// Reads the counter for the given side.
    pub fn of(&self, side: Side) -> (r: Score)
        ensures
            r == self.spec_of(side),
    {
        match side {
            Side::Left => self.left,
            Side::Right => self.right,
        }
    }
}

/// How many events in the queue name the given side.
pub open spec fn count_side(events: Seq<ScoreEvent>, side: Side) -> nat
    decreases events.len(),
{
    if events.len() == 0 {
        0
    } else {
        count_side(events.drop_last(), side) + if events.last().side == side {
            1nat
        } else {
            0nat
        }
    }
}

/// Counting a prefix never counts more than counting the whole queue.
pub proof fn lemma_count_side_take_le(events: Seq<ScoreEvent>, side: Side, i: int)
    requires
        0 <= i <= events.len(),
    ensures
        count_side(events.take(i), side) <= count_side(events, side),
    decreases events.len() - i,
{
    if i == events.len() {
        assert(events.take(i) =~= events);
    } else {
        assert(events.take(i + 1).drop_last() =~= events.take(i));
        assert(events.take(i + 1).last() == events[i]);
        lemma_count_side_take_le(events, side, i + 1);
    }
}

/// Appending one event to a queue counts it for its own side and for no
/// other.
pub proof fn lemma_count_side_push(events: Seq<ScoreEvent>, e: ScoreEvent, side: Side)
    ensures
        count_side(events.push(e), side) == count_side(events, side) + if e.side == side {
            1nat
        } else {
            0nat
        },
{
    assert(events.push(e).drop_last() =~= events);
    assert(events.push(e).last() == e);
}

/// One scoring tick: every queued event adds exactly one point to the
/// counter of its own side and nothing to the other, the queue is drained
/// fully, and no event survives into the next tick. An empty queue leaves
/// both counters unchanged.
pub fn scoring_system(scores: &mut Scoreboard, events: &mut Vec<ScoreEvent>)
    requires
        old(scores).left.value + count_side(old(events)@, Side::Left) <= u64::MAX,
        old(scores).right.value + count_side(old(events)@, Side::Right) <= u64::MAX,
    ensures
        final(scores).left.value == old(scores).left.value + count_side(
            old(events)@,
            Side::Left,
        ),
        final(scores).right.value == old(scores).right.value + count_side(
            old(events)@,
            Side::Right,
        ),
        final(events)@.len() == 0,
{
    let ghost all = events@;
    let mut i: usize = 0;
    while i < events.len()
        invariant
            0 <= i <= all.len(),
            events@ == all,
            scores.left.value == old(scores).left.value + count_side(
                all.take(i as int),
                Side::Left,
            ),
            scores.right.value == old(scores).right.value + count_side(
                all.take(i as int),
                Side::Right,
            ),
            old(scores).left.value + count_side(all, Side::Left) <= u64::MAX,
            old(scores).right.value + count_side(all, Side::Right) <= u64::MAX,
        decreases all.len() - i,
    {
        proof {
            assert(all.take(i + 1).drop_last() =~= all.take(i as int));
            assert(all.take(i + 1).last() == all[i as int]);
            lemma_count_side_take_le(all, Side::Left, i + 1);
            lemma_count_side_take_le(all, Side::Right, i + 1);
        }
        match events[i].side {
            Side::Left => {
                scores.left.value = scores.left.value + 1;
            },
            Side::Right => {
                scores.right.value = scores.right.value + 1;
            },
        }
        i = i + 1;
    }
    proof {
        assert(all.take(all.len() as int) =~= all);
    }
    events.clear();
}

} // verus!
