//! Request ids: a counter that hands out each value once, in increasing order.

use vstd::prelude::*;

verus! {

/// Hands out request ids, starting from a seed and going up by one each time.
pub struct NonceGenerator {
    next_id: u64,
}

impl View for NonceGenerator {
    type V = u64;

    /// The id that the next draw returns.
    closed spec fn view(&self) -> u64 {
        self.next_id
    }
}

/// One draw: from state `before` the id `id` comes out and `after` is left.
pub open spec fn draw_step(before: u64, id: u64, after: u64) -> bool {
    id == before && after == before + 1
}

/// `ids` came out of `ids.len()` draws in a row that went through `states`.
pub open spec fn drawn_in_order(states: Seq<u64>, ids: Seq<u64>) -> bool {
    &&& states.len() == ids.len() + 1
    &&& forall|i: int| 0 <= i < ids.len() ==> draw_step(states[i], #[trigger] ids[i], states[i + 1])
}

impl NonceGenerator {
    /// A generator whose first id is `seed`.
    pub fn new(seed: u64) -> (r: NonceGenerator)
        ensures
            r@ == seed,
    {
        NonceGenerator { next_id: seed }
    }

    /// The id that the next draw returns.
    pub fn upcoming(&self) -> (r: u64)
        ensures
            r == self@,
    {
        self.next_id
    }

    /// Whether another id can be drawn.
    pub fn can_draw(&self) -> (r: bool)
        ensures
            r == (self@ < u64::MAX),
    {
        self.next_id < u64::MAX
    }

    /// Draws a fresh id, greater than every id drawn before from this generator.
    pub fn next(&mut self) -> (id: u64)
        requires
            old(self)@ < u64::MAX,
        ensures
            draw_step(old(self)@, id, final(self)@),
    {
        let id = self.next_id;
        self.next_id = self.next_id + 1;
        id
    }
}

proof fn lemma_states_count_up(states: Seq<u64>, ids: Seq<u64>, i: int)
    requires
        drawn_in_order(states, ids),
        0 <= i <= ids.len(),
    ensures
        states[i] == states[0] + i,
    decreases i,
{
    if i > 0 {
        lemma_states_count_up(states, ids, i - 1);
        let k = i - 1;
        assert(draw_step(states[k], ids[k], states[k + 1]));
    }
}

/// Ids drawn one after another from one generator are strictly increasing,
/// hence pairwise distinct, and each is at least the generator's first state.
pub proof fn lemma_drawn_ids_increase(states: Seq<u64>, ids: Seq<u64>)
    requires
        drawn_in_order(states, ids),
    ensures
        forall|i: int, j: int| 0 <= i < j < ids.len() ==> ids[i] < ids[j],
        forall|i: int, j: int| 0 <= i < ids.len() && 0 <= j < ids.len() && i != j ==> ids[i] != ids[j],
        forall|i: int| 0 <= i < ids.len() ==> states[0] <= #[trigger] ids[i] < states[ids.len() as int],
{
    assert forall|i: int| 0 <= i < ids.len() implies ids[i] == states[0] + i by {
        lemma_states_count_up(states, ids, i);
        assert(draw_step(states[i], ids[i], states[i + 1]));
    }
    lemma_states_count_up(states, ids, ids.len() as int);
}

} // verus!
