use vstd::prelude::*;

verus! {

/// Whether a run is under way or has ended in a collision.
#[derive(Debug, Clone, Copy, PartialEq, Eq, Structural)]
pub enum GameState {
    Playing,
    GameOver,
}

impl Default for GameState {
    fn default() -> (r: Self)
        ensures
            r == GameState::Playing,
    {
        GameState::Playing
    }
}

/// The number of enemies the player has outrun.
#[derive(Debug, Clone, Copy, PartialEq, Eq, Structural)]
pub struct Score(pub u32);

impl Score {
    /// Counts one more enemy that left the screen.
    pub fn add_point(&mut self)
        requires
            old(self).0 < u32::MAX,
        ensures
            final(self).0 == old(self).0 + 1,
    {
        self.0 = self.0 + 1;
    }
}

/// The first and last sprite index of an animation.
#[derive(Debug, Clone, Copy, PartialEq, Eq, Structural)]
pub struct AnimationIndices {
    pub first: usize,
    pub last: usize,
}

/// The sprite index that follows `index` in an animation running from
/// `first` to `last`: the next one, or `first` again from `last` on.
pub open spec fn next_in_cycle(first: nat, last: nat, index: nat) -> nat {
    if index >= last {
        first
    } else {
        index + 1
    }
}

/// The sprite index reached after `n` ticks from `index`.
pub open spec fn cycle_after(first: nat, last: nat, index: nat, n: nat) -> nat
    decreases n,
{
    if n == 0 {
        index
    } else {
        cycle_after(first, last, next_in_cycle(first, last, index), (n - 1) as nat)
    }
}

impl AnimationIndices {
    /// The sprite index that follows `index` in this animation.
    pub fn next_index(&self, index: usize) -> (r: usize)
        ensures
            r == next_in_cycle(self.first as nat, self.last as nat, index as nat),
    {
        if index >= self.last {
            self.first
        } else {
            index + 1
        }
    }
}

/// An animation that starts inside its range stays inside it.
pub proof fn lemma_cycle_stays_in_range(first: nat, last: nat, index: nat)
    requires
        first <= index <= last,
    ensures
        first <= next_in_cycle(first, last, index) <= last,
{
}

/// From its first index, an animation passes through every index up to its
/// last one and is back at the first after `last - first + 1` ticks.
pub proof fn lemma_cycle_period(first: nat, last: nat, k: nat)
    requires
        first <= last,
        k <= last - first,
    ensures
        cycle_after(first, last, first, k) == first + k,
        cycle_after(first, last, first, (last - first + 1) as nat) == first,
{
    lemma_cycle_walk(first, last, 0, k);
    lemma_cycle_walk(first, last, 0, (last - first) as nat);
    lemma_cycle_split(first, last, first, (last - first) as nat, 1);
    assert(cycle_after(first, last, last, 1) == cycle_after(first, last, first, 0));
}

proof fn lemma_cycle_walk(first: nat, last: nat, j: nat, k: nat)
    requires
        first + j + k <= last,
    ensures
        cycle_after(first, last, first + j, k) == first + j + k,
    decreases k,
{
    if k > 0 {
        lemma_cycle_walk(first, last, j + 1, (k - 1) as nat);
    }
}

proof fn lemma_cycle_split(first: nat, last: nat, index: nat, a: nat, b: nat)
    ensures
        cycle_after(first, last, index, a + b) == cycle_after(
            first,
            last,
            cycle_after(first, last, index, a),
            b,
        ),
    decreases a,
{
    if a > 0 {
        lemma_cycle_split(first, last, next_in_cycle(first, last, index), (a - 1) as nat, b);
        assert((a + b - 1) as nat == ((a - 1) as nat + b) as nat);
    }
}

} // verus!
