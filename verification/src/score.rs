use vstd::prelude::*;

verus! {

/// Points and collisions of a run, with the number of collisions the run
/// allows.
#[derive(Debug, Clone, Copy, PartialEq, Eq, Structural)]
pub struct Score {
    pub value: u32,
    pub collisions: u32,
    pub max_collisions: u32,
}

impl Default for Score {
    /// A fresh score: nothing counted yet, and three collisions allowed.
    fn default() -> (r: Self)
        ensures
            r.value == 0,
            r.collisions == 0,
            r.max_collisions == 3,
    {
        Score { value: 0, collisions: 0, max_collisions: 3 }
    }
}

impl Score {
    /// Counts a collision with an enemy: it earns a point and adds to the
    /// collisions; the allowance is unchanged.
    pub fn record_collision(&mut self)
        requires
            old(self).value < u32::MAX,
            old(self).collisions < u32::MAX,
        ensures
            final(self).value == old(self).value + 1,
            final(self).collisions == old(self).collisions + 1,
            final(self).max_collisions == old(self).max_collisions,
    {
        self.value = self.value + 1;
        self.collisions = self.collisions + 1;
    }
}

} // verus!
