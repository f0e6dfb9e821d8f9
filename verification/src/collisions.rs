use vstd::prelude::*;

verus! {

/// The explosion shown where an enemy hit the player.
#[derive(Debug, Clone, Copy, PartialEq, Eq, Structural)]
pub struct CollisionEffect {
    pub current_frame: u32,
    pub max_frame: u32,
}

/// What an effect does on a tick of its timer.
#[derive(Debug, Clone, Copy, PartialEq, Eq, Structural)]
pub enum EffectTick {
    /// The animation is over: the effect goes away.
    Despawn,
    /// Show this sprite index.
    Show(usize),
}

/// What a tick does once it has brought the effect to `frame`.
pub open spec fn tick_outcome(frame: nat, max_frame: nat) -> EffectTick {
    if frame > max_frame {
        EffectTick::Despawn
    } else {
        EffectTick::Show(frame as usize)
    }
}

impl CollisionEffect {
    /// A new effect, on its first frame, whose animation ends after frame 4.
    pub fn new() -> (r: Self)
        ensures
            r.current_frame == 0,
            r.max_frame == 4,
    {
        CollisionEffect { current_frame: 0, max_frame: 4 }
    }

    /// Advances the effect by one frame; past its last frame it is removed.
    pub fn advance(&mut self) -> (r: EffectTick)
        requires
            old(self).current_frame < u32::MAX,
        ensures
            final(self).current_frame == old(self).current_frame + 1,
            final(self).max_frame == old(self).max_frame,
            r == tick_outcome(final(self).current_frame as nat, final(self).max_frame as nat),
    {
        self.current_frame = self.current_frame + 1;
        if self.current_frame > self.max_frame {
            EffectTick::Despawn
        } else {
            EffectTick::Show(self.current_frame as usize)
        }
    }
}

/// A fresh effect is shown frame by frame: its `k`-th tick shows frame `k`
/// for every `k` up to its last frame, and the tick after that removes it.
pub proof fn lemma_effect_lifetime(max_frame: nat, k: nat)
    requires
        1 <= k <= max_frame + 1,
        max_frame < usize::MAX,
    ensures
        k <= max_frame ==> tick_outcome(k, max_frame) == EffectTick::Show(k as usize),
        k == max_frame + 1 ==> tick_outcome(k, max_frame) == EffectTick::Despawn,
{
}

} // verus!
