use vstd::prelude::*;

use crate::input::PlayerInput;
use crate::state::{is_jumping, sprite_last_frame, sprite_row, transition, PlayerState};

verus! {

/// Number of frames in one row of the player's sprite sheet.
pub const SPRITE_COLUMNS: usize = 9;

/// The sprite index of the first frame of a state's animation.
pub open spec fn row_start(s: PlayerState) -> nat {
    sprite_row(s) * 9
}

/// What one run of the player's state system decides.
#[derive(Debug, Clone, Copy, PartialEq, Eq, Structural)]
pub struct StateStep {
    /// The player's state after the step.
    pub state: PlayerState,
    /// Whether the player takes off: its vertical velocity becomes the jump force.
    pub launch: bool,
    /// The sprite index to show, when the state changed.
    pub atlas_index: Option<usize>,
}

/// One run of the player's state system: applies the transition table to
/// the last input; on a change it starts the new state's animation and, when
/// a jump starts from the ground, launches the player.
pub fn player_state_step(
    current: PlayerState,
    input: PlayerInput,
    on_ground: bool,
    descending: bool,
) -> (r: StateStep)
    ensures
        match transition(current, input, on_ground, descending) {
            Some(n) => {
                &&& r.state == n
                &&& r.launch == (is_jumping(n) && on_ground)
                &&& r.atlas_index == Some(row_start(n) as usize)
            },
            None => {
                &&& r.state == current
                &&& !r.launch
                &&& r.atlas_index is None
            },
        },
{
    match current.next_state(input, on_ground, descending) {
        Some(new_state) => {
            let launch = match new_state {
                PlayerState::JumpingLeft | PlayerState::JumpingRight => on_ground,
                _ => false,
            };
            let (frame_y, _) = new_state.get_sprite_info();
            StateStep { state: new_state, launch, atlas_index: Some(frame_y * SPRITE_COLUMNS) }
        },
        None => StateStep { state: current, launch: false, atlas_index: None },
    }
}

/// The sprite index that follows `index` in the animation of state `s`:
/// the next frame of the state's row, wrapping to the row's first frame
/// after its last one (an index before the row counts as its first frame).
pub open spec fn animation_step(s: PlayerState, index: int) -> int {
    let start = row_start(s) as int;
    let offset = if index >= start {
        index - start
    } else {
        0
    };
    if offset < sprite_last_frame(s) {
        start + offset + 1
    } else {
        start
    }
}

/// The sprite index reached after `n` animation ticks from `index`.
pub open spec fn animation_after(s: PlayerState, index: int, n: nat) -> int
    decreases n,
{
    if n == 0 {
        index
    } else {
        animation_after(s, animation_step(s, index), (n - 1) as nat)
    }
}

/// One tick of the player's animation.
pub fn player_animation_step(state: PlayerState, index: usize) -> (r: usize)
    ensures
        r == animation_step(state, index as int),
{
    let (frame_y, max_frame) = state.get_sprite_info();
    let start_idx = frame_y * SPRITE_COLUMNS;
    let current_offset = if index >= start_idx {
        index - start_idx
    } else {
        0
    };
    if current_offset < max_frame {
        start_idx + current_offset + 1
    } else {
        start_idx
    }
}

/// However many ticks pass, and from whatever index the sprite started, the
/// animation shows only frames of the state's own row.
pub proof fn lemma_animation_never_leaves_row(s: PlayerState, index: int, n: nat)
    requires
        n >= 1,
    ensures
        row_start(s) <= animation_after(s, index, n) <= row_start(s) + sprite_last_frame(s),
    decreases n,
{
    if n > 1 {
        lemma_animation_never_leaves_row(s, animation_step(s, index), (n - 1) as nat);
    } else {
        assert(animation_after(s, animation_step(s, index), 0) == animation_step(s, index));
    }
}

/// Starting at the first frame of its row, a state's animation shows the
/// frames of the row in order and is back at the first one after
/// `last frame + 1` ticks.
pub proof fn lemma_animation_cycles(s: PlayerState, k: nat)
    requires
        k <= sprite_last_frame(s),
    ensures
        animation_after(s, row_start(s) as int, k) == row_start(s) + k,
        animation_after(s, row_start(s) as int, (sprite_last_frame(s) + 1) as nat) == row_start(
            s,
        ),
{
    let start = row_start(s) as int;
    let last = sprite_last_frame(s);
    lemma_animation_after_offset(s, 0, k);
    lemma_animation_after_offset(s, 0, last);
    assert(animation_after(s, start, (last + 1) as nat) == animation_after(
        s,
        animation_after(s, start, last),
        1,
    )) by {
        lemma_animation_after_split(s, start, last, 1);
    }
    assert(animation_step(s, start + last) == start);
    assert(animation_after(s, start + last, 1) == animation_after(s, start, 0));
}

proof fn lemma_animation_after_offset(s: PlayerState, j: nat, k: nat)
    requires
        j + k <= sprite_last_frame(s),
    ensures
        animation_after(s, (row_start(s) + j) as int, k) == row_start(s) + j + k,
    decreases k,
{
    if k > 0 {
        assert(animation_step(s, (row_start(s) + j) as int) == row_start(s) + j + 1);
        lemma_animation_after_offset(s, j + 1, (k - 1) as nat);
    }
}

proof fn lemma_animation_after_split(s: PlayerState, i: int, a: nat, b: nat)
    ensures
        animation_after(s, i, a + b) == animation_after(s, animation_after(s, i, a), b),
    decreases a,
{
    if a > 0 {
        lemma_animation_after_split(s, animation_step(s, i), (a - 1) as nat, b);
        assert((a + b - 1) as nat == ((a - 1) as nat + b) as nat);
    }
}

} // verus!
