use vstd::prelude::*;

use crate::input::{is_press, PlayerInput};

verus! {

/// What the player is doing, and which way they face.
#[derive(Debug, Clone, Copy, PartialEq, Eq, Structural)]
pub enum PlayerState {
    StandingLeft,
    StandingRight,
    SittingLeft,
    SittingRight,
    RunningLeft,
    RunningRight,
    JumpingLeft,
    JumpingRight,
    FallingLeft,
    FallingRight,
}

impl Default for PlayerState {
    fn default() -> (s: Self)
        ensures
            s == PlayerState::StandingRight,
    {
        PlayerState::StandingRight
    }
}

/// The row of the sprite sheet that holds a state's animation.
pub open spec fn sprite_row(s: PlayerState) -> nat {
    match s {
        PlayerState::StandingRight => 0,
        PlayerState::StandingLeft => 1,
        PlayerState::JumpingRight => 2,
        PlayerState::JumpingLeft => 3,
        PlayerState::FallingRight => 4,
        PlayerState::FallingLeft => 5,
        PlayerState::RunningRight => 6,
        PlayerState::RunningLeft => 7,
        PlayerState::SittingRight => 8,
        PlayerState::SittingLeft => 9,
    }
}

/// The offset of the last animation frame within a state's row.
pub open spec fn sprite_last_frame(s: PlayerState) -> nat {
    match s {
        PlayerState::RunningRight | PlayerState::RunningLeft => 8,
        PlayerState::SittingRight | PlayerState::SittingLeft => 4,
        _ => 6,
    }
}

pub open spec fn faces_left(s: PlayerState) -> bool {
    match s {
        PlayerState::StandingLeft | PlayerState::SittingLeft | PlayerState::RunningLeft
        | PlayerState::JumpingLeft | PlayerState::FallingLeft => true,
        _ => false,
    }
}

pub open spec fn is_grounded_posture(s: PlayerState) -> bool {
    match s {
        PlayerState::StandingLeft | PlayerState::StandingRight | PlayerState::SittingLeft
        | PlayerState::SittingRight => true,
        _ => false,
    }
}

pub open spec fn is_standing(s: PlayerState) -> bool {
    s == PlayerState::StandingLeft || s == PlayerState::StandingRight
}

pub open spec fn is_sitting(s: PlayerState) -> bool {
    s == PlayerState::SittingLeft || s == PlayerState::SittingRight
}

pub open spec fn is_falling(s: PlayerState) -> bool {
    s == PlayerState::FallingLeft || s == PlayerState::FallingRight
}

/// Whether `input` presses the direction opposite to the one `s` faces.
pub open spec fn turns_around(s: PlayerState, input: PlayerInput) -> bool {
    if faces_left(s) {
        input == PlayerInput::PressRight
    } else {
        input == PlayerInput::PressLeft
    }
}

/// Whether `input` releases the key of the direction `s` faces.
pub open spec fn releases_facing_key(s: PlayerState, input: PlayerInput) -> bool {
    if faces_left(s) {
        input == PlayerInput::ReleaseLeft
    } else {
        input == PlayerInput::ReleaseRight
    }
}

pub open spec fn is_running(s: PlayerState) -> bool {
    s == PlayerState::RunningLeft || s == PlayerState::RunningRight
}

pub open spec fn is_jumping(s: PlayerState) -> bool {
    s == PlayerState::JumpingLeft || s == PlayerState::JumpingRight
}

pub open spec fn is_airborne(s: PlayerState) -> bool {
    match s {
        PlayerState::JumpingLeft | PlayerState::JumpingRight | PlayerState::FallingLeft
        | PlayerState::FallingRight => true,
        _ => false,
    }
}

/// The transition table of the player's state machine: the state that
/// follows `s` on `input`, when the player is `on_ground` or not and is
/// `descending` (vertical velocity below zero) or not; `None` keeps `s`.
pub open spec fn transition(
    s: PlayerState,
    input: PlayerInput,
    on_ground: bool,
    descending: bool,
) -> Option<PlayerState> {
    match s {
        PlayerState::StandingLeft => match input {
            PlayerInput::PressRight => Some(PlayerState::RunningRight),
            PlayerInput::PressLeft => Some(PlayerState::RunningLeft),
            PlayerInput::PressDown => Some(PlayerState::SittingLeft),
            PlayerInput::PressUp => Some(PlayerState::JumpingLeft),
            _ => None,
        },
        PlayerState::StandingRight => match input {
            PlayerInput::PressLeft => Some(PlayerState::RunningLeft),
            PlayerInput::PressRight => Some(PlayerState::RunningRight),
            PlayerInput::PressDown => Some(PlayerState::SittingRight),
            PlayerInput::PressUp => Some(PlayerState::JumpingRight),
            _ => None,
        },
        PlayerState::SittingLeft => match input {
            PlayerInput::PressRight => Some(PlayerState::SittingRight),
            PlayerInput::ReleaseDown => Some(PlayerState::StandingLeft),
            _ => None,
        },
        PlayerState::SittingRight => match input {
            PlayerInput::PressLeft => Some(PlayerState::SittingLeft),
            PlayerInput::ReleaseDown => Some(PlayerState::StandingRight),
            _ => None,
        },
        PlayerState::RunningLeft => match input {
            PlayerInput::PressRight => Some(PlayerState::RunningRight),
            PlayerInput::ReleaseLeft | PlayerInput::PressDown => Some(PlayerState::StandingLeft),
            _ => None,
        },
        PlayerState::RunningRight => match input {
            PlayerInput::PressLeft => Some(PlayerState::RunningLeft),
            PlayerInput::ReleaseRight | PlayerInput::PressDown => Some(PlayerState::StandingRight),
            _ => None,
        },
        PlayerState::JumpingLeft => if input == PlayerInput::PressRight {
            Some(PlayerState::JumpingRight)
        } else if on_ground {
            Some(PlayerState::StandingLeft)
        } else if descending {
            Some(PlayerState::FallingLeft)
        } else {
            None
        },
        PlayerState::JumpingRight => if input == PlayerInput::PressLeft {
            Some(PlayerState::JumpingLeft)
        } else if on_ground {
            Some(PlayerState::StandingRight)
        } else if descending {
            Some(PlayerState::FallingRight)
        } else {
            None
        },
        PlayerState::FallingLeft => if input == PlayerInput::PressRight {
            Some(PlayerState::FallingRight)
        } else if on_ground {
            Some(PlayerState::StandingRight)
        } else {
            None
        },
        PlayerState::FallingRight => if input == PlayerInput::PressLeft {
            Some(PlayerState::FallingLeft)
        } else if on_ground {
            Some(PlayerState::StandingRight)
        } else {
            None
        },
    }
}

/// The horizontal speed a state aims for, as a fraction of the player's
/// maximum speed.
#[derive(Debug, Clone, Copy, PartialEq, Eq, Structural)]
pub enum TargetSpeed {
    Zero,
    FullLeft,
    FullRight,
    HalfLeft,
    HalfRight,
}

/// A target speed in halves of the maximum speed, negative to the left.
pub open spec fn speed_in_halves(t: TargetSpeed) -> int {
    match t {
        TargetSpeed::Zero => 0,
        TargetSpeed::FullLeft => -2,
        TargetSpeed::FullRight => 2,
        TargetSpeed::HalfLeft => -1,
        TargetSpeed::HalfRight => 1,
    }
}

/// The text shown for a state in the status overlay.
pub open spec fn state_label(s: PlayerState) -> Seq<char> {
    match s {
        PlayerState::StandingLeft => "STANDING LEFT"@,
        PlayerState::StandingRight => "STANDING RIGHT"@,
        PlayerState::SittingLeft => "SITTING LEFT"@,
        PlayerState::SittingRight => "SITTING RIGHT"@,
        PlayerState::RunningLeft => "RUNNING LEFT"@,
        PlayerState::RunningRight => "RUNNING RIGHT"@,
        PlayerState::JumpingLeft => "JUMPING LEFT"@,
        PlayerState::JumpingRight => "JUMPING RIGHT"@,
        PlayerState::FallingLeft => "FALLING LEFT"@,
        PlayerState::FallingRight => "FALLING RIGHT"@,
    }
}

impl PlayerState {
    /// Returns (row index on the sprite sheet, last animation frame offset).
    pub fn get_sprite_info(&self) -> (r: (usize, usize))
        ensures
            r.0 == sprite_row(*self),
            r.1 == sprite_last_frame(*self),
    {
        match self {
            PlayerState::StandingRight => (0, 6),
            PlayerState::StandingLeft => (1, 6),
            PlayerState::JumpingRight => (2, 6),
            PlayerState::JumpingLeft => (3, 6),
            PlayerState::FallingRight => (4, 6),
            PlayerState::FallingLeft => (5, 6),
            PlayerState::RunningRight => (6, 8),
            PlayerState::RunningLeft => (7, 8),
            PlayerState::SittingRight => (8, 4),
            PlayerState::SittingLeft => (9, 4),
        }
    }

    /// The speed this state aims for: none when standing or sitting, full
    /// speed when running, half speed in the air, signed by the facing.
    pub fn get_target_speed(&self) -> (t: TargetSpeed)
        ensures
            is_grounded_posture(*self) ==> t == TargetSpeed::Zero,
            is_running(*self) ==> speed_in_halves(t) == if faces_left(*self) { -2int } else { 2int },
            is_airborne(*self) ==> speed_in_halves(t) == if faces_left(*self) { -1int } else { 1int },
    {
        match self {
            PlayerState::StandingLeft
            | PlayerState::StandingRight
            | PlayerState::SittingLeft
            | PlayerState::SittingRight => TargetSpeed::Zero,
            PlayerState::RunningLeft => TargetSpeed::FullLeft,
            PlayerState::RunningRight => TargetSpeed::FullRight,
            PlayerState::JumpingLeft | PlayerState::FallingLeft => TargetSpeed::HalfLeft,
            PlayerState::JumpingRight | PlayerState::FallingRight => TargetSpeed::HalfRight,
        }
    }

    /// The state that follows this one on `input`; `descending` tells
    /// whether the player's vertical velocity is below zero.
    pub fn next_state(&self, input: PlayerInput, on_ground: bool, descending: bool) -> (r: Option<
        PlayerState,
    >)
        ensures
            r == transition(*self, input, on_ground, descending),
    {
        match self {
            PlayerState::StandingLeft => match input {
                PlayerInput::PressRight => Some(PlayerState::RunningRight),
                PlayerInput::PressLeft => Some(PlayerState::RunningLeft),
                PlayerInput::PressDown => Some(PlayerState::SittingLeft),
                PlayerInput::PressUp => Some(PlayerState::JumpingLeft),
                _ => None,
            },
            PlayerState::StandingRight => match input {
                PlayerInput::PressLeft => Some(PlayerState::RunningLeft),
                PlayerInput::PressRight => Some(PlayerState::RunningRight),
                PlayerInput::PressDown => Some(PlayerState::SittingRight),
                PlayerInput::PressUp => Some(PlayerState::JumpingRight),
                _ => None,
            },
            PlayerState::SittingLeft => match input {
                PlayerInput::PressRight => Some(PlayerState::SittingRight),
                PlayerInput::ReleaseDown => Some(PlayerState::StandingLeft),
                _ => None,
            },
            PlayerState::SittingRight => match input {
                PlayerInput::PressLeft => Some(PlayerState::SittingLeft),
                PlayerInput::ReleaseDown => Some(PlayerState::StandingRight),
                _ => None,
            },
            PlayerState::RunningLeft => match input {
                PlayerInput::PressRight => Some(PlayerState::RunningRight),
                PlayerInput::ReleaseLeft | PlayerInput::PressDown => {
                    Some(PlayerState::StandingLeft)
                },
                _ => None,
            },
            PlayerState::RunningRight => match input {
                PlayerInput::PressLeft => Some(PlayerState::RunningLeft),
                PlayerInput::ReleaseRight | PlayerInput::PressDown => {
                    Some(PlayerState::StandingRight)
                },
                _ => None,
            },
            PlayerState::JumpingLeft => {
                if input == PlayerInput::PressRight {
                    Some(PlayerState::JumpingRight)
                } else if on_ground {
                    Some(PlayerState::StandingLeft)
                } else if descending {
                    Some(PlayerState::FallingLeft)
                } else {
                    None
                }
            },
            PlayerState::JumpingRight => {
                if input == PlayerInput::PressLeft {
                    Some(PlayerState::JumpingLeft)
                } else if on_ground {
                    Some(PlayerState::StandingRight)
                } else if descending {
                    Some(PlayerState::FallingRight)
                } else {
                    None
                }
            },
            PlayerState::FallingLeft => {
                if input == PlayerInput::PressRight {
                    Some(PlayerState::FallingRight)
                } else if on_ground {
                    Some(PlayerState::StandingRight)
                } else {
                    None
                }
            },
            PlayerState::FallingRight => {
                if input == PlayerInput::PressLeft {
                    Some(PlayerState::FallingLeft)
                } else if on_ground {
                    Some(PlayerState::StandingRight)
                } else {
                    None
                }
            },
        }
    }

    /// The text shown for this state in the status overlay.
    pub fn label(&self) -> (r: &'static str)
        ensures
            r@ == state_label(*self),
    {
        match self {
            PlayerState::StandingLeft => "STANDING LEFT",
            PlayerState::StandingRight => "STANDING RIGHT",
            PlayerState::SittingLeft => "SITTING LEFT",
            PlayerState::SittingRight => "SITTING RIGHT",
            PlayerState::RunningLeft => "RUNNING LEFT",
            PlayerState::RunningRight => "RUNNING RIGHT",
            PlayerState::JumpingLeft => "JUMPING LEFT",
            PlayerState::JumpingRight => "JUMPING RIGHT",
            PlayerState::FallingLeft => "FALLING LEFT",
            PlayerState::FallingRight => "FALLING RIGHT",
        }
    }
}


/// Every transition is a real change: the state machine never "moves" to
/// the state it is already in.
pub proof fn lemma_transition_changes_state(
    s: PlayerState,
    input: PlayerInput,
    on_ground: bool,
    descending: bool,
)
    ensures
        transition(s, input, on_ground, descending) != Some(s),
{
}

/// A left or right press that changes the state leaves the player facing
/// that way, and no other input turns the player around. The one exception,
/// left out here, is landing from `FallingLeft`, which always ends in
/// `StandingRight`.
pub proof fn lemma_facing_follows_direction_presses(
    s: PlayerState,
    input: PlayerInput,
    on_ground: bool,
    descending: bool,
)
    requires
        !(s == PlayerState::FallingLeft && on_ground),
    ensures
        transition(s, input, on_ground, descending) matches Some(n) ==> {
            &&& input == PlayerInput::PressLeft ==> faces_left(n)
            &&& input == PlayerInput::PressRight ==> !faces_left(n)
            &&& (input != PlayerInput::PressLeft && input != PlayerInput::PressRight) ==> faces_left(
                n,
            ) == faces_left(s)
        },
{
}

/// The player only leaves the ground by pressing up while standing, and only
/// gets back to standing or sitting from the air by touching the ground.
pub proof fn lemma_air_entered_by_jump_left_by_landing(
    s: PlayerState,
    input: PlayerInput,
    on_ground: bool,
    descending: bool,
)
    ensures
        transition(s, input, on_ground, descending) matches Some(n) ==> {
            &&& (is_airborne(n) && !is_airborne(s)) ==> (input == PlayerInput::PressUp && (s
                == PlayerState::StandingLeft || s == PlayerState::StandingRight) && is_jumping(n))
            &&& (is_airborne(s) && !is_airborne(n)) ==> on_ground
        },
{
}

/// Each state has a sprite row of its own, and every state's frames fit in a
/// nine-column row of a ten-row sheet.
pub proof fn lemma_sprite_rows_distinct(a: PlayerState, b: PlayerState)
    ensures
        sprite_row(a) == sprite_row(b) ==> a == b,
        sprite_row(a) < 10,
        sprite_last_frame(a) < 9,
{
}

/// From standing, left and right make the player run that way, down makes
/// them sit and up makes them jump, both keeping their facing; releases and
/// the absence of input change nothing.
pub proof fn lemma_standing_moves(s: PlayerState, input: PlayerInput, on_ground: bool, descending: bool)
    requires
        is_standing(s),
    ensures
        input == PlayerInput::PressLeft ==> transition(s, input, on_ground, descending) == Some(
            PlayerState::RunningLeft,
        ),
        input == PlayerInput::PressRight ==> transition(s, input, on_ground, descending) == Some(
            PlayerState::RunningRight,
        ),
        input == PlayerInput::PressDown ==> (transition(s, input, on_ground, descending) matches Some(n)
            && is_sitting(n) && faces_left(n) == faces_left(s)),
        input == PlayerInput::PressUp ==> (transition(s, input, on_ground, descending) matches Some(n)
            && is_jumping(n) && faces_left(n) == faces_left(s)),
        !is_press(input) ==> transition(s, input, on_ground, descending) is None,
{
}

/// Sitting, the player turns around in place on the opposite direction key
/// and stands up, facing the same way, when down is released; nothing else
/// moves them.
pub proof fn lemma_sitting_moves(s: PlayerState, input: PlayerInput, on_ground: bool, descending: bool)
    requires
        is_sitting(s),
    ensures
        turns_around(s, input) ==> (transition(s, input, on_ground, descending) matches Some(n)
            && is_sitting(n) && faces_left(n) != faces_left(s)),
        input == PlayerInput::ReleaseDown ==> (transition(s, input, on_ground, descending) matches Some(
            n,
        ) && is_standing(n) && faces_left(n) == faces_left(s)),
        (!turns_around(s, input) && input != PlayerInput::ReleaseDown) ==> transition(
            s,
            input,
            on_ground,
            descending,
        ) is None,
{
}

/// Running, the opposite direction key makes the player run the other way;
/// letting go of the running direction, or pressing down, makes them stand
/// facing the same way; nothing else changes the state.
pub proof fn lemma_running_moves(s: PlayerState, input: PlayerInput, on_ground: bool, descending: bool)
    requires
        is_running(s),
    ensures
        turns_around(s, input) ==> (transition(s, input, on_ground, descending) matches Some(n)
            && is_running(n) && faces_left(n) != faces_left(s)),
        (releases_facing_key(s, input) || input == PlayerInput::PressDown) ==> (transition(
            s,
            input,
            on_ground,
            descending,
        ) matches Some(n) && is_standing(n) && faces_left(n) == faces_left(s)),
        (!turns_around(s, input) && !releases_facing_key(s, input) && input
            != PlayerInput::PressDown) ==> transition(s, input, on_ground, descending) is None,
{
}

/// In the air, the opposite direction key turns the player around in the
/// same posture; otherwise touching the ground makes them stand, a jump
/// that has started to come down becomes a fall, and nothing else happens.
pub proof fn lemma_airborne_moves(
    s: PlayerState,
    input: PlayerInput,
    on_ground: bool,
    descending: bool,
)
    requires
        is_airborne(s),
    ensures
        turns_around(s, input) ==> (transition(s, input, on_ground, descending) matches Some(n)
            && is_jumping(n) == is_jumping(s) && is_falling(n) == is_falling(s) && faces_left(n)
            != faces_left(s)),
        (!turns_around(s, input) && on_ground) ==> (transition(s, input, on_ground, descending) matches Some(
            n,
        ) && is_standing(n)),
        (!turns_around(s, input) && !on_ground && is_jumping(s) && descending) ==> (transition(
            s,
            input,
            on_ground,
            descending,
        ) matches Some(n) && is_falling(n) && faces_left(n) == faces_left(s)),
        (!turns_around(s, input) && !on_ground && !(is_jumping(s) && descending)) ==> transition(
            s,
            input,
            on_ground,
            descending,
        ) is None,
{
}

/// Letting go of a key, or giving no input, never sets the player in motion:
/// no such input makes them run, and none takes them off the ground.
pub proof fn lemma_releases_never_start_motion(
    s: PlayerState,
    input: PlayerInput,
    on_ground: bool,
    descending: bool,
)
    requires
        !is_press(input),
    ensures
        transition(s, input, on_ground, descending) matches Some(n) ==> !is_running(n) && (
        is_airborne(n) ==> is_airborne(s)),
{
}

/// On the ground the state machine only looks at the input: whether the
/// player touches the ground or is coming down matters in the air alone.
pub proof fn lemma_ground_ignores_height(
    s: PlayerState,
    input: PlayerInput,
    g1: bool,
    d1: bool,
    g2: bool,
    d2: bool,
)
    requires
        !is_airborne(s),
    ensures
        transition(s, input, g1, d1) == transition(s, input, g2, d2),
{
}

/// The word that names a state's posture in its label.
pub open spec fn posture_word(s: PlayerState) -> Seq<char> {
    if is_standing(s) {
        "STANDING"@
    } else if is_sitting(s) {
        "SITTING"@
    } else if is_running(s) {
        "RUNNING"@
    } else if is_jumping(s) {
        "JUMPING"@
    } else {
        "FALLING"@
    }
}

/// The word that names the way a state faces in its label.
pub open spec fn facing_word(s: PlayerState) -> Seq<char> {
    if faces_left(s) {
        "LEFT"@
    } else {
        "RIGHT"@
    }
}

/// A state's label names its posture, then, after a space, the way it faces.
pub proof fn lemma_state_label_names_posture_and_facing(s: PlayerState)
    ensures
        state_label(s) == posture_word(s) + " "@ + facing_word(s),
{
    reveal_strlit(" ");
    reveal_strlit("LEFT");
    reveal_strlit("RIGHT");
    reveal_strlit("STANDING");
    reveal_strlit("SITTING");
    reveal_strlit("RUNNING");
    reveal_strlit("JUMPING");
    reveal_strlit("FALLING");
    match s {
        PlayerState::StandingLeft => {
            reveal_strlit("STANDING LEFT");
        },
        PlayerState::StandingRight => {
            reveal_strlit("STANDING RIGHT");
        },
        PlayerState::SittingLeft => {
            reveal_strlit("SITTING LEFT");
        },
        PlayerState::SittingRight => {
            reveal_strlit("SITTING RIGHT");
        },
        PlayerState::RunningLeft => {
            reveal_strlit("RUNNING LEFT");
        },
        PlayerState::RunningRight => {
            reveal_strlit("RUNNING RIGHT");
        },
        PlayerState::JumpingLeft => {
            reveal_strlit("JUMPING LEFT");
        },
        PlayerState::JumpingRight => {
            reveal_strlit("JUMPING RIGHT");
        },
        PlayerState::FallingLeft => {
            reveal_strlit("FALLING LEFT");
        },
        PlayerState::FallingRight => {
            reveal_strlit("FALLING RIGHT");
        },
    }
    assert(state_label(s) =~= posture_word(s) + " "@ + facing_word(s));
}

} // verus!
