use jgame::input::PlayerInput;
use jgame::player::{player_animation_step, player_state_step, SPRITE_COLUMNS};
use jgame::state::{PlayerState, TargetSpeed};

const ALL_STATES: [PlayerState; 10] = [
    PlayerState::StandingLeft,
    PlayerState::StandingRight,
    PlayerState::SittingLeft,
    PlayerState::SittingRight,
    PlayerState::RunningLeft,
    PlayerState::RunningRight,
    PlayerState::JumpingLeft,
    PlayerState::JumpingRight,
    PlayerState::FallingLeft,
    PlayerState::FallingRight,
];

const ALL_INPUTS: [PlayerInput; 9] = [
    PlayerInput::NoInput,
    PlayerInput::PressLeft,
    PlayerInput::PressRight,
    PlayerInput::PressDown,
    PlayerInput::PressUp,
    PlayerInput::ReleaseLeft,
    PlayerInput::ReleaseRight,
    PlayerInput::ReleaseDown,
    PlayerInput::ReleaseUp,
];

#[test]
fn default_state_is_standing_right() {
    assert_eq!(PlayerState::default(), PlayerState::StandingRight);
}

#[test]
fn sprite_info_table() {
    assert_eq!(PlayerState::StandingRight.get_sprite_info(), (0, 6));
    assert_eq!(PlayerState::StandingLeft.get_sprite_info(), (1, 6));
    assert_eq!(PlayerState::JumpingRight.get_sprite_info(), (2, 6));
    assert_eq!(PlayerState::JumpingLeft.get_sprite_info(), (3, 6));
    assert_eq!(PlayerState::FallingRight.get_sprite_info(), (4, 6));
    assert_eq!(PlayerState::FallingLeft.get_sprite_info(), (5, 6));
    assert_eq!(PlayerState::RunningRight.get_sprite_info(), (6, 8));
    assert_eq!(PlayerState::RunningLeft.get_sprite_info(), (7, 8));
    assert_eq!(PlayerState::SittingRight.get_sprite_info(), (8, 4));
    assert_eq!(PlayerState::SittingLeft.get_sprite_info(), (9, 4));
}

#[test]
fn sprite_rows_are_distinct() {
    for (i, a) in ALL_STATES.iter().enumerate() {
        for (j, b) in ALL_STATES.iter().enumerate() {
            if i != j {
                assert_ne!(a.get_sprite_info().0, b.get_sprite_info().0);
            }
        }
        assert!(a.get_sprite_info().1 < SPRITE_COLUMNS);
    }
}

#[test]
fn target_speeds() {
    assert_eq!(PlayerState::StandingLeft.get_target_speed(), TargetSpeed::Zero);
    assert_eq!(PlayerState::SittingRight.get_target_speed(), TargetSpeed::Zero);
    assert_eq!(PlayerState::RunningLeft.get_target_speed(), TargetSpeed::FullLeft);
    assert_eq!(PlayerState::RunningRight.get_target_speed(), TargetSpeed::FullRight);
    assert_eq!(PlayerState::JumpingLeft.get_target_speed(), TargetSpeed::HalfLeft);
    assert_eq!(PlayerState::FallingLeft.get_target_speed(), TargetSpeed::HalfLeft);
    assert_eq!(PlayerState::JumpingRight.get_target_speed(), TargetSpeed::HalfRight);
    assert_eq!(PlayerState::FallingRight.get_target_speed(), TargetSpeed::HalfRight);
}

#[test]
fn standing_transitions() {
    let s = PlayerState::StandingLeft;
    assert_eq!(s.next_state(PlayerInput::PressRight, true, false), Some(PlayerState::RunningRight));
    assert_eq!(s.next_state(PlayerInput::PressLeft, true, false), Some(PlayerState::RunningLeft));
    assert_eq!(s.next_state(PlayerInput::PressDown, true, false), Some(PlayerState::SittingLeft));
    assert_eq!(s.next_state(PlayerInput::PressUp, true, false), Some(PlayerState::JumpingLeft));
    assert_eq!(s.next_state(PlayerInput::ReleaseUp, true, false), None);
    let s = PlayerState::StandingRight;
    assert_eq!(s.next_state(PlayerInput::PressDown, true, false), Some(PlayerState::SittingRight));
    assert_eq!(s.next_state(PlayerInput::PressUp, true, false), Some(PlayerState::JumpingRight));
    assert_eq!(s.next_state(PlayerInput::NoInput, true, false), None);
}

#[test]
fn sitting_and_running_transitions() {
    assert_eq!(
        PlayerState::SittingLeft.next_state(PlayerInput::PressRight, true, false),
        Some(PlayerState::SittingRight)
    );
    assert_eq!(
        PlayerState::SittingRight.next_state(PlayerInput::ReleaseDown, true, false),
        Some(PlayerState::StandingRight)
    );
    assert_eq!(PlayerState::SittingRight.next_state(PlayerInput::PressUp, true, false), None);
    assert_eq!(
        PlayerState::RunningLeft.next_state(PlayerInput::ReleaseLeft, true, false),
        Some(PlayerState::StandingLeft)
    );
    assert_eq!(
        PlayerState::RunningRight.next_state(PlayerInput::PressDown, true, false),
        Some(PlayerState::StandingRight)
    );
    assert_eq!(PlayerState::RunningRight.next_state(PlayerInput::PressUp, true, false), None);
}

#[test]
fn airborne_transitions() {
    let j = PlayerState::JumpingLeft;
    assert_eq!(j.next_state(PlayerInput::PressRight, false, false), Some(PlayerState::JumpingRight));
    assert_eq!(j.next_state(PlayerInput::NoInput, true, true), Some(PlayerState::StandingLeft));
    assert_eq!(j.next_state(PlayerInput::NoInput, false, true), Some(PlayerState::FallingLeft));
    assert_eq!(j.next_state(PlayerInput::NoInput, false, false), None);
    let f = PlayerState::FallingRight;
    assert_eq!(f.next_state(PlayerInput::PressLeft, false, true), Some(PlayerState::FallingLeft));
    assert_eq!(f.next_state(PlayerInput::NoInput, true, true), Some(PlayerState::StandingRight));
    assert_eq!(f.next_state(PlayerInput::NoInput, false, true), None);
    // Landing from FallingLeft ends facing right, as the table says.
    assert_eq!(
        PlayerState::FallingLeft.next_state(PlayerInput::NoInput, true, true),
        Some(PlayerState::StandingRight)
    );
}

#[test]
fn no_transition_returns_the_same_state() {
    for s in ALL_STATES {
        for i in ALL_INPUTS {
            for g in [false, true] {
                for d in [false, true] {
                    assert_ne!(s.next_state(i, g, d), Some(s));
                }
            }
        }
    }
}

#[test]
fn labels() {
    assert_eq!(PlayerState::StandingRight.label(), "STANDING RIGHT");
    assert_eq!(PlayerState::FallingLeft.label(), "FALLING LEFT");
    assert_eq!(PlayerInput::NoInput.label(), "NONE");
    assert_eq!(PlayerInput::ReleaseUp.label(), "RELEASE up");
    assert_eq!(PlayerInput::PressLeft.label(), "PRESS left");
}

#[test]
fn state_step_starts_jump_from_ground() {
    let step = player_state_step(PlayerState::StandingRight, PlayerInput::PressUp, true, false);
    assert_eq!(step.state, PlayerState::JumpingRight);
    assert!(step.launch);
    assert_eq!(step.atlas_index, Some(18));
}

#[test]
fn state_step_turning_in_the_air_does_not_launch() {
    let step = player_state_step(PlayerState::JumpingRight, PlayerInput::PressLeft, false, false);
    assert_eq!(step.state, PlayerState::JumpingLeft);
    assert!(!step.launch);
    assert_eq!(step.atlas_index, Some(27));
}

#[test]
fn state_step_without_change() {
    let step = player_state_step(PlayerState::RunningLeft, PlayerInput::PressLeft, true, false);
    assert_eq!(step.state, PlayerState::RunningLeft);
    assert!(!step.launch);
    assert_eq!(step.atlas_index, None);
}

#[test]
fn animation_cycles_through_the_row() {
    let s = PlayerState::RunningLeft; // row 7, frames 63..=71
    let mut index = 63;
    for k in 1..=8 {
        index = player_animation_step(s, index);
        assert_eq!(index, 63 + k);
    }
    index = player_animation_step(s, index);
    assert_eq!(index, 63);
}

#[test]
fn animation_from_another_row_restarts_the_row() {
    // Index 5 lies before the sitting-left row (81..=85): it counts as offset 0.
    assert_eq!(player_animation_step(PlayerState::SittingLeft, 5), 82);
    // An index past the row's last frame goes back to its first.
    assert_eq!(player_animation_step(PlayerState::StandingRight, 40), 0);
}

fn faces_left(s: PlayerState) -> bool {
    matches!(
        s,
        PlayerState::StandingLeft
            | PlayerState::SittingLeft
            | PlayerState::RunningLeft
            | PlayerState::JumpingLeft
            | PlayerState::FallingLeft
    )
}

fn airborne(s: PlayerState) -> bool {
    matches!(
        s,
        PlayerState::JumpingLeft
            | PlayerState::JumpingRight
            | PlayerState::FallingLeft
            | PlayerState::FallingRight
    )
}

#[test]
fn facing_changes_only_on_direction_presses() {
    for s in ALL_STATES {
        for i in ALL_INPUTS {
            for g in [false, true] {
                for d in [false, true] {
                    if s == PlayerState::FallingLeft && g {
                        continue;
                    }
                    if let Some(n) = s.next_state(i, g, d) {
                        match i {
                            PlayerInput::PressLeft => assert!(faces_left(n)),
                            PlayerInput::PressRight => assert!(!faces_left(n)),
                            _ => assert_eq!(faces_left(n), faces_left(s)),
                        }
                    }
                }
            }
        }
    }
}

#[test]
fn air_is_entered_by_a_jump_and_left_by_landing() {
    for s in ALL_STATES {
        for i in ALL_INPUTS {
            for g in [false, true] {
                for d in [false, true] {
                    if let Some(n) = s.next_state(i, g, d) {
                        if airborne(n) && !airborne(s) {
                            assert_eq!(i, PlayerInput::PressUp);
                        }
                        if airborne(s) && !airborne(n) {
                            assert!(g);
                        }
                    }
                }
            }
        }
    }
}
