use jgame::collisions::{CollisionEffect, EffectTick};
use jgame::components::{AnimationIndices, GameState, Score as OutrunScore};
use jgame::enemies::{enemy_name, new_enemy_name, next_enemy_frame, EnemyKind};
use jgame::game::{collision_check, restart_game, toggle_display_mode, ui_update, DisplayMode};
use jgame::input::{decode_input, KeyEvents, LastInput, PlayerInput};
use jgame::score::Score;
use jgame::text::push_decimal;
use jgame::utils::status_text;

fn no_keys() -> KeyEvents {
    KeyEvents {
        pressed_left: false,
        pressed_right: false,
        pressed_down: false,
        pressed_up: false,
        released_left: false,
        released_right: false,
        released_down: false,
        released_up: false,
    }
}

#[test]
fn presses_win_over_releases() {
    let mut k = no_keys();
    k.released_left = true;
    k.pressed_up = true;
    assert_eq!(decode_input(&k), Some(PlayerInput::PressUp));
    k.pressed_left = true;
    assert_eq!(decode_input(&k), Some(PlayerInput::PressLeft));
}

#[test]
fn release_order() {
    let mut k = no_keys();
    k.released_up = true;
    k.released_down = true;
    assert_eq!(decode_input(&k), Some(PlayerInput::ReleaseDown));
    k.released_right = true;
    assert_eq!(decode_input(&k), Some(PlayerInput::ReleaseRight));
}

#[test]
fn last_input_persists_without_events() {
    let mut last = LastInput::default();
    assert_eq!(last.0, PlayerInput::NoInput);
    let mut k = no_keys();
    k.pressed_right = true;
    last.record(&k);
    assert_eq!(last.0, PlayerInput::PressRight);
    last.record(&no_keys());
    assert_eq!(last.0, PlayerInput::PressRight);
}

#[test]
fn score_defaults_and_collisions() {
    let mut s = Score::default();
    assert_eq!((s.value, s.collisions, s.max_collisions), (0, 0, 3));
    s.record_collision();
    s.record_collision();
    assert_eq!((s.value, s.collisions, s.max_collisions), (2, 2, 3));
}

#[test]
fn outrun_score_counts_up() {
    let mut s = OutrunScore(41);
    s.add_point();
    assert_eq!(s.0, 42);
}

#[test]
fn animation_indices_cycle() {
    let a = AnimationIndices { first: 0, last: 5 };
    let mut i = 0;
    let mut seen = Vec::new();
    for _ in 0..6 {
        i = a.next_index(i);
        seen.push(i);
    }
    assert_eq!(seen, vec![1, 2, 3, 4, 5, 0]);
    assert_eq!(a.next_index(9), 0);
}

#[test]
fn collision_effect_lifetime() {
    let mut e = CollisionEffect::new();
    assert_eq!((e.current_frame, e.max_frame), (0, 4));
    for k in 1..=4usize {
        assert_eq!(e.advance(), EffectTick::Show(k));
    }
    assert_eq!(e.advance(), EffectTick::Despawn);
}

#[test]
fn game_over_only_while_playing() {
    assert_eq!(GameState::default(), GameState::Playing);
    assert_eq!(collision_check(GameState::Playing, true), Some(GameState::GameOver));
    assert_eq!(collision_check(GameState::Playing, false), None);
    assert_eq!(collision_check(GameState::GameOver, true), None);
}

#[test]
fn restart_resets_the_score() {
    let mut score = OutrunScore(17);
    assert_eq!(restart_game(GameState::Playing, true, &mut score), None);
    assert_eq!(score.0, 17);
    assert_eq!(restart_game(GameState::GameOver, false, &mut score), None);
    assert_eq!(score.0, 17);
    assert_eq!(restart_game(GameState::GameOver, true, &mut score), Some(GameState::Playing));
    assert_eq!(score.0, 0);
}

#[test]
fn fullscreen_toggle() {
    assert_eq!(toggle_display_mode(DisplayMode::Windowed), DisplayMode::Fullscreen);
    assert_eq!(toggle_display_mode(DisplayMode::Fullscreen), DisplayMode::Windowed);
    assert_eq!(
        toggle_display_mode(toggle_display_mode(DisplayMode::Windowed)),
        DisplayMode::Windowed
    );
}

#[test]
fn ui_text() {
    let u = ui_update(&OutrunScore(0), GameState::Playing);
    assert_eq!(u.score_text, "Score: 0");
    assert!(!u.reveal_game_over);
    let u = ui_update(&OutrunScore(4294967295), GameState::GameOver);
    assert_eq!(u.score_text, "Score: 4294967295");
    assert!(u.reveal_game_over);
    let u = ui_update(&OutrunScore(1090), GameState::Playing);
    assert_eq!(u.score_text, "Score: 1090");
}

#[test]
fn decimal_matches_std() {
    for n in [0u32, 7, 10, 99, 100, 12345, 1000000, u32::MAX] {
        let mut s = String::from("x");
        push_decimal(&mut s, n);
        assert_eq!(s, format!("x{}", n));
    }
}

#[test]
fn status_overlay() {
    assert_eq!(
        status_text(PlayerInput::NoInput, jgame::state::PlayerState::StandingRight),
        "Last input: NONE\nActive state: STANDING RIGHT"
    );
    assert_eq!(
        status_text(PlayerInput::PressUp, jgame::state::PlayerState::JumpingLeft),
        "Last input: PRESS up\nActive state: JUMPING LEFT"
    );
}

#[test]
fn enemy_kinds_from_rolls() {
    assert_eq!(EnemyKind::from_roll(0), Some(EnemyKind::Worm));
    assert_eq!(EnemyKind::from_roll(1), Some(EnemyKind::Phantom));
    assert_eq!(EnemyKind::from_roll(2), Some(EnemyKind::Spider));
    assert_eq!(EnemyKind::from_roll(3), None);
}

#[test]
fn random_kinds_cover_all_three() {
    let mut seen = [false; 3];
    for _ in 0..300 {
        match EnemyKind::pick_random() {
            EnemyKind::Worm => seen[0] = true,
            EnemyKind::Phantom => seen[1] = true,
            EnemyKind::Spider => seen[2] = true,
        }
    }
    assert_eq!(seen, [true, true, true]);
}

#[test]
fn enemy_names() {
    assert_eq!(enemy_name(EnemyKind::Spider, "abc"), "Spider_abc");
    assert_eq!(enemy_name(EnemyKind::Phantom, ""), "Ghost_");
    let a = new_enemy_name(EnemyKind::Worm);
    let b = new_enemy_name(EnemyKind::Worm);
    assert_ne!(a, b);
    assert!(a.starts_with("Worm_urn:uuid:"));
    assert_eq!(a.len(), "Worm_".len() + 45);
    let urn: Vec<char> = a["Worm_".len()..].chars().collect();
    assert_eq!(urn[23], '4');
    assert!(matches!(urn[28], '8' | '9' | 'a' | 'b'));
    for (i, c) in urn.iter().enumerate().skip(9) {
        if [17, 22, 27, 32].contains(&i) {
            assert_eq!(*c, '-');
        } else {
            assert!(c.is_ascii_hexdigit() && !c.is_ascii_uppercase());
        }
    }
}

#[test]
fn enemy_frames_wrap() {
    assert_eq!(next_enemy_frame(0, 5), 1);
    assert_eq!(next_enemy_frame(4, 5), 5);
    assert_eq!(next_enemy_frame(5, 5), 0);
    assert_eq!(next_enemy_frame(9, 5), 4);
}
