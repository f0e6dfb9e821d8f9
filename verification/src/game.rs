use vstd::prelude::*;
use vstd::string::StringExecFns;

use crate::components::{GameState, Score};
use crate::text::{
    decimal, decimal_value, is_decimal_digit, lemma_decimal_is_digits, lemma_decimal_round_trip,
    push_decimal,
};

verus! {

/// The game state after the collision check: a run that is under way ends
/// when the player touches an enemy; `None` leaves the state as it is.
pub open spec fn after_collision_check(state: GameState, enemy_hit: bool) -> Option<GameState> {
    if state == GameState::Playing && enemy_hit {
        Some(GameState::GameOver)
    } else {
        None
    }
}

/// Decides the collision check of one frame. `enemy_hit` tells whether some
/// enemy is closer to the player than the hit distance.
pub fn collision_check(state: GameState, enemy_hit: bool) -> (r: Option<GameState>)
    ensures
        r == after_collision_check(state, enemy_hit),
{
    if state != GameState::Playing {
        return None;
    }
    if enemy_hit {
        Some(GameState::GameOver)
    } else {
        None
    }
}

/// Whether a frame restarts the game: only an ended run restarts, on Enter.
pub open spec fn restarts(state: GameState, enter_pressed: bool) -> bool {
    state == GameState::GameOver && enter_pressed
}

/// The game-flow part of a restart: when the run is over and Enter was just
/// pressed, the score goes back to zero and play resumes. Returns the state
/// to switch to, or `None` when nothing happens (the score is then untouched).
pub fn restart_game(state: GameState, enter_pressed: bool, score: &mut Score) -> (r: Option<
    GameState,
>)
    ensures
        restarts(state, enter_pressed) ==> r == Some(GameState::Playing) && final(score).0 == 0,
        !restarts(state, enter_pressed) ==> r is None && *final(score) == *old(score),
{
    if state == GameState::GameOver && enter_pressed {
        score.0 = 0;
        Some(GameState::Playing)
    } else {
        None
    }
}

/// How the game window is shown.
#[derive(Debug, Clone, Copy, PartialEq, Eq, Structural)]
pub enum DisplayMode {
    Windowed,
    /// Any full-screen mode.
    Fullscreen,
}

/// The mode F11 switches to: a window goes full screen, and any full-screen
/// mode goes back to a window.
pub open spec fn toggled(mode: DisplayMode) -> DisplayMode {
    match mode {
        DisplayMode::Windowed => DisplayMode::Fullscreen,
        DisplayMode::Fullscreen => DisplayMode::Windowed,
    }
}

/// Switches between a window and full screen.
pub fn toggle_display_mode(mode: DisplayMode) -> (r: DisplayMode)
    ensures
        r == toggled(mode),
{
    match mode {
        DisplayMode::Windowed => DisplayMode::Fullscreen,
        _ => DisplayMode::Windowed,
    }
}

/// The score line of the overlay.
pub open spec fn score_line(score: nat) -> Seq<char> {
    "Score: "@ + decimal(score)
}

/// What the overlay shows on a frame.
pub struct UiUpdate {
    /// The text of the score line.
    pub score_text: String,
    /// Whether the game-over banner is to be made visible.
    pub reveal_game_over: bool,
}

/// The overlay update of a frame: the score line, and the game-over banner
/// once the run is over.
pub fn ui_update(score: &Score, state: GameState) -> (r: UiUpdate)
    ensures
        r.score_text@ == score_line(score.0 as nat),
        r.reveal_game_over == (state == GameState::GameOver),
{
    let mut text = String::from_str("Score: ");
    push_decimal(&mut text, score.0);
    UiUpdate { score_text: text, reveal_game_over: state == GameState::GameOver }
}

/// A game under way ends exactly when an enemy is hit, and a game that is
/// over stays over until Enter is pressed, which restarts it (with no
/// points, by `restart_game`); while playing, Enter does nothing.
pub proof fn lemma_game_flow(state: GameState, enemy_hit: bool, enter_pressed: bool)
    ensures
        state == GameState::GameOver ==> after_collision_check(state, enemy_hit) is None,
        after_collision_check(state, enemy_hit) matches Some(n) ==> n == GameState::GameOver
            && state == GameState::Playing,
        restarts(state, enter_pressed) ==> state == GameState::GameOver,
        state == GameState::Playing ==> !restarts(state, enter_pressed),
        state == GameState::Playing && enemy_hit ==> after_collision_check(state, enemy_hit)
            == Some(GameState::GameOver),
        !enemy_hit ==> after_collision_check(state, enemy_hit) is None,
        state == GameState::GameOver && enter_pressed ==> restarts(state, enter_pressed),
        !enter_pressed ==> !restarts(state, enter_pressed),
{
}

/// The score line is the label "Score: " followed by the decimal digits of
/// the score and nothing else: digits only, no leading zero, reading back as
/// the score.
pub proof fn lemma_score_line_is_label_then_digits(score: nat)
    ensures
        score_line(score).len() > 7,
        score_line(score).subrange(0, 7) == "Score: "@,
        forall|i: int|
            7 <= i < score_line(score).len() ==> is_decimal_digit(#[trigger] score_line(score)[i]),
        score_line(score)[7] == '0' ==> score == 0 && score_line(score).len() == 8,
        decimal_value(score_line(score).subrange(7, score_line(score).len() as int)) == score,
{
    reveal_strlit("Score: ");
    lemma_decimal_round_trip(score);
    lemma_decimal_is_digits(score);
    let line = score_line(score);
    assert(line.subrange(0, 7) =~= "Score: "@);
    assert(line.subrange(7, line.len() as int) =~= decimal(score));
    assert forall|i: int| 7 <= i < line.len() implies is_decimal_digit(#[trigger] line[i]) by {
        assert(line[i] == decimal(score)[i - 7]);
    }
    assert(line[7] == decimal(score)[0]);
}

/// Toggling full screen twice gives back the mode one started from.
pub proof fn lemma_toggle_twice(mode: DisplayMode)
    ensures
        toggled(toggled(mode)) == mode,
        toggled(mode) != mode,
{
}

/// The score line shows the score: after its "Score: " label, the text
/// reads back as the score itself.
pub proof fn lemma_score_line_shows_score(score: nat)
    ensures
        score_line(score).subrange(0, 7) == "Score: "@,
        decimal_value(score_line(score).subrange(7, score_line(score).len() as int)) == score,
{
    reveal_strlit("Score: ");
    lemma_decimal_round_trip(score);
    assert(score_line(score).subrange(0, 7) =~= "Score: "@);
    assert(score_line(score).subrange(7, score_line(score).len() as int) =~= decimal(score));
}

} // verus!
