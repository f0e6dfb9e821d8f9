use vstd::prelude::*;

verus! {

/// The most recent directional key event seen by the game.
#[derive(Debug, Clone, Copy, PartialEq, Eq, Structural)]
pub enum PlayerInput {
    NoInput,
    PressLeft,
    PressRight,
    PressDown,
    PressUp,
    ReleaseLeft,
    ReleaseRight,
    ReleaseDown,
    ReleaseUp,
}

impl Default for PlayerInput {
    fn default() -> (r: Self)
        ensures
            r == PlayerInput::NoInput,
    {
        PlayerInput::NoInput
    }
}

/// The text shown for an input in the status overlay.
pub open spec fn input_label(i: PlayerInput) -> Seq<char> {
    match i {
        PlayerInput::NoInput => "NONE"@,
        PlayerInput::PressLeft => "PRESS left"@,
        PlayerInput::PressRight => "PRESS right"@,
        PlayerInput::PressDown => "PRESS down"@,
        PlayerInput::PressUp => "PRESS up"@,
        PlayerInput::ReleaseLeft => "RELEASE left"@,
        PlayerInput::ReleaseRight => "RELEASE right"@,
        PlayerInput::ReleaseDown => "RELEASE down"@,
        PlayerInput::ReleaseUp => "RELEASE up"@,
    }
}

/// Whether an input is a key press (as opposed to a release or no input).
pub open spec fn is_press(i: PlayerInput) -> bool {
    i == PlayerInput::PressLeft || i == PlayerInput::PressRight || i == PlayerInput::PressDown
        || i == PlayerInput::PressUp
}

impl PlayerInput {
    /// The text shown for this input in the status overlay.
    pub fn label(&self) -> (r: &'static str)
        ensures
            r@ == input_label(*self),
    {
        match self {
            PlayerInput::NoInput => "NONE",
            PlayerInput::PressLeft => "PRESS left",
            PlayerInput::PressRight => "PRESS right",
            PlayerInput::PressDown => "PRESS down",
            PlayerInput::PressUp => "PRESS up",
            PlayerInput::ReleaseLeft => "RELEASE left",
            PlayerInput::ReleaseRight => "RELEASE right",
            PlayerInput::ReleaseDown => "RELEASE down",
            PlayerInput::ReleaseUp => "RELEASE up",
        }
    }
}


/// The directional key events of one frame. Each direction is reached by
/// an arrow key or its W/A/S/D counterpart; a flag is set when either key of
/// the pair was just pressed (or just released).
#[derive(Debug, Clone, Copy, PartialEq, Eq, Structural)]
pub struct KeyEvents {
    pub pressed_left: bool,
    pub pressed_right: bool,
    pub pressed_down: bool,
    pub pressed_up: bool,
    pub released_left: bool,
    pub released_right: bool,
    pub released_down: bool,
    pub released_up: bool,
}

/// The input a frame's key events amount to: presses win over releases, and
/// within each kind left, right, down and up are tried in that order.
pub open spec fn decoded_input(k: KeyEvents) -> Option<PlayerInput> {
    if k.pressed_left {
        Some(PlayerInput::PressLeft)
    } else if k.pressed_right {
        Some(PlayerInput::PressRight)
    } else if k.pressed_down {
        Some(PlayerInput::PressDown)
    } else if k.pressed_up {
        Some(PlayerInput::PressUp)
    } else if k.released_left {
        Some(PlayerInput::ReleaseLeft)
    } else if k.released_right {
        Some(PlayerInput::ReleaseRight)
    } else if k.released_down {
        Some(PlayerInput::ReleaseDown)
    } else if k.released_up {
        Some(PlayerInput::ReleaseUp)
    } else {
        None
    }
}

/// Decodes a frame's key events into the input they amount to, if any.
pub fn decode_input(keys: &KeyEvents) -> (r: Option<PlayerInput>)
    ensures
        r == decoded_input(*keys),
{
    if keys.pressed_left {
        Some(PlayerInput::PressLeft)
    } else if keys.pressed_right {
        Some(PlayerInput::PressRight)
    } else if keys.pressed_down {
        Some(PlayerInput::PressDown)
    } else if keys.pressed_up {
        Some(PlayerInput::PressUp)
    } else if keys.released_left {
        Some(PlayerInput::ReleaseLeft)
    } else if keys.released_right {
        Some(PlayerInput::ReleaseRight)
    } else if keys.released_down {
        Some(PlayerInput::ReleaseDown)
    } else if keys.released_up {
        Some(PlayerInput::ReleaseUp)
    } else {
        None
    }
}

/// The last input the player gave; it persists until another key event.
#[derive(Debug, Clone, Copy, PartialEq, Eq, Structural)]
pub struct LastInput(pub PlayerInput);

impl Default for LastInput {
    fn default() -> (r: Self)
        ensures
            r.0 == PlayerInput::NoInput,
    {
        LastInput(PlayerInput::NoInput)
    }
}

impl LastInput {
    /// Records a frame's key events: the decoded input replaces the last
    /// one, and a frame without directional events leaves it as it was.
    pub fn record(&mut self, keys: &KeyEvents)
        ensures
            final(self).0 == match decoded_input(*keys) {
                Some(i) => i,
                None => old(self).0,
            },
    {
        match decode_input(keys) {
            Some(i) => {
                self.0 = i;
            },
            None => {},
        }
    }
}

/// Whether the key event that stands for `i` is among a frame's events.
pub open spec fn has_event(k: KeyEvents, i: PlayerInput) -> bool {
    match i {
        PlayerInput::PressLeft => k.pressed_left,
        PlayerInput::PressRight => k.pressed_right,
        PlayerInput::PressDown => k.pressed_down,
        PlayerInput::PressUp => k.pressed_up,
        PlayerInput::ReleaseLeft => k.released_left,
        PlayerInput::ReleaseRight => k.released_right,
        PlayerInput::ReleaseDown => k.released_down,
        PlayerInput::ReleaseUp => k.released_up,
        PlayerInput::NoInput => false,
    }
}

/// The precedence of key events when several come in one frame: presses
/// before releases, and left, right, down, up within each.
pub open spec fn precedence(i: PlayerInput) -> int {
    match i {
        PlayerInput::PressLeft => 0,
        PlayerInput::PressRight => 1,
        PlayerInput::PressDown => 2,
        PlayerInput::PressUp => 3,
        PlayerInput::ReleaseLeft => 4,
        PlayerInput::ReleaseRight => 5,
        PlayerInput::ReleaseDown => 6,
        PlayerInput::ReleaseUp => 7,
        PlayerInput::NoInput => 8,
    }
}

/// A frame decodes to the input of one of its own key events, the one that
/// comes first; a frame with no directional event decodes to nothing, and
/// a release is decoded only when no key was pressed.
pub proof fn lemma_decoded_input_is_first_event(k: KeyEvents)
    ensures
        decoded_input(k) matches Some(i) ==> has_event(k, i),
        decoded_input(k) matches Some(i) ==> forall|j: PlayerInput|
            precedence(j) < precedence(i) ==> !#[trigger] has_event(k, j),
        decoded_input(k) is None <==> (forall|j: PlayerInput| !#[trigger] has_event(k, j)),
        decoded_input(k) matches Some(i) && !is_press(i) ==> !k.pressed_left && !k.pressed_right
            && !k.pressed_down && !k.pressed_up,
{
    if decoded_input(k) is Some {
        assert(has_event(k, decoded_input(k).unwrap()));
    }
}

/// A frame with a single key event decodes to that event's input.
pub proof fn lemma_single_event_decodes_to_itself(k: KeyEvents, i: PlayerInput)
    requires
        has_event(k, i),
        forall|j: PlayerInput| j != i ==> !#[trigger] has_event(k, j),
    ensures
        decoded_input(k) == Some(i),
{
    assert(!has_event(k, PlayerInput::PressLeft) || i == PlayerInput::PressLeft);
    assert(!has_event(k, PlayerInput::PressRight) || i == PlayerInput::PressRight);
    assert(!has_event(k, PlayerInput::PressDown) || i == PlayerInput::PressDown);
    assert(!has_event(k, PlayerInput::PressUp) || i == PlayerInput::PressUp);
    assert(!has_event(k, PlayerInput::ReleaseLeft) || i == PlayerInput::ReleaseLeft);
    assert(!has_event(k, PlayerInput::ReleaseRight) || i == PlayerInput::ReleaseRight);
    assert(!has_event(k, PlayerInput::ReleaseDown) || i == PlayerInput::ReleaseDown);
    assert(!has_event(k, PlayerInput::ReleaseUp) || i == PlayerInput::ReleaseUp);
}

/// The word of an input's label that says whether a key went down or up.
pub open spec fn action_word(i: PlayerInput) -> Seq<char> {
    if is_press(i) {
        "PRESS"@
    } else {
        "RELEASE"@
    }
}

/// The word of an input's label that names its direction.
pub open spec fn direction_word(i: PlayerInput) -> Seq<char> {
    if i == PlayerInput::PressLeft || i == PlayerInput::ReleaseLeft {
        "left"@
    } else if i == PlayerInput::PressRight || i == PlayerInput::ReleaseRight {
        "right"@
    } else if i == PlayerInput::PressDown || i == PlayerInput::ReleaseDown {
        "down"@
    } else {
        "up"@
    }
}

/// An input's label says whether the key went down or up, then, after a
/// space, which direction it was; the absence of input reads "NONE".
pub proof fn lemma_input_label_names_action_and_direction(i: PlayerInput)
    ensures
        i == PlayerInput::NoInput ==> input_label(i) == "NONE"@,
        i != PlayerInput::NoInput ==> input_label(i) == action_word(i) + " "@ + direction_word(i),
{
    reveal_strlit(" ");
    reveal_strlit("PRESS");
    reveal_strlit("RELEASE");
    reveal_strlit("left");
    reveal_strlit("right");
    reveal_strlit("down");
    reveal_strlit("up");
    match i {
        PlayerInput::NoInput => {},
        PlayerInput::PressLeft => {
            reveal_strlit("PRESS left");
        },
        PlayerInput::PressRight => {
            reveal_strlit("PRESS right");
        },
        PlayerInput::PressDown => {
            reveal_strlit("PRESS down");
        },
        PlayerInput::PressUp => {
            reveal_strlit("PRESS up");
        },
        PlayerInput::ReleaseLeft => {
            reveal_strlit("RELEASE left");
        },
        PlayerInput::ReleaseRight => {
            reveal_strlit("RELEASE right");
        },
        PlayerInput::ReleaseDown => {
            reveal_strlit("RELEASE down");
        },
        PlayerInput::ReleaseUp => {
            reveal_strlit("RELEASE up");
        },
    }
    if i != PlayerInput::NoInput {
        assert(input_label(i) =~= action_word(i) + " "@ + direction_word(i));
    }
}

} // verus!
