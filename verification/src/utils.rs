use vstd::prelude::*;
use vstd::string::StringExecFns;

use crate::input::{input_label, PlayerInput};
use crate::state::{state_label, PlayerState};

verus! {

/// The two lines of the status overlay.
pub open spec fn status_lines(last_input: PlayerInput, state: PlayerState) -> Seq<char> {
    "Last input: "@ + input_label(last_input) + "\nActive state: "@ + state_label(state)
}

/// The status overlay text: the last input and the player's state.
pub fn status_text(last_input: PlayerInput, state: PlayerState) -> (r: String)
    ensures
        r@ == status_lines(last_input, state),
{
    let mut text = String::from_str("Last input: ");
    text.append(last_input.label());
    text.append("\nActive state: ");
    text.append(state.label());
    text
}

} // verus!
