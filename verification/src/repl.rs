//! Classification of one line of interactive input.
//!
//! The interactive loop recognizes two things at its boundary: an exit
//! command — `quit` or `q` in any case — and empty input, which is a no-op.
//! Everything else is a prompt to complete. The loop itself, being plain
//! line I/O, lives with the driver; the decision lives here.

use vstd::prelude::*;
use vstd::string::StrSliceExecFns;

verus! {

/// What the interactive loop does with one (already trimmed) line.
#[derive(Debug, PartialEq, Eq, Structural)]
pub enum InputAction {
    /// End the interactive loop.
    Quit,
    /// Do nothing and wait for the next line.
    Empty,
    /// Submit the line as a completion prompt.
    Prompt,
}

/// True of exactly the exit commands: `quit` or `q`, each letter in either
/// case.
pub open spec fn spec_is_quit(s: Seq<char>) -> bool {
    (s.len() == 1 && (s[0] == 'q' || s[0] == 'Q')) || (s.len() == 4 && (s[0] == 'q' || s[0] == 'Q')
        && (s[1] == 'u' || s[1] == 'U') && (s[2] == 'i' || s[2] == 'I') && (s[3] == 't' || s[3]
        == 'T'))
}

/// Decides what one trimmed line of input is: an exit command, empty input,
/// or a prompt.
pub fn classify_input(input: &str) -> (action: InputAction)
    ensures
        action == InputAction::Quit <==> spec_is_quit(input@),
        action == InputAction::Empty <==> input@.len() == 0,
        action == InputAction::Prompt <==> (input@.len() > 0 && !spec_is_quit(input@)),
{
    let n = input.unicode_len();
    if n == 0 {
        InputAction::Empty
    } else if n == 1 {
        let c0 = input.get_char(0);
        if c0 == 'q' || c0 == 'Q' {
            InputAction::Quit
        } else {
            InputAction::Prompt
        }
    } else if n == 4 {
        let c0 = input.get_char(0);
        let c1 = input.get_char(1);
        let c2 = input.get_char(2);
        let c3 = input.get_char(3);
        if (c0 == 'q' || c0 == 'Q') && (c1 == 'u' || c1 == 'U') && (c2 == 'i' || c2 == 'I') && (c3
            == 't' || c3 == 'T') {
            InputAction::Quit
        } else {
            InputAction::Prompt
        }
    } else {
        InputAction::Prompt
    }
}

} // verus!
