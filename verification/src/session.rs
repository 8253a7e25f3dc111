//! Session decisions: what the difficulty menu does with one parsed line,
//! and whether an answer to the replay prompt continues the session.

use vstd::prelude::*;
use vstd::string::*;

verus! {

/// What the menu does with one line of input.
#[derive(Clone, Copy, PartialEq, Eq, Structural, Debug)]
pub enum MenuAction {
    /// The player chose 0: end the session.
    Quit,
    /// The player chose a difficulty 1, 2 or 3: play a round with it.
    Play(u8),
    /// Anything else: reject with a message and ask again.
    Invalid,
}

/// The menu's decision table: 0 quits, 1 to 3 play at that difficulty,
/// everything else — a number out of range or, as `None`, a line that is
/// no number at all — is invalid and only re-prompts.
pub open spec fn spec_menu_action(choice: Option<u64>) -> MenuAction {
    match choice {
        Option::Some(d) => if d == 0 {
            MenuAction::Quit
        } else if d <= 3 {
            MenuAction::Play(d as u8)
        } else {
            MenuAction::Invalid
        },
        Option::None => MenuAction::Invalid,
    }
}

/// Decide what the menu does with one parsed line; `None` stands for a
/// line that did not parse as a number.
pub fn menu_action(choice: Option<u64>) -> (a: MenuAction)
    ensures
        a == spec_menu_action(choice),
        (a matches MenuAction::Play(d) ==> 1 <= d <= 3),
{
    match choice {
        Option::Some(d) => if d == 0 {
            MenuAction::Quit
        } else if d <= 3 {
            MenuAction::Play(d as u8)
        } else {
            MenuAction::Invalid
        },
        Option::None => MenuAction::Invalid,
    }
}

/// Whether an answer to the replay prompt continues the session: only the
/// single letter `y` does, once the interface layer has trimmed and
/// case-folded the line. Anything else ends the session.
pub fn wants_replay(answer: &str) -> (r: bool)
    ensures
        r == (answer@ == "y"@),
{
    proof {
        reveal_strlit("y");
    }
    if answer.unicode_len() == 1 && answer.get_char(0) == 'y' {
        proof {
            assert(answer@ =~= "y"@);
        }
        true
    } else {
        false
    }
}

} // verus!
