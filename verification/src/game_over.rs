//! The terminal outcome of a run: a typed reason and its user-facing text.

use vstd::prelude::*;

verus! {

#[derive(Debug, Clone, Copy, PartialEq, Eq, Structural)]
pub enum GameOverReason {
    DoorLeftOpen,
    TooManyRageQuit,
    TicTacToeLosing,
    LabyrinthLosing,
    LabyrinthWinning,
    LetThemIn,
    NeedsDepleted,
}

/// The text shown for each reason. Total: every reason has exactly one
/// message.
pub open spec fn spec_message(reason: GameOverReason) -> Seq<char> {
    match reason {
        GameOverReason::DoorLeftOpen => "Don't forget to close the door when focusing on something else."@,
        GameOverReason::TooManyRageQuit => "You ragequitted too many times, \nyou went in fury mode and made an heart attack."@,
        GameOverReason::TicTacToeLosing => "How dare you... lose a game of TicTacToe...\n(There is no AI, it's like losing to a baby...)"@,
        GameOverReason::LabyrinthLosing => "It's hard to stay alive there...\nMaybe in another life you will thrive and be a real MLG!"@,
        GameOverReason::LabyrinthWinning => "Congrats! What?! You really thought you could win?\n'Time to learn a lesson kiddo..."@,
        GameOverReason::LetThemIn => "Why break in when you can use the front door?"@,
        GameOverReason::NeedsDepleted => "You are a human too with needs.\n\"Next time be sure to eat enough\" would say grandma..."@,
    }
}

impl GameOverReason {
    /// The message for this reason.
    pub fn get_message(&self) -> (r: &'static str)
        ensures
            r@ == spec_message(*self),
    {
        match self {
            GameOverReason::DoorLeftOpen => "Don't forget to close the door when focusing on something else.",
            GameOverReason::TooManyRageQuit => "You ragequitted too many times, \nyou went in fury mode and made an heart attack.",
            GameOverReason::TicTacToeLosing => "How dare you... lose a game of TicTacToe...\n(There is no AI, it's like losing to a baby...)",
            GameOverReason::LabyrinthLosing => "It's hard to stay alive there...\nMaybe in another life you will thrive and be a real MLG!",
            GameOverReason::LabyrinthWinning => "Congrats! What?! You really thought you could win?\n'Time to learn a lesson kiddo...",
            GameOverReason::LetThemIn => "Why break in when you can use the front door?",
            GameOverReason::NeedsDepleted => "You are a human too with needs.\n\"Next time be sure to eat enough\" would say grandma...",
        }
    }
}

/// Law: the reason-to-message mapping is total and every message is
/// non-empty.
pub proof fn lemma_game_over_message_total(reason: GameOverReason)
    ensures
        spec_message(reason).len() > 0,
{
    reveal_strlit("Don't forget to close the door when focusing on something else.");
    reveal_strlit("You ragequitted too many times, \nyou went in fury mode and made an heart attack.");
    reveal_strlit("How dare you... lose a game of TicTacToe...\n(There is no AI, it's like losing to a baby...)");
    reveal_strlit("It's hard to stay alive there...\nMaybe in another life you will thrive and be a real MLG!");
    reveal_strlit("Congrats! What?! You really thought you could win?\n'Time to learn a lesson kiddo...");
    reveal_strlit("Why break in when you can use the front door?");
    reveal_strlit("You are a human too with needs.\n\"Next time be sure to eat enough\" would say grandma...");
}

/// What the game-over screen needs to know: the reason, and whether the
/// player sprite is hidden by the scare that ended the run (consumed by the
/// presentation layer).
pub struct GameOverData {
    pub reason: Option<GameOverReason>,
    pub hide_player_sprite: bool,
}

impl GameOverData {
    /// Fresh data: no reason recorded yet.
    pub fn new() -> (r: GameOverData)
        ensures
            r.reason is None,
            !r.hide_player_sprite,
    {
        GameOverData { reason: None, hide_player_sprite: false }
    }
}

} // verus!
