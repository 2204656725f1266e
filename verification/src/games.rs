//! The mini-game selector of the console: which game is loaded, the rage-quit
//! counter, and the `play` command.

use vstd::prelude::*;
use crate::text::{eq_lower, msgs_view};
use crate::vulnerability::{BoolVulnerabilityType, VulnerabilityResource, spec_flag};

verus! {

/// At most one mini-game is loaded at a time.
#[derive(Debug, Clone, Copy, PartialEq, Eq, Structural)]
pub enum GameList {
    NoGame,
    TicTacToe,
    Labyrinth,
}

/// The console's mini-game bookkeeping.
pub struct ConsoleGamesData {
    pub loaded_game: GameList,
    pub ragequit_count: usize,
    pub has_won_laby: bool,
}

/// How many rage-quits are tolerated before the tracker flags them.
pub const RAGEQUIT_LIMIT: usize = 3;

impl ConsoleGamesData {
    /// A fresh console: no game loaded, nothing quit, nothing won.
    pub fn new() -> (r: ConsoleGamesData)
        ensures
            r.loaded_game == GameList::NoGame,
            r.ragequit_count == 0,
            !r.has_won_laby,
    {
        ConsoleGamesData { loaded_game: GameList::NoGame, ragequit_count: 0, has_won_laby: false }
    }

    /// Rage-quitting unloads the game and counts; past the tolerated number
    /// the vulnerability flag goes up.
    pub fn ragequit(&mut self, vuln_res: &mut VulnerabilityResource)
        ensures
            final(self).loaded_game == GameList::NoGame,
            final(self).ragequit_count == if old(self).ragequit_count < usize::MAX {
                old(self).ragequit_count + 1
            } else {
                usize::MAX as int
            },
            final(self).has_won_laby == old(self).has_won_laby,
            final(self).ragequit_count > RAGEQUIT_LIMIT ==> spec_flag(
                *final(vuln_res),
                BoolVulnerabilityType::TooManyRageQuit,
            ),
            final(self).ragequit_count <= RAGEQUIT_LIMIT ==> *final(vuln_res) == *old(vuln_res),
            final(self).ragequit_count > RAGEQUIT_LIMIT ==> {
                &&& forall|k: BoolVulnerabilityType|
                    k != BoolVulnerabilityType::TooManyRageQuit ==> spec_flag(*final(vuln_res), k)
                        == spec_flag(*old(vuln_res), k)
                &&& final(vuln_res).at_door == old(vuln_res).at_door
                &&& final(vuln_res).is_hiding == old(vuln_res).is_hiding
                &&& final(vuln_res).enemies == old(vuln_res).enemies
            },
    {
        self.loaded_game = GameList::NoGame;
        self.ragequit_count = self.ragequit_count.saturating_add(1);
        if self.ragequit_count > RAGEQUIT_LIMIT {
            vuln_res.raise(BoolVulnerabilityType::TooManyRageQuit);
        }
    }
}

/// The catalogue the console prints on `play` without (or with an unknown)
/// argument.
pub open spec fn spec_games_list() -> Seq<char> {
    "Printing the list of available games :\n\n"@ + "CONSOLE GAMES INSTALLED\n"@
        + "=======================\n"@ + "- Labyrinth: a labyrinth game\n"@
        + "- TicTacToe: you noe it\n\n"@
}

/// Prints the catalogue of installed games.
pub fn print_games_list(console_writer: &mut Vec<String>)
    ensures
        msgs_view(final(console_writer)@) == msgs_view(old(console_writer)@) + seq![
            spec_games_list(),
        ],
{
    let mut res = String::from_str("Printing the list of available games :\n\n");
    res.append("CONSOLE GAMES INSTALLED\n");
    res.append("=======================\n");
    res.append("- Labyrinth: a labyrinth game\n");
    res.append("- TicTacToe: you noe it\n\n");
    console_writer.push(res);
    proof {
        assert(msgs_view(console_writer@) =~= msgs_view(old(console_writer)@) + seq![
            spec_games_list(),
        ]);
    }
}

/// The complaint about a game that is not installed.
pub open spec fn spec_unknown_game(name: Seq<char>) -> Seq<char> {
    "The game '"@ + name + "' isn't installed yet..."@
}

/// The `play` command: loads the named mini-game, or prints the catalogue
/// when no or an unknown game is named.
pub fn handle_play_command(
    args: &Vec<String>,
    console_writer: &mut Vec<String>,
    cg_data: &mut ConsoleGamesData,
)
    requires
        args@.len() >= 1,
    ensures
        final(cg_data).ragequit_count == old(cg_data).ragequit_count,
        final(cg_data).has_won_laby == old(cg_data).has_won_laby,
        args@.len() == 1 ==> final(cg_data).loaded_game == old(cg_data).loaded_game && msgs_view(
            final(console_writer)@,
        ) == msgs_view(old(console_writer)@) + seq![
            "No game specified..."@,
            spec_games_list(),
        ],
        args@.len() > 1 && crate::text::spec_lower(args@[1]@) == "labyrinth"@ ==> final(cg_data).loaded_game == GameList::Labyrinth && *final(console_writer) == *old(console_writer),
        args@.len() > 1 && crate::text::spec_lower(args@[1]@) == "tictactoe"@ ==> final(cg_data).loaded_game == GameList::TicTacToe && *final(console_writer) == *old(console_writer),
        args@.len() > 1 && crate::text::spec_lower(args@[1]@) != "labyrinth"@
            && crate::text::spec_lower(args@[1]@) != "tictactoe"@ ==> final(cg_data).loaded_game
            == old(cg_data).loaded_game && msgs_view(final(console_writer)@) == msgs_view(
            old(console_writer)@,
        ) + seq![
            spec_unknown_game(args@[1]@),
            spec_games_list(),
        ],
{
    proof {
        assert("labyrinth"@ != "tictactoe"@) by {
            reveal_strlit("labyrinth");
            reveal_strlit("tictactoe");
            assert("labyrinth"@[0] == 'l');
            assert("tictactoe"@[0] == 't');
        }
    }
    if args.len() == 1 {
        console_writer.push(String::from_str("No game specified..."));
        print_games_list(console_writer);
        proof {
            assert(msgs_view(console_writer@) =~= msgs_view(old(console_writer)@) + seq![
                "No game specified..."@,
                spec_games_list(),
            ]);
        }
        return;
    }
    if eq_lower(args[1].as_str(), "labyrinth") {
        crate::laby_game::start_game(cg_data);
    } else if eq_lower(args[1].as_str(), "tictactoe") {
        crate::tictactoe::start_game(cg_data);
    } else {
        let mut msg = String::from_str("The game '");
        msg.append(args[1].as_str());
        msg.append("' isn't installed yet...");
        console_writer.push(msg);
        print_games_list(console_writer);
        proof {
            assert(msgs_view(console_writer@) =~= msgs_view(old(console_writer)@) + seq![
                spec_unknown_game(args@[1]@),
                spec_games_list(),
            ]);
        }
    }
}

} // verus!
