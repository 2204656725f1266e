//! The tic-tac-toe mini-game: a 3-by-3 grid, a random-move opponent, and
//! win, loss and tie detection.

use vstd::prelude::*;
use crate::console::{spec_echo, ConsoleData};
use crate::games::{ConsoleGamesData, GameList};
use crate::rng::GameRng;
use crate::text::{
    eq_lower, msgs_view, spec_dec, spec_split, spec_trim, split_spaces, str_eq, trim_str,
    u64_to_dec,
};
use crate::vulnerability::{spec_flag, BoolVulnerabilityType, VulnerabilityResource};

verus! {

/// Whose move it is; the opponent never moves out of turn.
#[derive(Debug, Clone, Copy, PartialEq, Eq, Structural)]
pub enum TurnType {
    PlayerTurn,
    AITurn,
}

impl Default for TurnType {
    /// The player opens the game.
    fn default() -> (r: TurnType)
        ensures
            r == TurnType::PlayerTurn,
    {
        TurnType::PlayerTurn
    }
}

/// The game's session state. The grid is row-major, nine cells: 0 empty,
/// 1 the player's pawn, 2 the opponent's.
pub struct TicTacToeData {
    pub has_seen_tutorial: bool,
    pub grid: Vec<u8>,
    pub current_turn: TurnType,
    pub waiting_for_input: bool,
    pub turn_number: usize,
}

/// A usable grid: nine cells, each empty or holding one of the two pawns.
pub open spec fn grid_wf(g: Seq<u8>) -> bool {
    g.len() == 9 && forall|i: int| 0 <= i < 9 ==> #[trigger] g[i] <= 2
}

/// One cell of the row-major grid.
pub open spec fn spec_cell(g: Seq<u8>, i: int, j: int) -> u8 {
    g[3 * i + j]
}

/// Whether `p` holds a full row, column or diagonal.
pub open spec fn spec_has_line(g: Seq<u8>, p: u8) -> bool {
    p != 0 && {
        ||| (exists|k: int|
            0 <= k < 3 && spec_cell(g, k, 0) == p && spec_cell(g, k, 1) == p && spec_cell(g, k, 2)
                == p)
        ||| (exists|k: int|
            0 <= k < 3 && spec_cell(g, 0, k) == p && spec_cell(g, 1, k) == p && spec_cell(g, 2, k)
                == p)
        ||| (spec_cell(g, 0, 0) == p && spec_cell(g, 1, 1) == p && spec_cell(g, 2, 2) == p)
        ||| (spec_cell(g, 2, 0) == p && spec_cell(g, 1, 1) == p && spec_cell(g, 0, 2) == p)
    }
}

/// One full row, matching and non-empty.
pub open spec fn spec_row_won(g: Seq<u8>, k: int) -> bool {
    spec_cell(g, k, 0) == spec_cell(g, k, 1) && spec_cell(g, k, 1) == spec_cell(g, k, 2)
        && spec_cell(g, k, 0) != 0
}

/// One full column, matching and non-empty.
pub open spec fn spec_col_won(g: Seq<u8>, k: int) -> bool {
    spec_cell(g, 0, k) == spec_cell(g, 1, k) && spec_cell(g, 1, k) == spec_cell(g, 2, k)
        && spec_cell(g, 0, k) != 0
}

/// A matching, non-empty diagonal.
pub open spec fn spec_diag_won(g: Seq<u8>) -> bool {
    ((spec_cell(g, 0, 0) == spec_cell(g, 1, 1) && spec_cell(g, 1, 1) == spec_cell(g, 2, 2)) || (
    spec_cell(g, 2, 0) == spec_cell(g, 1, 1) && spec_cell(g, 1, 1) == spec_cell(g, 0, 2)))
        && spec_cell(g, 1, 1) != 0
}

/// The winner the checks report: rows and columns in order, then the
/// diagonals; 0 with no full line.
pub open spec fn spec_winner(g: Seq<u8>) -> u8 {
    if spec_row_won(g, 0) {
        spec_cell(g, 0, 0)
    } else if spec_col_won(g, 0) {
        spec_cell(g, 0, 0)
    } else if spec_row_won(g, 1) {
        spec_cell(g, 1, 0)
    } else if spec_col_won(g, 1) {
        spec_cell(g, 0, 1)
    } else if spec_row_won(g, 2) {
        spec_cell(g, 2, 0)
    } else if spec_col_won(g, 2) {
        spec_cell(g, 0, 2)
    } else if spec_diag_won(g) {
        spec_cell(g, 1, 1)
    } else {
        0
    }
}

/// Law: the winner check is sound and complete. A non-zero report means that
/// very pawn holds a full line, and a zero report means nobody does.
pub proof fn lemma_winner_characterization(g: Seq<u8>)
    requires
        grid_wf(g),
    ensures
        spec_winner(g) != 0 ==> spec_has_line(g, spec_winner(g)),
        spec_winner(g) == 0 ==> forall|p: u8| !spec_has_line(g, p),
{
    if spec_winner(g) == 0 {
        assert forall|p: u8| !spec_has_line(g, p) by {
            if spec_has_line(g, p) {
                assert(!spec_row_won(g, 0) && !spec_row_won(g, 1) && !spec_row_won(g, 2));
                assert(!spec_col_won(g, 0) && !spec_col_won(g, 1) && !spec_col_won(g, 2));
                assert(!spec_diag_won(g));
                if exists|k: int|
                    0 <= k < 3 && spec_cell(g, k, 0) == p && spec_cell(g, k, 1) == p && spec_cell(
                        g,
                        k,
                        2,
                    ) == p {
                    let k = choose|k: int|
                        0 <= k < 3 && spec_cell(g, k, 0) == p && spec_cell(g, k, 1) == p
                            && spec_cell(g, k, 2) == p;
                    assert(spec_row_won(g, k));
                } else if exists|k: int|
                    0 <= k < 3 && spec_cell(g, 0, k) == p && spec_cell(g, 1, k) == p && spec_cell(
                        g,
                        2,
                        k,
                    ) == p {
                    let k = choose|k: int|
                        0 <= k < 3 && spec_cell(g, 0, k) == p && spec_cell(g, 1, k) == p
                            && spec_cell(g, 2, k) == p;
                    assert(spec_col_won(g, k));
                }
            }
        }
    }
}

/// A game at its defaults: an empty grid, the player to open, nothing shown
/// and nothing pending.
pub open spec fn fresh_ttt(r: TicTacToeData) -> bool {
    &&& !r.has_seen_tutorial
    &&& grid_wf(r.grid@)
    &&& (forall|i: int| 0 <= i < 9 ==> r.grid@[i] == 0)
    &&& r.current_turn == TurnType::PlayerTurn
    &&& !r.waiting_for_input
    &&& r.turn_number == 0
}

impl TicTacToeData {
    /// A fresh, empty game.
    pub fn new() -> (r: TicTacToeData)
        ensures
            fresh_ttt(r),
    {
        let mut grid: Vec<u8> = Vec::new();
        let mut i: usize = 0;
        while i < 9
            invariant
                i <= 9,
                grid@.len() == i,
                forall|j: int| 0 <= j < i ==> grid@[j] == 0,
            decreases 9 - i,
        {
            grid.push(0);
            i = i + 1;
        }
        TicTacToeData {
            has_seen_tutorial: false,
            grid,
            current_turn: TurnType::PlayerTurn,
            waiting_for_input: false,
            turn_number: 0,
        }
    }

    /// Back to the fresh, empty game.
    pub fn reset(&mut self)
        ensures
            fresh_ttt(*final(self)),
    {
        let fresh = TicTacToeData::new();
        *self = fresh;
    }

    /// The grid cell a position letter names, row then column.
    pub open spec fn spec_position(s: Seq<char>) -> Option<(usize, usize)> {
        let low = crate::text::spec_lower(s);
        if low == "a"@ {
            Some((0usize, 0usize))
        } else if low == "b"@ {
            Some((0usize, 1usize))
        } else if low == "c"@ {
            Some((0usize, 2usize))
        } else if low == "d"@ {
            Some((1usize, 0usize))
        } else if low == "e"@ {
            Some((1usize, 1usize))
        } else if low == "f"@ {
            Some((1usize, 2usize))
        } else if low == "g"@ {
            Some((2usize, 0usize))
        } else if low == "h"@ {
            Some((2usize, 1usize))
        } else if low == "i"@ {
            Some((2usize, 2usize))
        } else {
            None
        }
    }

    /// Maps a position letter, case-insensitively, to its row and column.
    pub fn get_position(letter: &str) -> (r: Option<(usize, usize)>)
        ensures
            r == TicTacToeData::spec_position(letter@),
            r is Some ==> r.unwrap().0 < 3 && r.unwrap().1 < 3,
    {
        if eq_lower(letter, "a") {
            Some((0, 0))
        } else if eq_lower(letter, "b") {
            Some((0, 1))
        } else if eq_lower(letter, "c") {
            Some((0, 2))
        } else if eq_lower(letter, "d") {
            Some((1, 0))
        } else if eq_lower(letter, "e") {
            Some((1, 1))
        } else if eq_lower(letter, "f") {
            Some((1, 2))
        } else if eq_lower(letter, "g") {
            Some((2, 0))
        } else if eq_lower(letter, "h") {
            Some((2, 1))
        } else {
            if eq_lower(letter, "i") {
                Some((2, 2))
            } else {
                None
            }
        }
    }

    /// The pawn drawn for a cell.
    pub open spec fn spec_pawn(v: u8) -> Seq<char> {
        if v == 0 {
            " "@
        } else if v == 1 {
            "X"@
        } else {
            "O"@
        }
    }

    /// Draws one cell.
    pub fn get_pawn(&self, i: usize, j: usize) -> (r: &'static str)
        requires
            grid_wf(self.grid@),
            i < 3,
            j < 3,
        ensures
            r@ == TicTacToeData::spec_pawn(spec_cell(self.grid@, i as int, j as int)),
    {
        match self.grid[i * 3 + j] {
            0 => " ",
            1 => "X",
            _ => "O",
        }
    }

    /// Whether any cell is still empty.
    pub fn has_space_available(&self) -> (r: bool)
        requires
            grid_wf(self.grid@),
        ensures
            r == exists|k: int| 0 <= k < 9 && self.grid@[k] == 0,
    {
        let mut k: usize = 0;
        while k < 9
            invariant
                k <= 9,
                grid_wf(self.grid@),
                forall|j: int| 0 <= j < k ==> self.grid@[j] != 0,
            decreases 9 - k,
        {
            if self.grid[k] == 0 {
                return true;
            }
            k = k + 1;
        }
        false
    }

    /// Reports the winner by the ordered row, column and diagonal checks.
    pub fn has_winner(&self) -> (r: u8)
        requires
            grid_wf(self.grid@),
        ensures
            r == spec_winner(self.grid@),
    {
        let g = &self.grid;
        let mut k: usize = 0;
        while k < 3
            invariant
                k <= 3,
                grid_wf(g@),
                g == &self.grid,
                forall|j: int| 0 <= j < k ==> !spec_row_won(g@, j) && !spec_col_won(g@, j),
            decreases 3 - k,
        {
            if g[k * 3] == g[k * 3 + 1] && g[k * 3 + 1] == g[k * 3 + 2] && g[k * 3] != 0 {
                return g[k * 3];
            }
            if g[k] == g[3 + k] && g[3 + k] == g[6 + k] && g[k] != 0 {
                return g[k];
            }
            k = k + 1;
        }
        if ((g[0] == g[4] && g[4] == g[8]) || (g[6] == g[4] && g[4] == g[2])) && g[4] != 0 {
            return g[4];
        }
        0
    }
}

/// The game's tutorial text.
pub open spec fn spec_ttt_tutorial() -> Seq<char> {
    "\n\n\nTicTactToe Tutorial\n"@ + "-------------------\n"@
        + "\nThe goal is to align 3 'X' the computer will try\nto align 3 'O'. You have to beat the computer!\n    \nThe grid is made of 9 cells from 'A' to 'I'.\n\n   A | B | C\n   _________\n   D | E | F\n   _________\n   G | H | I\n    \nTo play, type: 'place A' for example...\n    \nGood luck!\n"@
}

/// Renders the game's tutorial.
pub fn display_tutorial() -> (r: String)
    ensures
        r@ == spec_ttt_tutorial(),
{
    let mut res = String::from_str("\n\n\nTicTactToe Tutorial\n");
    res.append("-------------------\n");
    res.append(
        "\nThe goal is to align 3 'X' the computer will try\nto align 3 'O'. You have to beat the computer!\n    \nThe grid is made of 9 cells from 'A' to 'I'.\n\n   A | B | C\n   _________\n   D | E | F\n   _________\n   G | H | I\n    \nTo play, type: 'place A' for example...\n    \nGood luck!\n",
    );
    res
}

/// The grid as shown, with the position legend beside it.
pub open spec fn spec_display_grid(g: Seq<u8>) -> Seq<char> {
    "Current grid | Positions : \n"@ + TicTacToeData::spec_pawn(spec_cell(g, 0, 0)) + " | "@
        + TicTacToeData::spec_pawn(spec_cell(g, 0, 1)) + " | "@ + TicTacToeData::spec_pawn(
        spec_cell(g, 0, 2),
    ) + "        A | B | C \n"@ + "_________       _________\n"@ + TicTacToeData::spec_pawn(
        spec_cell(g, 1, 0),
    ) + " | "@ + TicTacToeData::spec_pawn(spec_cell(g, 1, 1)) + " | "@ + TicTacToeData::spec_pawn(
        spec_cell(g, 1, 2),
    ) + "        D | E | F \n"@ + "_________       _________\n"@ + TicTacToeData::spec_pawn(
        spec_cell(g, 2, 0),
    ) + " | "@ + TicTacToeData::spec_pawn(spec_cell(g, 2, 1)) + " | "@ + TicTacToeData::spec_pawn(
        spec_cell(g, 2, 2),
    ) + "        G | H | I\n\n"@
}

/// Renders the grid with its position legend.
pub fn display_grid(ttt_data: &TicTacToeData) -> (r: String)
    requires
        grid_wf(ttt_data.grid@),
    ensures
        r@ == spec_display_grid(ttt_data.grid@),
{
    let mut res = String::from_str("Current grid | Positions : \n");
    res.append(ttt_data.get_pawn(0, 0));
    res.append(" | ");
    res.append(ttt_data.get_pawn(0, 1));
    res.append(" | ");
    res.append(ttt_data.get_pawn(0, 2));
    res.append("        A | B | C \n");
    res.append("_________       _________\n");
    res.append(ttt_data.get_pawn(1, 0));
    res.append(" | ");
    res.append(ttt_data.get_pawn(1, 1));
    res.append(" | ");
    res.append(ttt_data.get_pawn(1, 2));
    res.append("        D | E | F \n");
    res.append("_________       _________\n");
    res.append(ttt_data.get_pawn(2, 0));
    res.append(" | ");
    res.append(ttt_data.get_pawn(2, 1));
    res.append(" | ");
    res.append(ttt_data.get_pawn(2, 2));
    res.append("        G | H | I\n\n");
    res
}

/// The announcement of a placed pawn.
pub open spec fn spec_place_message(i: int, j: int) -> Seq<char> {
    "You place a pawn at position ("@ + spec_dec(i) + ", "@ + spec_dec(j) + ")"@
}

/// Places the player's pawn at the named position: only while the game waits
/// for input, only on a free cell, and the move hands the turn to the
/// opponent. Bad positions and taken cells get their messages and change
/// nothing.
pub fn play_position(
    place: &str,
    ttt_data: &mut TicTacToeData,
    console_writer: &mut Vec<String>,
)
    requires
        grid_wf(old(ttt_data).grid@),
    ensures
        grid_wf(final(ttt_data).grid@),
        !old(ttt_data).waiting_for_input ==> *final(ttt_data) == *old(ttt_data) && *final(console_writer) == *old(console_writer),
        old(ttt_data).waiting_for_input && TicTacToeData::spec_position(place@) is Some && {
            let (i, j) = TicTacToeData::spec_position(place@).unwrap();
            spec_cell(old(ttt_data).grid@, i as int, j as int) == 0
        } ==> {
            let (i, j) = TicTacToeData::spec_position(place@).unwrap();
            &&& final(ttt_data).grid@ == old(ttt_data).grid@.update(3 * (i as int) + (j as int), 1u8)
            &&& spec_cell(final(ttt_data).grid@, i as int, j as int) == 1
            &&& final(ttt_data).current_turn == TurnType::AITurn
            &&& !final(ttt_data).waiting_for_input
            &&& final(ttt_data).turn_number == old(ttt_data).turn_number
            &&& msgs_view(final(console_writer)@) == msgs_view(old(console_writer)@) + seq![
                spec_place_message(i as int, j as int),
            ]
        },
        old(ttt_data).waiting_for_input && TicTacToeData::spec_position(place@) is Some && {
            let (i, j) = TicTacToeData::spec_position(place@).unwrap();
            spec_cell(old(ttt_data).grid@, i as int, j as int) == 1
        } ==> *final(ttt_data) == *old(ttt_data) && msgs_view(final(console_writer)@) == msgs_view(
            old(console_writer)@,
        ) + seq!["You already placed a pawn here"@],
        old(ttt_data).waiting_for_input && TicTacToeData::spec_position(place@) is Some && {
            let (i, j) = TicTacToeData::spec_position(place@).unwrap();
            spec_cell(old(ttt_data).grid@, i as int, j as int) == 2
        } ==> *final(ttt_data) == *old(ttt_data) && msgs_view(final(console_writer)@) == msgs_view(
            old(console_writer)@,
        ) + seq!["You can't place a pawn on top of your opponent's"@],
        old(ttt_data).waiting_for_input && TicTacToeData::spec_position(place@) is None ==> *final(ttt_data) == *old(ttt_data) && msgs_view(final(console_writer)@) == msgs_view(
            old(console_writer)@,
        ) + seq!["'"@ + place@ + "' is not a valid position (valid: [A-I])"@],
{
    if !ttt_data.waiting_for_input {
        return;
    }
    let ghost w0 = console_writer@;
    match TicTacToeData::get_position(place) {
        Some((i, j)) => {
            let idx = i * 3 + j;
            if ttt_data.grid[idx] == 1 {
                console_writer.push(String::from_str("You already placed a pawn here"));
                proof {
                    crate::text::lemma_msgs_view_snoc(
                        msgs_view(w0),
                        w0,
                        console_writer@,
                        "You already placed a pawn here"@,
                    );
                }
            } else if ttt_data.grid[idx] == 2 {
                console_writer.push(
                    String::from_str("You can't place a pawn on top of your opponent's"),
                );
                proof {
                    crate::text::lemma_msgs_view_snoc(
                        msgs_view(w0),
                        w0,
                        console_writer@,
                        "You can't place a pawn on top of your opponent's"@,
                    );
                }
            } else {
                let mut msg = String::from_str("You place a pawn at position (");
                let row = u64_to_dec(i as u64);
                msg.append(row.as_str());
                msg.append(", ");
                let col = u64_to_dec(j as u64);
                msg.append(col.as_str());
                msg.append(")");
                console_writer.push(msg);
                proof {
                    crate::text::lemma_msgs_view_snoc(
                        msgs_view(w0),
                        w0,
                        console_writer@,
                        spec_place_message(i as int, j as int),
                    );
                }
                ttt_data.grid[idx] = 1;
                ttt_data.current_turn = TurnType::AITurn;
                ttt_data.waiting_for_input = false;
            }
        },
        None => {
            let mut msg = String::from_str("'");
            msg.append(place);
            msg.append("' is not a valid position (valid: [A-I])");
            console_writer.push(msg);
            proof {
                crate::text::lemma_msgs_view_snoc(
                    msgs_view(w0),
                    w0,
                    console_writer@,
                    "'"@ + place@ + "' is not a valid position (valid: [A-I])"@,
                );
            }
        },
    }
}

/// Loads tic-tac-toe into the console.
pub fn start_game(cg_data: &mut ConsoleGamesData)
    ensures
        final(cg_data).loaded_game == GameList::TicTacToe,
        final(cg_data).ragequit_count == old(cg_data).ragequit_count,
        final(cg_data).has_won_laby == old(cg_data).has_won_laby,
{
    cg_data.loaded_game = GameList::TicTacToe;
}

/// Whether this mini-game's systems run: only while it is the loaded one.
pub fn should_run(cg_data: &ConsoleGamesData) -> (r: bool)
    ensures
        r == (cg_data.loaded_game == GameList::TicTacToe),
{
    cg_data.loaded_game == GameList::TicTacToe
}

/// The header of one shown turn.
pub open spec fn spec_turn_header(n: int) -> Seq<char> {
    "---------------------------\nTurn number: "@ + spec_dec(n)
}

/// The opening of one shown turn: the tutorial page where it has not been
/// shown yet, then the turn header and the grid.
pub open spec fn spec_loop_prefix(pre: TicTacToeData) -> Seq<Seq<char>> {
    let shown_turn: int = if pre.has_seen_tutorial {
        pre.turn_number as int
    } else {
        1
    };
    (if pre.has_seen_tutorial {
        Seq::<Seq<char>>::empty()
    } else {
        seq![spec_ttt_tutorial()]
    }) + seq![spec_turn_header(shown_turn), spec_display_grid(pre.grid@)]
}

/// The grid changed at exactly one previously empty cell, now holding the
/// opponent's pawn.
pub open spec fn spec_ai_moved(pre: Seq<u8>, post: Seq<u8>) -> bool {
    exists|k: int| 0 <= k < 9 && pre[k] == 0 && post == pre.update(k, 2u8)
}

/// The game's once-per-frame pass. The first pass shows the tutorial; then,
/// whenever the game is not waiting for input, it shows the turn and the
/// grid, ends the game on a full line (raising the losing flag when the
/// opponent holds it) or a full grid, asks the player to move, or makes the
/// opponent's move: one uniformly drawn free cell, never out of turn.
pub fn game_loop(
    cg_data: &mut ConsoleGamesData,
    ttt_data: &mut TicTacToeData,
    console_writer: &mut Vec<String>,
    vuln_res: &mut VulnerabilityResource,
    rng: &mut GameRng,
)
    requires
        grid_wf(old(ttt_data).grid@),
    ensures
        grid_wf(final(ttt_data).grid@),
        old(ttt_data).has_seen_tutorial && old(ttt_data).waiting_for_input ==> *final(ttt_data)
            == *old(ttt_data) && *final(cg_data) == *old(cg_data) && *final(vuln_res) == *old(vuln_res) && *final(console_writer) == *old(console_writer),
        !old(ttt_data).has_seen_tutorial && old(ttt_data).waiting_for_input ==> final(ttt_data).has_seen_tutorial && final(ttt_data).turn_number == 1 && msgs_view(final(console_writer)@)
            == msgs_view(old(console_writer)@) + seq![spec_ttt_tutorial()],
        !old(ttt_data).waiting_for_input && spec_winner(old(ttt_data).grid@) == 1 ==> {
            &&& final(cg_data).loaded_game == GameList::NoGame
            &&& fresh_ttt(*final(ttt_data))
            &&& *final(vuln_res) == *old(vuln_res)
            &&& msgs_view(final(console_writer)@) == msgs_view(old(console_writer)@)
                + spec_loop_prefix(*old(ttt_data)) + seq!["CONGRATS!!! You won"@]
        },
        !old(ttt_data).waiting_for_input && spec_winner(old(ttt_data).grid@) == 2 ==> {
            &&& final(cg_data).loaded_game == GameList::NoGame
            &&& fresh_ttt(*final(ttt_data))
            &&& spec_flag(*final(vuln_res), BoolVulnerabilityType::TicTacToeLosing)
            &&& forall|k: BoolVulnerabilityType|
                k != BoolVulnerabilityType::TicTacToeLosing ==> spec_flag(*final(vuln_res), k)
                    == spec_flag(*old(vuln_res), k)
            &&& final(vuln_res).at_door == old(vuln_res).at_door
            &&& final(vuln_res).is_hiding == old(vuln_res).is_hiding
            &&& final(vuln_res).enemies == old(vuln_res).enemies
            &&& msgs_view(final(console_writer)@) == msgs_view(old(console_writer)@)
                + spec_loop_prefix(*old(ttt_data)) + seq!["You lost like a *****"@]
        },
        !old(ttt_data).waiting_for_input && spec_winner(old(ttt_data).grid@) == 0 && !(exists|
            k: int,
        | 0 <= k < 9 && old(ttt_data).grid@[k] == 0) ==> {
            &&& final(cg_data).loaded_game == GameList::NoGame
            &&& fresh_ttt(*final(ttt_data))
            &&& *final(vuln_res) == *old(vuln_res)
            &&& msgs_view(final(console_writer)@) == msgs_view(old(console_writer)@)
                + spec_loop_prefix(*old(ttt_data)) + seq!["It's a tie... What are you doing ??!"@]
        },
        !old(ttt_data).waiting_for_input && spec_winner(old(ttt_data).grid@) == 0 && (exists|
            k: int,
        | 0 <= k < 9 && old(ttt_data).grid@[k] == 0) && old(ttt_data).current_turn
            == TurnType::PlayerTurn ==> {
            &&& final(ttt_data).waiting_for_input
            &&& final(ttt_data).current_turn == TurnType::PlayerTurn
            &&& final(ttt_data).grid@ == old(ttt_data).grid@
            &&& *final(cg_data) == *old(cg_data)
            &&& *final(vuln_res) == *old(vuln_res)
            &&& msgs_view(final(console_writer)@) == msgs_view(old(console_writer)@)
                + spec_loop_prefix(*old(ttt_data)) + seq!["It's your turn to play [A-I]:"@]
        },
        !old(ttt_data).waiting_for_input && spec_winner(old(ttt_data).grid@) == 0 && (exists|
            k: int,
        | 0 <= k < 9 && old(ttt_data).grid@[k] == 0) && old(ttt_data).current_turn
            == TurnType::AITurn ==> {
            &&& spec_ai_moved(old(ttt_data).grid@, final(ttt_data).grid@)
            &&& final(ttt_data).current_turn == TurnType::PlayerTurn
            &&& !final(ttt_data).waiting_for_input
            &&& *final(cg_data) == *old(cg_data)
            &&& *final(vuln_res) == *old(vuln_res)
            &&& msgs_view(final(console_writer)@) == msgs_view(old(console_writer)@)
                + spec_loop_prefix(*old(ttt_data))
        },
{
    let ghost w0 = console_writer@;
    if !ttt_data.has_seen_tutorial {
        ttt_data.turn_number = 1;
        console_writer.push(display_tutorial());
        ttt_data.has_seen_tutorial = true;
        proof {
            crate::text::lemma_msgs_view_snoc(
                msgs_view(w0),
                w0,
                console_writer@,
                spec_ttt_tutorial(),
            );
        }
    }
    if ttt_data.waiting_for_input {
        return;
    }
    let ghost w1 = console_writer@;
    let mut header = String::from_str("---------------------------\nTurn number: ");
    let count = u64_to_dec(ttt_data.turn_number as u64);
    header.append(count.as_str());
    console_writer.push(header);
    proof {
        crate::text::lemma_msgs_view_snoc(
            msgs_view(w1),
            w1,
            console_writer@,
            spec_turn_header(ttt_data.turn_number as int),
        );
    }
    let ghost w2 = console_writer@;
    console_writer.push(display_grid(ttt_data));
    proof {
        crate::text::lemma_msgs_view_snoc(
            msgs_view(w2),
            w2,
            console_writer@,
            spec_display_grid(ttt_data.grid@),
        );
        assert(msgs_view(console_writer@) =~= msgs_view(old(console_writer)@) + spec_loop_prefix(
            *old(ttt_data),
        ));
    }
    let ghost w3 = console_writer@;

    let winner = ttt_data.has_winner();
    if winner == 1 {
        console_writer.push(String::from_str("CONGRATS!!! You won"));
        cg_data.loaded_game = GameList::NoGame;
        ttt_data.reset();
        proof {
            crate::text::lemma_msgs_view_snoc(
                msgs_view(w3),
                w3,
                console_writer@,
                "CONGRATS!!! You won"@,
            );
        }
        return;
    }
    if winner == 2 {
        console_writer.push(String::from_str("You lost like a *****"));
        cg_data.loaded_game = GameList::NoGame;
        ttt_data.reset();
        vuln_res.raise(BoolVulnerabilityType::TicTacToeLosing);
        proof {
            crate::text::lemma_msgs_view_snoc(
                msgs_view(w3),
                w3,
                console_writer@,
                "You lost like a *****"@,
            );
        }
        return;
    }
    if !ttt_data.has_space_available() {
        console_writer.push(String::from_str("It's a tie... What are you doing ??!"));
        cg_data.loaded_game = GameList::NoGame;
        ttt_data.reset();
        proof {
            crate::text::lemma_msgs_view_snoc(
                msgs_view(w3),
                w3,
                console_writer@,
                "It's a tie... What are you doing ??!"@,
            );
        }
        return;
    }
    match ttt_data.current_turn {
        TurnType::PlayerTurn => {
            ttt_data.turn_number = ttt_data.turn_number.saturating_add(1);
            console_writer.push(String::from_str("It's your turn to play [A-I]:"));
            ttt_data.waiting_for_input = true;
            proof {
                crate::text::lemma_msgs_view_snoc(
                    msgs_view(w3),
                    w3,
                    console_writer@,
                    "It's your turn to play [A-I]:"@,
                );
            }
        },
        TurnType::AITurn => {
            let mut empties: Vec<usize> = Vec::new();
            let mut k: usize = 0;
            while k < 9
                invariant
                    k <= 9,
                    grid_wf(ttt_data.grid@),
                    forall|j: int|
                        0 <= j < empties@.len() ==> 0 <= #[trigger] empties@[j] < k
                            && ttt_data.grid@[empties@[j] as int] == 0,
                    forall|j: int|
                        0 <= j < k && ttt_data.grid@[j] == 0 ==> empties@.contains(j as usize),
                    empties@.len() <= k,
                decreases 9 - k,
            {
                let ghost prev = empties@;
                if ttt_data.grid[k] == 0 {
                    empties.push(k);
                    proof {
                        assert(empties@[empties@.len() - 1] == k);
                    }
                }
                proof {
                    assert forall|j: int|
                        0 <= j < k + 1 && ttt_data.grid@[j] == 0 implies empties@.contains(
                        j as usize,
                    ) by {
                        if j < k {
                            let w = choose|w: int| 0 <= w < prev.len() && prev[w] == j as usize;
                            assert(empties@[w] == j as usize);
                        } else {
                            assert(empties@[empties@.len() - 1] == k);
                        }
                    }
                }
                k = k + 1;
            }
            let pick = empties[rng.below(empties.len() as u32) as usize];
            ttt_data.grid[pick] = 2;
            ttt_data.current_turn = TurnType::PlayerTurn;
            ttt_data.waiting_for_input = false;
            proof {
                assert(ttt_data.grid@ =~= old(ttt_data).grid@.update(pick as int, 2u8));
            }
        },
    }
}

/// This game's dispatcher: the echo, then `clear`, `help`, `ragequit`,
/// `tutorial` and `place <pos>`; unknown verbs get the deterministic
/// complaint.
pub fn commands_handler(
    cmd: &str,
    console_writer: &mut Vec<String>,
    cg_data: &mut ConsoleGamesData,
    data: &mut ConsoleData,
    ttt_data: &mut TicTacToeData,
    vuln_res: &mut VulnerabilityResource,
)
    requires
        grid_wf(old(ttt_data).grid@),
    ensures
        grid_wf(final(ttt_data).grid@),
        cmd@.len() == 0 ==> *final(ttt_data) == *old(ttt_data) && *final(cg_data) == *old(cg_data)
            && *final(console_writer) == *old(console_writer) && *final(data) == *old(data)
            && *final(vuln_res) == *old(vuln_res),
        cmd@.len() > 0 ==> {
            let verb = spec_split(spec_trim(cmd@))[0];
            &&& (verb != "ragequit"@ ==> *final(vuln_res) == *old(vuln_res))
            &&& (verb == "clear"@ ==> final(data).messages@.len() == 0 && *final(ttt_data) == *old(ttt_data))
            &&& (verb == "ragequit"@ ==> {
                &&& final(cg_data).loaded_game == GameList::NoGame
                &&& final(cg_data).ragequit_count == if old(cg_data).ragequit_count < usize::MAX {
                    old(cg_data).ragequit_count + 1
                } else {
                    usize::MAX as int
                }
                &&& fresh_ttt(*final(ttt_data))
                &&& msgs_view(final(console_writer)@) == msgs_view(old(console_writer)@) + seq![
                    spec_echo(cmd@),
                    "Quitting TicTacToe..."@,
                ]
            })
            &&& (verb == "tutorial"@ ==> *final(ttt_data) == *old(ttt_data) && msgs_view(
                final(console_writer)@,
            ) == msgs_view(old(console_writer)@) + seq![spec_echo(cmd@), spec_ttt_tutorial()])
            &&& (verb == "place"@ && spec_split(spec_trim(cmd@)).len() == 1 ==> *final(ttt_data)
                == *old(ttt_data))
            &&& (verb != "clear"@ && verb != "help"@ && verb != "ragequit"@ && verb != "tutorial"@
                && verb != "place"@ ==> msgs_view(final(console_writer)@) == msgs_view(
                old(console_writer)@,
            ) + seq![
                spec_echo(cmd@),
                crate::console::spec_unknown_command(verb),
            ] && *final(ttt_data) == *old(ttt_data))
        },
{
    proof {
        reveal_strlit("clear");
        reveal_strlit("help");
        reveal_strlit("ragequit");
        reveal_strlit("tutorial");
        reveal_strlit("place");
        assert("clear"@.len() == 5 && "help"@.len() == 4 && "ragequit"@.len() == 8
            && "tutorial"@.len() == 8 && "place"@.len() == 5);
        assert("clear"@[0] == 'c' && "place"@[0] == 'p' && "ragequit"@[0] == 'r' && "tutorial"@[0]
            == 't');
    }
    if cmd.unicode_len() == 0 {
        return;
    }
    let trimmed = trim_str(cmd);
    let args = split_spaces(trimmed.as_str());
    proof {
        crate::text::lemma_split_nonempty(spec_trim(cmd@));
    }
    let verb = &args[0];
    let is_clear = str_eq(verb.as_str(), "clear");
    if !is_clear {
        crate::console::echo_command(cmd, console_writer);
    }
    let ghost mid = console_writer@;
    if is_clear {
        data.messages.clear();
    } else if str_eq(verb.as_str(), "help") {
        console_writer.push(ttt_help());
    } else if str_eq(verb.as_str(), "ragequit") {
        ttt_data.reset();
        console_writer.push(String::from_str("Quitting TicTacToe..."));
        cg_data.ragequit(vuln_res);
        proof {
            crate::text::lemma_msgs_view_snoc(
                msgs_view(old(console_writer)@) + seq![spec_echo(cmd@)],
                mid,
                console_writer@,
                "Quitting TicTacToe..."@,
            );
            assert(msgs_view(old(console_writer)@) + seq![spec_echo(cmd@)] + seq![
                "Quitting TicTacToe..."@,
            ] =~= msgs_view(old(console_writer)@) + seq![
                spec_echo(cmd@),
                "Quitting TicTacToe..."@,
            ]);
        }
    } else if str_eq(verb.as_str(), "tutorial") {
        console_writer.push(display_tutorial());
        proof {
            crate::text::lemma_msgs_view_snoc(
                msgs_view(old(console_writer)@) + seq![spec_echo(cmd@)],
                mid,
                console_writer@,
                spec_ttt_tutorial(),
            );
            assert(msgs_view(old(console_writer)@) + seq![spec_echo(cmd@)] + seq![
                spec_ttt_tutorial(),
            ] =~= msgs_view(old(console_writer)@) + seq![spec_echo(cmd@), spec_ttt_tutorial()]);
        }
    } else if str_eq(verb.as_str(), "place") {
        if args.len() == 1 {
            console_writer.push(String::from_str("No position provided\nUsage: place <pos>"));
        } else {
            play_position(args[1].as_str(), ttt_data, console_writer);
        }
    } else {
        let mut msg = String::from_str("I didn't understand the command: \"");
        msg.append(verb.as_str());
        msg.append("\"");
        console_writer.push(msg);
        proof {
            crate::text::lemma_msgs_view_snoc(
                msgs_view(old(console_writer)@) + seq![spec_echo(cmd@)],
                mid,
                console_writer@,
                crate::console::spec_unknown_command(spec_split(spec_trim(cmd@))[0]),
            );
            assert(msgs_view(old(console_writer)@) + seq![spec_echo(cmd@)] + seq![
                crate::console::spec_unknown_command(spec_split(spec_trim(cmd@))[0]),
            ] =~= msgs_view(old(console_writer)@) + seq![
                spec_echo(cmd@),
                crate::console::spec_unknown_command(spec_split(spec_trim(cmd@))[0]),
            ]);
        }
    }
}

/// This game's help text.
pub open spec fn spec_ttt_help() -> Seq<char> {
    "\nSHOWING 'TicTacToe' COMMANDS\n"@ + "==========================\n\n"@
        + "- help : Displays this message\n"@ + "- clear : Clears commands on the screen\n"@
        + "- tutorial : Show the tutorial for this game\n"@
        + "- place <pos> : Place a pawn at the position <pos>\n"@
        + "- ragequit : Leaves the game (you will lose your progress)\n"@
}

/// Renders this game's help text.
pub fn ttt_help() -> (r: String)
    ensures
        r@ == spec_ttt_help(),
{
    let mut res = String::from_str("\nSHOWING 'TicTacToe' COMMANDS\n");
    res.append("==========================\n\n");
    res.append("- help : Displays this message\n");
    res.append("- clear : Clears commands on the screen\n");
    res.append("- tutorial : Show the tutorial for this game\n");
    res.append("- place <pos> : Place a pawn at the position <pos>\n");
    res.append("- ragequit : Leaves the game (you will lose your progress)\n");
    res
}

} // verus!
