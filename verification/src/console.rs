//! The in-world console: its line buffer and transcript, and the global
//! command dispatcher (the mini-games plug their own dispatchers in beside
//! it).

use vstd::prelude::*;
use crate::games::{handle_play_command, ConsoleGamesData, GameList};
use crate::text::{msgs_view, spec_split, spec_trim, split_spaces, str_eq, trim_str};

verus! {

/// A line to print to the console's transcript.
pub struct PrintConsoleEvent(pub String);

/// A line the player submitted.
pub struct EnteredConsoleCommandEvent(pub String);

/// The console's mutable state: the line being typed, the opening animation
/// flags the presentation layer reads, and the transcript.
pub struct ConsoleData {
    pub enter_command: String,
    pub is_opening: bool,
    pub fully_opened: bool,
    pub messages: Vec<String>,
}

impl ConsoleData {
    /// A fresh, closed console with an empty transcript.
    pub fn new() -> (r: ConsoleData)
        ensures
            r.enter_command@.len() == 0,
            !r.is_opening,
            !r.fully_opened,
            r.messages@.len() == 0,
    {
        ConsoleData {
            enter_command: String::new(),
            is_opening: false,
            fully_opened: false,
            messages: Vec::new(),
        }
    }

    /// Keeps the line being typed within the console's 144-character width;
    /// anything past it is cut off.
    pub fn clamp_enter_command(&mut self)
        ensures
            final(self).enter_command@ == if old(self).enter_command@.len() > 144 {
                old(self).enter_command@.subrange(0, 144)
            } else {
                old(self).enter_command@
            },
            final(self).enter_command@.len() <= 144,
            final(self).is_opening == old(self).is_opening,
            final(self).fully_opened == old(self).fully_opened,
            final(self).messages == old(self).messages,
    {
        if self.enter_command.as_str().unicode_len() > 144 {
            let cut = self.enter_command.as_str().substring_char(0, 144).to_owned();
            self.enter_command = cut;
        }
    }
}

/// The dispatcher only runs while no mini-game is loaded; a loaded game's own
/// dispatcher takes over.
pub fn should_run_cmd_handler(cg_data: &ConsoleGamesData) -> (r: bool)
    ensures
        r == (cg_data.loaded_game == GameList::NoGame),
{
    cg_data.loaded_game == GameList::NoGame
}

/// The transcript echo of a submitted command: a prompt, then the trimmed
/// line.
pub open spec fn spec_echo(cmd: Seq<char>) -> Seq<char> {
    "> "@ + spec_trim(cmd)
}

/// The deterministic complaint about an unknown verb.
pub open spec fn spec_unknown_command(verb: Seq<char>) -> Seq<char> {
    "I didn't understand the command: \""@ + verb + "\""@
}

/// The global help text.
pub open spec fn spec_global_help() -> Seq<char> {
    "\nSHOWING AVAILABLE COMMANDS\n"@ + "==========================\n\n"@
        + "- help : Displays this message\n"@ + "- clear : Clears commands on the screen\n"@
        + "- motd : Prints informations about YOUR computer\n"@
        + "- play <game> : Plays the game <game>\n"@
}

/// Builds the global help text.
pub fn display_help() -> (r: String)
    ensures
        r@ == spec_global_help(),
{
    let mut res = String::from_str("\nSHOWING AVAILABLE COMMANDS\n");
    res.append("==========================\n\n");
    res.append("- help : Displays this message\n");
    res.append("- clear : Clears commands on the screen\n");
    res.append("- motd : Prints informations about YOUR computer\n");
    res.append("- play <game> : Plays the game <game>\n");
    proof {
        assert(res@ =~= spec_global_help());
    }
    res
}

/// Echoes the submitted line to the transcript, as every non-`clear` command
/// does first.
pub fn echo_command(cmd: &str, console_writer: &mut Vec<String>)
    ensures
        msgs_view(final(console_writer)@) == msgs_view(old(console_writer)@) + seq![
            spec_echo(cmd@),
        ],
{
    let mut user_input = String::from_str("> ");
    let trimmed = trim_str(cmd);
    user_input.append(trimmed.as_str());
    console_writer.push(user_input);
    proof {
        assert(msgs_view(console_writer@) =~~= msgs_view(old(console_writer)@) + seq![
            spec_echo(cmd@),
        ]);
    }
}

/// What the machine-of-the-day banner describes: plain values the caller
/// reads off the host once and hands in.
pub struct SystemInfo {
    pub username: Option<String>,
    pub name: Option<String>,
    pub kernel_version: Option<String>,
    pub os_version: Option<String>,
    pub host_name: Option<String>,
    pub processors: usize,
    pub frequency_mhz: u64,
    pub used_memory_kb: u64,
    pub total_memory_kb: u64,
}

/// Two decimal digits, zero-padded.
pub open spec fn spec_two_digits(d: int) -> Seq<char> {
    seq![
        crate::text::spec_digit_char(d / 10),
        crate::text::spec_digit_char(d % 10),
    ]
}

/// Renders two zero-padded decimal digits.
pub fn two_digit_str(d: u64) -> (r: String)
    requires
        d < 100,
    ensures
        r@ == spec_two_digits(d as int),
{
    let mut s = String::new();
    let tens = crate::text::u64_to_dec(d / 10);
    s.append(tens.as_str());
    let ones = crate::text::u64_to_dec(d % 10);
    s.append(ones.as_str());
    proof {
        assert(s@ =~= spec_two_digits(d as int));
    }
    s
}

/// A count of hundredths with exactly two decimal places.
pub open spec fn spec_hundredths(h: int) -> Seq<char> {
    crate::text::spec_dec(h / 100) + "."@ + spec_two_digits(h % 100)
}

/// Renders a count of hundredths with two decimal places.
pub fn hundredths_str(h: u64) -> (r: String)
    ensures
        r@ == spec_hundredths(h as int),
{
    let mut s = crate::text::u64_to_dec(h / 100);
    s.append(".");
    let frac = two_digit_str(h % 100);
    s.append(frac.as_str());
    s
}

/// The memory gauge of the banner: 58 interior tiles filled in used/total
/// proportion, captioned in gigabytes with two decimals.
pub open spec fn spec_ram_bar(used_kb: int, total_kb: int) -> Seq<char> {
    let full = used_kb * 58 / total_kb;
    "["@ + crate::text::spec_repeat('=', full) + crate::text::spec_repeat(' ', 60 - full) + "] "@
        + spec_hundredths(used_kb / 10000) + "/"@ + spec_hundredths(total_kb / 10000)
}

/// Draws the memory gauge.
pub fn ram_bar(used_kb: u64, total_kb: u64) -> (s: String)
    requires
        1 <= total_kb,
        used_kb <= total_kb,
        total_kb * 58 <= u64::MAX,
    ensures
        s@ == spec_ram_bar(used_kb as int, total_kb as int),
{
    proof {
        vstd::arithmetic::mul::lemma_mul_inequality(used_kb as int, total_kb as int, 58);
    }
    let full_u64 = used_kb * 58 / total_kb;
    proof {
        vstd::arithmetic::div_mod::lemma_div_is_ordered(
            used_kb * 58 as int,
            total_kb * 58 as int,
            total_kb as int,
        );
        vstd::arithmetic::div_mod::lemma_div_multiples_vanish(58, total_kb as int);
    }
    let full = full_u64 as usize;
    let mut s = String::from_str("[");
    crate::text::append_repeat(&mut s, '=', full);
    crate::text::append_repeat(&mut s, ' ', 60 - full);
    s.append("] ");
    let used = hundredths_str(used_kb / 10000);
    s.append(used.as_str());
    s.append("/");
    let total = hundredths_str(total_kb / 10000);
    s.append(total.as_str());
    proof {
        assert(s@ =~= spec_ram_bar(used_kb as int, total_kb as int));
    }
    s
}

/// A value quoted the way the banner prints it.
pub open spec fn spec_quoted(s: Seq<char>) -> Seq<char> {
    "\""@ + s + "\""@
}

/// The machine-of-the-day banner for the given description: the greeting,
/// the user, the quoted system identifiers (with their fallbacks), the
/// processor line with the frequency in gigahertz, and the memory gauge.
pub open spec fn spec_motd(info: SystemInfo) -> Seq<char> {
    "Welcome back on SafeOS 3.1\n"@ + "--------------------------\n"@ + (match info.username {
        Some(user) => "Username: "@ + user@ + "\n\n"@,
        None => Seq::<char>::empty(),
    }) + "System name:             "@ + spec_quoted(
        match info.name {
            Some(n) => n@,
            None => "Random system"@,
        },
    ) + "\n"@ + "System kernel version:   "@ + spec_quoted(
        match info.kernel_version {
            Some(n) => n@,
            None => "Kernel alpha"@,
        },
    ) + "\n"@ + "System OS version:       "@ + spec_quoted(
        match info.os_version {
            Some(n) => n@,
            None => "1.0"@,
        },
    ) + "\n"@ + "System host name:        "@ + spec_quoted(
        match info.host_name {
            Some(n) => n@,
            None => "localhost"@,
        },
    ) + "\n\n"@ + "Processors: "@ + crate::text::spec_dec(info.processors as int) + " at "@
        + crate::text::spec_dec(info.frequency_mhz as int / 1000) + "."@ + spec_two_digits(
        info.frequency_mhz as int % 1000 / 10,
    ) + "GHz\n"@ + "RAM: "@ + spec_ram_bar(info.used_memory_kb as int, info.total_memory_kb as int)
        + " Gb\n"@
}

/// The value of an optional field, or its fallback.
fn opt_or<'a>(v: &'a Option<String>, fallback: &'a str) -> (r: &'a str)
    ensures
        r@ == match v {
            Some(n) => n@,
            None => fallback@,
        },
{
    match v {
        Some(n) => n.as_str(),
        None => fallback,
    }
}

/// Renders the machine-of-the-day banner.
#[verifier::rlimit(100)]
pub fn print_motd(info: &SystemInfo) -> (r: String)
    requires
        1 <= info.total_memory_kb,
        info.used_memory_kb <= info.total_memory_kb,
        info.total_memory_kb * 58 <= u64::MAX,
    ensures
        r@ == spec_motd(*info),
{
    let mut res = String::from_str("Welcome back on SafeOS 3.1\n");
    res.append("--------------------------\n");
    match &info.username {
        Some(user) => {
            res.append("Username: ");
            res.append(user.as_str());
            res.append("\n\n");
        },
        None => {},
    }
    res.append("System name:             ");
    res.append("\"");
    res.append(opt_or(&info.name, "Random system"));
    res.append("\"");
    res.append("\n");
    res.append("System kernel version:   ");
    res.append("\"");
    res.append(opt_or(&info.kernel_version, "Kernel alpha"));
    res.append("\"");
    res.append("\n");
    res.append("System OS version:       ");
    res.append("\"");
    res.append(opt_or(&info.os_version, "1.0"));
    res.append("\"");
    res.append("\n");
    res.append("System host name:        ");
    res.append("\"");
    res.append(opt_or(&info.host_name, "localhost"));
    res.append("\"");
    res.append("\n\n");
    res.append("Processors: ");
    let count = crate::text::usize_to_dec(info.processors);
    res.append(count.as_str());
    res.append(" at ");
    let ghz = crate::text::u64_to_dec(info.frequency_mhz / 1000);
    res.append(ghz.as_str());
    res.append(".");
    let frac = two_digit_str(info.frequency_mhz % 1000 / 10);
    res.append(frac.as_str());
    res.append("GHz\n");
    res.append("RAM: ");
    let bar = ram_bar(info.used_memory_kb, info.total_memory_kb);
    res.append(bar.as_str());
    res.append(" Gb\n");
    proof {
        assert(res@ =~= spec_motd(*info));
    }
    res
}

/// The global command dispatcher: splits the trimmed line on spaces, takes
/// the first word as the verb, and serves `clear`, `help`, `motd` (with the
/// machine's description rendered by the caller) and `play`; any other verb
/// gets the deterministic complaint. Every non-`clear` command is echoed
/// first.
pub fn commands_handler(
    cmd: &str,
    console_writer: &mut Vec<String>,
    data: &mut ConsoleData,
    cg_data: &mut ConsoleGamesData,
    motd_text: &String,
)
    ensures
        cmd@.len() == 0 ==> *final(console_writer) == *old(console_writer) && *final(data) == *old(data) && *final(cg_data) == *old(cg_data),
        cmd@.len() > 0 && spec_split(spec_trim(cmd@))[0] == "clear"@ ==> final(data).messages@.len() == 0 && *final(console_writer) == *old(console_writer),
        cmd@.len() > 0 && spec_split(spec_trim(cmd@))[0] == "help"@ ==> msgs_view(
            final(console_writer)@,
        ) == msgs_view(old(console_writer)@) + seq![spec_echo(cmd@), spec_global_help()],
        cmd@.len() > 0 && spec_split(spec_trim(cmd@))[0] == "motd"@ ==> msgs_view(
            final(console_writer)@,
        ) == msgs_view(old(console_writer)@) + seq![spec_echo(cmd@), motd_text@],
        cmd@.len() > 0 && spec_split(spec_trim(cmd@))[0] == "play"@ && spec_split(
            spec_trim(cmd@),
        ).len() == 1 ==> final(cg_data).loaded_game == old(cg_data).loaded_game && msgs_view(
            final(console_writer)@,
        ) == msgs_view(old(console_writer)@) + seq![
            spec_echo(cmd@),
            "No game specified..."@,
            crate::games::spec_games_list(),
        ],
        cmd@.len() > 0 && spec_split(spec_trim(cmd@))[0] == "play"@ && spec_split(
            spec_trim(cmd@),
        ).len() > 1 && crate::text::spec_lower(spec_split(spec_trim(cmd@))[1]) == "labyrinth"@
            ==> final(cg_data).loaded_game == GameList::Labyrinth && msgs_view(
            final(console_writer)@,
        ) == msgs_view(old(console_writer)@) + seq![spec_echo(cmd@)],
        cmd@.len() > 0 && spec_split(spec_trim(cmd@))[0] == "play"@ && spec_split(
            spec_trim(cmd@),
        ).len() > 1 && crate::text::spec_lower(spec_split(spec_trim(cmd@))[1]) == "tictactoe"@
            ==> final(cg_data).loaded_game == GameList::TicTacToe && msgs_view(
            final(console_writer)@,
        ) == msgs_view(old(console_writer)@) + seq![spec_echo(cmd@)],
        cmd@.len() > 0 && spec_split(spec_trim(cmd@))[0] == "play"@ && spec_split(
            spec_trim(cmd@),
        ).len() > 1 && crate::text::spec_lower(spec_split(spec_trim(cmd@))[1]) != "labyrinth"@
            && crate::text::spec_lower(spec_split(spec_trim(cmd@))[1]) != "tictactoe"@ ==> final(cg_data).loaded_game == old(cg_data).loaded_game && msgs_view(final(console_writer)@)
            == msgs_view(old(console_writer)@) + seq![
            spec_echo(cmd@),
            crate::games::spec_unknown_game(spec_split(spec_trim(cmd@))[1]),
            crate::games::spec_games_list(),
        ],
        cmd@.len() > 0 && spec_split(spec_trim(cmd@))[0] != "clear"@ && spec_split(
            spec_trim(cmd@),
        )[0] != "help"@ && spec_split(spec_trim(cmd@))[0] != "motd"@ && spec_split(
            spec_trim(cmd@),
        )[0] != "play"@ ==> msgs_view(final(console_writer)@) == msgs_view(old(console_writer)@)
            + seq![
            spec_echo(cmd@),
            spec_unknown_command(spec_split(spec_trim(cmd@))[0]),
        ] && *final(cg_data) == *old(cg_data) && *final(data) == *old(data),
{
    proof {
        reveal_strlit("clear");
        reveal_strlit("help");
        reveal_strlit("motd");
        reveal_strlit("play");
        assert("clear"@.len() == 5 && "help"@.len() == 4 && "motd"@.len() == 4 && "play"@.len()
            == 4);
        assert("help"@[0] == 'h' && "motd"@[0] == 'm' && "play"@[0] == 'p');
    }
    if cmd.unicode_len() == 0 {
        return;
    }
    let trimmed = trim_str(cmd);
    let args = split_spaces(trimmed.as_str());
    proof {
        crate::text::lemma_split_nonempty(spec_trim(cmd@));
    }
    let verb = &args[0];
    let is_clear = str_eq(verb.as_str(), "clear");
    if !is_clear {
        echo_command(cmd, console_writer);
    }
    let ghost mid = console_writer@;
    if is_clear {
        data.messages.clear();
    } else if str_eq(verb.as_str(), "help") {
        console_writer.push(display_help());
        proof {
            crate::text::lemma_msgs_view_snoc(
                msgs_view(old(console_writer)@) + seq![spec_echo(cmd@)],
                mid,
                console_writer@,
                spec_global_help(),
            );
            assert(msgs_view(old(console_writer)@) + seq![spec_echo(cmd@)] + seq![
                spec_global_help(),
            ] =~= msgs_view(old(console_writer)@) + seq![spec_echo(cmd@), spec_global_help()]);
        }
    } else if str_eq(verb.as_str(), "motd") {
        console_writer.push(motd_text.clone());
        proof {
            crate::text::lemma_msgs_view_snoc(
                msgs_view(old(console_writer)@) + seq![spec_echo(cmd@)],
                mid,
                console_writer@,
                motd_text@,
            );
            assert(msgs_view(old(console_writer)@) + seq![spec_echo(cmd@)] + seq![motd_text@]
                =~= msgs_view(old(console_writer)@) + seq![spec_echo(cmd@), motd_text@]);
        }
    } else if str_eq(verb.as_str(), "play") {
        handle_play_command(&args, console_writer, cg_data);
        proof {
            if args@.len() > 1 {
                assert(args@[1]@ == spec_split(spec_trim(cmd@))[1]);
            }
            assert(msgs_view(old(console_writer)@) + seq![spec_echo(cmd@)] + seq![
                "No game specified..."@,
                crate::games::spec_games_list(),
            ] =~= msgs_view(old(console_writer)@) + seq![
                spec_echo(cmd@),
                "No game specified..."@,
                crate::games::spec_games_list(),
            ]);
            if args@.len() > 1 {
                assert(msgs_view(old(console_writer)@) + seq![spec_echo(cmd@)] + seq![
                    crate::games::spec_unknown_game(spec_split(spec_trim(cmd@))[1]),
                    crate::games::spec_games_list(),
                ] =~= msgs_view(old(console_writer)@) + seq![
                    spec_echo(cmd@),
                    crate::games::spec_unknown_game(spec_split(spec_trim(cmd@))[1]),
                    crate::games::spec_games_list(),
                ]);
            }
        }
    } else {
        let mut msg = String::from_str("I didn't understand the command: \"");
        msg.append(verb.as_str());
        msg.append("\"");
        console_writer.push(msg);
        proof {
            crate::text::lemma_msgs_view_snoc(
                msgs_view(old(console_writer)@) + seq![spec_echo(cmd@)],
                mid,
                console_writer@,
                spec_unknown_command(spec_split(spec_trim(cmd@))[0]),
            );
            assert(msgs_view(old(console_writer)@) + seq![spec_echo(cmd@)] + seq![
                spec_unknown_command(spec_split(spec_trim(cmd@))[0]),
            ] =~= msgs_view(old(console_writer)@) + seq![
                spec_echo(cmd@),
                spec_unknown_command(spec_split(spec_trim(cmd@))[0]),
            ]);
        }
    }
}

} // verus!
