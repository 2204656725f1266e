//! The labyrinth's own command dispatcher: the verbs legal in each room and
//! phase, their effects on the run, and their console answers.

use vstd::prelude::*;
use crate::console::{spec_echo, ConsoleData};
use crate::games::ConsoleGamesData;
use crate::laby_data::{
    player_wf, sat_add_u32, spec_can_go, spec_movement_from, GameState, LabyrinthData,
    LabyrinthResourceFile, Movement, PlayerActions, PlayerStats, RoomType,
};
use crate::laby_enemies::{enemy_wf, EnemyType};
use crate::laby_game::{
    attack_enemy, floor_sub, new_turn, prepare_stance, protect_stance, spec_attack_bonus,
    spec_attack_damage, spec_heal_capped,
};
use crate::npcs::NPCsResource;
use crate::rng::GameRng;
use crate::text::{
    msgs_view, parse_u64, spec_dec, spec_split, spec_trim, split_spaces, str_eq, trim_str,
    u64_to_dec,
};
use crate::vulnerability::VulnerabilityResource;

verus! {

/// One page of the labyrinth's help.
pub open spec fn spec_laby_help(page: int) -> Seq<char> {
    "\nSHOWING 'Labyrinth' COMMANDS\n"@ + "============================\n\n"@ + (if page == 1 {
        "- help: Displays this message\n"@ + "- clear: Clears commands on the screen\n"@
            + "- tutorial: Show the tutorial for this game\n"@
            + "- go <direction>: Move the player to the next direction\n"@
            + "- ragequit: Leaves the game (you will lose your progress)\n"@
            + "- infos: Display informations about the place you stand\n"@
            + "- skip: skip this room to go to the next (if you can)\n"@
    } else {
        "- talk: talks to an npc to maybe receive a boon\n"@
            + "- insult: insults the npc to become stronger\n"@
            + "- loot: loots the item (when you find one)\n"@
            + "- continue: to continue a story/speech\n"@
            + "- attack: attacks the monster / NPC\n"@
            + "- prepare: prepares the attack for x2.5 damages\n"@
            + "- protect: a protection position to take x0.5 damages\n"@
    }) + "\n============("@ + spec_dec(page) + "/2)===========\n"@
}

/// Renders one page of the labyrinth's help.
pub fn display_help(page_number: u64) -> (r: String)
    ensures
        r@ == spec_laby_help(page_number as int),
{
    let mut res = String::from_str("\nSHOWING 'Labyrinth' COMMANDS\n");
    res.append("============================\n\n");
    if page_number == 1 {
        res.append("- help: Displays this message\n");
        res.append("- clear: Clears commands on the screen\n");
        res.append("- tutorial: Show the tutorial for this game\n");
        res.append("- go <direction>: Move the player to the next direction\n");
        res.append("- ragequit: Leaves the game (you will lose your progress)\n");
        res.append("- infos: Display informations about the place you stand\n");
        res.append("- skip: skip this room to go to the next (if you can)\n");
    } else {
        res.append("- talk: talks to an npc to maybe receive a boon\n");
        res.append("- insult: insults the npc to become stronger\n");
        res.append("- loot: loots the item (when you find one)\n");
        res.append("- continue: to continue a story/speech\n");
        res.append("- attack: attacks the monster / NPC\n");
        res.append("- prepare: prepares the attack for x2.5 damages\n");
        res.append("- protect: a protection position to take x0.5 damages\n");
    }
    res.append("\n============(");
    let page = u64_to_dec(page_number);
    res.append(page.as_str());
    res.append("/2)===========\n");
    res
}

/// The help page a command's argument names: the second token where it
/// parses as a number, the first page otherwise.
pub open spec fn spec_help_page(tokens: Seq<Seq<char>>) -> int {
    if tokens.len() == 1 {
        1
    } else if tokens[1].len() >= 1 && crate::text::spec_all_digits(tokens[1])
        && crate::text::spec_digits_val(tokens[1]) <= u64::MAX {
        crate::text::spec_digits_val(tokens[1])
    } else {
        1
    }
}

/// Whether `skip` is legal: exploring, and in a skippable room (everything
/// but a corridor and the boss).
pub open spec fn spec_can_skip(d: LabyrinthData) -> bool {
    &&& d.game_state == GameState::Exploring
    &&& ((d.room_type == RoomType::Enemy && d.enemy.kind != EnemyType::Boss) || d.room_type
        == RoomType::Item || d.room_type == RoomType::Npc)
}

/// The labyrinth's dispatcher. Every non-`clear` command is echoed first;
/// the verb then acts on the run:
///
/// - session control: `clear`, `help`, `tutorial`, `infos`, `continue`,
///   `ragequit`;
/// - movement: `go <direction>` and `skip`, which advance the turn where
///   legal (never during the tutorial: only the final `continue` starts the
///   run);
/// - combat: `attack`, `prepare`, `protect`, legal only facing an enemy;
/// - encounters: `talk`, `insult`, `loot`, each a chance of a boon followed
///   by the next turn.
///
/// Illegal verbs for the current room get a flavored refusal and change
/// nothing; unknown verbs get the deterministic complaint.
#[verifier::rlimit(100)]
pub fn commands_handler(
    cmd: &str,
    console_writer: &mut Vec<String>,
    cg_data: &mut ConsoleGamesData,
    data: &mut ConsoleData,
    laby_data: &mut LabyrinthData,
    laby_res: &LabyrinthResourceFile,
    vuln_res: &mut VulnerabilityResource,
    player: &mut PlayerStats,
    npc_res: &NPCsResource,
    rng: &mut GameRng,
)
    requires
        player_wf(*old(player)),
        laby_res.wf(),
        enemy_wf(old(laby_data).enemy),
        old(laby_data).tutorial_page < laby_res.tutorial@.len(),
        npc_res.npcs@.len() <= u32::MAX,
    ensures
        player_wf(*final(player)),
        enemy_wf(final(laby_data).enemy),
        final(laby_data).tutorial_page < laby_res.tutorial@.len(),
        cmd@.len() == 0 ==> *final(laby_data) == *old(laby_data) && *final(player) == *old(player)
            && *final(console_writer) == *old(console_writer) && *final(cg_data) == *old(cg_data)
            && *final(vuln_res) == *old(vuln_res) && *final(data) == *old(data),
        cmd@.len() > 0 ==> {
            let verb = spec_split(spec_trim(cmd@))[0];
            &&& (verb != "ragequit"@ ==> *final(vuln_res) == *old(vuln_res))
            &&& (verb == "clear"@ ==> final(data).messages@.len() == 0 && *final(laby_data)
                == *old(laby_data) && *final(player) == *old(player))
            &&& (verb == "help"@ ==> *final(laby_data) == *old(laby_data) && *final(player)
                == *old(player) && msgs_view(final(console_writer)@) == msgs_view(
                old(console_writer)@,
            ) + seq![
                spec_echo(cmd@),
                spec_laby_help(spec_help_page(spec_split(spec_trim(cmd@)))),
            ])
            &&& (verb == "go"@ && old(laby_data).game_state == GameState::Exploring && spec_split(
                spec_trim(cmd@),
            ).len() == 1 ==> *final(laby_data) == *old(laby_data) && *final(player) == *old(player)
                && msgs_view(final(console_writer)@) == msgs_view(old(console_writer)@) + seq![
                spec_echo(cmd@),
                "You specified no direction..."@,
                "Usage: go <direction>, valid: (FORWARD, LEFT, RIGHT)"@,
            ])
            &&& (verb == "tutorial"@ ==> final(laby_data).game_state == GameState::Tutorial
                && !final(laby_data).has_shown_turn_infos && final(laby_data).steps_number == old(laby_data).steps_number && final(laby_data).tutorial_page == old(laby_data).tutorial_page
                && *final(player) == *old(player))
            &&& (verb == "infos"@ ==> !final(laby_data).has_shown_turn_infos && final(laby_data).steps_number == old(laby_data).steps_number && *final(player) == *old(player))
            &&& (verb == "continue"@ && old(laby_data).game_state == GameState::Tutorial && old(laby_data).tutorial_page + 1 < laby_res.tutorial@.len() ==> final(laby_data).tutorial_page == old(laby_data).tutorial_page + 1 && final(laby_data).game_state == GameState::Tutorial && final(laby_data).steps_number == old(laby_data).steps_number && !final(laby_data).has_shown_turn_infos
                && !final(laby_data).wait_for_continue)
            &&& (verb == "continue"@ && old(laby_data).game_state == GameState::Tutorial && old(laby_data).tutorial_page + 1 == laby_res.tutorial@.len() ==> final(laby_data).game_state
                == GameState::Exploring && final(laby_data).steps_number == sat_add_u32(
                old(laby_data).steps_number as int,
                1,
            ) && !final(laby_data).has_shown_turn_infos && !final(laby_data).wait_for_continue
                && (old(laby_data).steps_number == 0 ==> final(laby_data).room_type
                == RoomType::Corridor))
            &&& (verb == "continue"@ && old(laby_data).game_state == GameState::Exploring ==> *final(laby_data) == *old(laby_data) && *final(player) == *old(player) && msgs_view(
                final(console_writer)@,
            ) == msgs_view(old(console_writer)@) + seq![
                spec_echo(cmd@),
                "There is nothing to continue..."@,
            ])
            &&& (verb == "go"@ && old(laby_data).game_state == GameState::Tutorial ==> final(laby_data).steps_number == old(laby_data).steps_number && final(laby_data).game_state
                == GameState::Tutorial && final(laby_data).tutorial_page == old(laby_data).tutorial_page && *final(player) == *old(player) && msgs_view(final(console_writer)@)
                == msgs_view(old(console_writer)@) + seq![
                spec_echo(cmd@),
                "You can't go anywhere yet..."@,
            ])
            &&& (verb == "go"@ && old(laby_data).game_state == GameState::Exploring && spec_split(
                spec_trim(cmd@),
            ).len() > 1 && spec_movement_from(spec_split(spec_trim(cmd@))[1]) is Some ==> {
                if spec_can_go(
                    old(laby_data).next_directions,
                    spec_movement_from(spec_split(spec_trim(cmd@))[1]).unwrap(),
                ) {
                    final(laby_data).steps_number == sat_add_u32(
                        old(laby_data).steps_number as int,
                        1,
                    ) && !final(laby_data).has_shown_turn_infos && !final(laby_data).wait_for_continue
                } else {
                    *final(laby_data) == *old(laby_data) && *final(player) == *old(player)
                        && msgs_view(final(console_writer)@) == msgs_view(old(console_writer)@)
                        + seq![
                        spec_echo(cmd@),
                        "There is no path in this direction..."@,
                    ]
                }
            })
            &&& (verb == "go"@ && old(laby_data).game_state == GameState::Exploring && spec_split(
                spec_trim(cmd@),
            ).len() > 1 && spec_movement_from(spec_split(spec_trim(cmd@))[1]) is None ==> *final(laby_data) == *old(laby_data) && *final(player) == *old(player) && msgs_view(
                final(console_writer)@,
            ) == msgs_view(old(console_writer)@) + seq![
                spec_echo(cmd@),
                "Please enter a valid direction..."@,
                "Usage: go <direction>, valid: (FORWARD, LEFT, RIGHT)"@,
            ])
            &&& (verb == "attack"@ && old(laby_data).room_type == RoomType::Enemy ==> {
                &&& final(laby_data).enemy.health == floor_sub(
                    old(laby_data).enemy.health as int,
                    spec_attack_damage(
                        old(player).damages as int,
                        spec_attack_bonus(*old(player)),
                    ),
                )
                &&& final(laby_data).enemy.health <= old(laby_data).enemy.health
                &&& final(player).action == PlayerActions::Attack
                &&& final(player).health == floor_sub(
                    old(player).health as int,
                    old(laby_data).enemy.damages as int,
                )
                &&& final(player).last_action == old(player).action
                &&& final(player).damages == old(player).damages
                &&& final(player).exp == old(player).exp
                &&& final(player).level == old(player).level
                &&& final(player).max_health == old(player).max_health
                &&& final(laby_data).room_type == old(laby_data).room_type
                &&& final(laby_data).steps_number == old(laby_data).steps_number
                &&& final(laby_data).game_state == old(laby_data).game_state
                &&& final(laby_data).seen_npcs == old(laby_data).seen_npcs
                &&& final(laby_data).tutorial_page == old(laby_data).tutorial_page
            })
            &&& (verb == "attack"@ && old(laby_data).room_type != RoomType::Enemy ==> *final(laby_data) == *old(laby_data) && *final(player) == *old(player))
            &&& (verb == "prepare"@ && old(laby_data).room_type == RoomType::Enemy ==> {
                &&& final(player).action == PlayerActions::Prepare
                &&& final(laby_data).enemy == old(laby_data).enemy
                &&& final(player).health == floor_sub(
                    old(player).health as int,
                    old(laby_data).enemy.damages as int,
                )
                &&& final(player).last_action == old(player).action
                &&& final(player).damages == old(player).damages
                &&& final(player).exp == old(player).exp
                &&& final(player).level == old(player).level
                &&& final(player).max_health == old(player).max_health
                &&& final(laby_data).room_type == old(laby_data).room_type
                &&& final(laby_data).steps_number == old(laby_data).steps_number
                &&& final(laby_data).game_state == old(laby_data).game_state
                &&& final(laby_data).seen_npcs == old(laby_data).seen_npcs
                &&& final(laby_data).tutorial_page == old(laby_data).tutorial_page
            })
            &&& (verb == "prepare"@ && old(laby_data).room_type != RoomType::Enemy ==> *final(laby_data) == *old(laby_data) && *final(player) == *old(player))
            &&& (verb == "protect"@ && old(laby_data).room_type == RoomType::Enemy ==> {
                &&& final(player).action == PlayerActions::Protect
                &&& final(laby_data).enemy == old(laby_data).enemy
                &&& final(player).health == floor_sub(
                    old(player).health as int,
                    old(laby_data).enemy.damages as int / 2,
                )
                &&& final(player).last_action == old(player).action
                &&& final(player).damages == old(player).damages
                &&& final(player).exp == old(player).exp
                &&& final(player).level == old(player).level
                &&& final(player).max_health == old(player).max_health
                &&& final(laby_data).room_type == old(laby_data).room_type
                &&& final(laby_data).steps_number == old(laby_data).steps_number
                &&& final(laby_data).game_state == old(laby_data).game_state
                &&& final(laby_data).seen_npcs == old(laby_data).seen_npcs
                &&& final(laby_data).tutorial_page == old(laby_data).tutorial_page
            })
            &&& (verb == "protect"@ && old(laby_data).room_type != RoomType::Enemy ==> *final(laby_data) == *old(laby_data) && *final(player) == *old(player))
            &&& (verb == "ragequit"@ ==> {
                &&& msgs_view(final(console_writer)@) == msgs_view(old(console_writer)@) + seq![
                    spec_echo(cmd@),
                    "Quitting Labyrinth..."@,
                ]
                &&& final(cg_data).loaded_game == crate::games::GameList::NoGame
                &&& final(cg_data).ragequit_count == if old(cg_data).ragequit_count < usize::MAX {
                    old(cg_data).ragequit_count + 1
                } else {
                    usize::MAX as int
                }
                &&& crate::laby_data::fresh_laby_data(*final(laby_data))
                &&& final(player).health == 40 && final(player).max_health == 40 && final(player).level == 1 && final(player).exp == 0 && final(player).damages == 4
            })
            &&& (verb == "skip"@ && spec_can_skip(*old(laby_data)) ==> final(laby_data).steps_number == sat_add_u32(old(laby_data).steps_number as int, 1) && !final(laby_data).has_shown_turn_infos && !final(laby_data).wait_for_continue)
            &&& (verb == "skip"@ && !spec_can_skip(*old(laby_data)) ==> *final(laby_data) == *old(laby_data) && *final(player) == *old(player) && msgs_view(final(console_writer)@)
                == msgs_view(old(console_writer)@) + seq![
                spec_echo(cmd@),
                "You can't skip this room..."@,
            ])
            &&& (verb == "talk"@ && old(laby_data).room_type == RoomType::Npc ==> final(laby_data).steps_number == sat_add_u32(old(laby_data).steps_number as int, 1)
                && final(player).max_health == old(player).max_health && ((final(player).damages
                == sat_add_u32(old(player).damages as int, 4) && final(player).health
                == spec_heal_capped(
                spec_heal_capped(old(player).health as int, old(player).max_health as int),
                old(player).max_health as int,
            ) && final(laby_data).status_message@
                == "The NPC was happy you talked with him and wants to give you something"@
                && msgs_view(final(console_writer)@) == msgs_view(old(console_writer)@) + seq![
                spec_echo(cmd@),
                "The NPC was happy you talked with him and wants to give you something"@,
            ]) || (final(player).damages == old(player).damages && final(player).health
                == spec_heal_capped(old(player).health as int, old(player).max_health as int)
                && final(laby_data).status_message@
                == "I think you just made a friend! Pretty nice huh?"@ && msgs_view(
                final(console_writer)@,
            ) == msgs_view(old(console_writer)@) + seq![
                spec_echo(cmd@),
                "I think you just made a friend! Pretty nice huh?"@,
            ])))
            &&& (verb == "talk"@ && old(laby_data).room_type != RoomType::Npc ==> *final(laby_data)
                == *old(laby_data) && *final(player) == *old(player))
            &&& (verb == "insult"@ && old(laby_data).room_type == RoomType::Npc ==> final(laby_data).steps_number == sat_add_u32(old(laby_data).steps_number as int, 1)
                && final(player).max_health == old(player).max_health && ((final(player).damages
                == sat_add_u32(old(player).damages as int, 4) && final(player).health
                == spec_heal_capped(
                spec_heal_capped(old(player).health as int, old(player).max_health as int),
                old(player).max_health as int,
            ) && final(laby_data).status_message@
                == "You become stronger by insulting this NPC. But you've made a new enemy..."@
                && msgs_view(final(console_writer)@) == msgs_view(old(console_writer)@) + seq![
                spec_echo(cmd@),
                "You become stronger by insulting this NPC. But you've made a new enemy..."@,
            ]) || (final(player).damages == old(player).damages && final(player).health
                == spec_heal_capped(old(player).health as int, old(player).max_health as int)
                && final(laby_data).status_message@
                == "The NPC just doesn't care, he just goes away"@ && msgs_view(
                final(console_writer)@,
            ) == msgs_view(old(console_writer)@) + seq![
                spec_echo(cmd@),
                "The NPC just doesn't care, he just goes away"@,
            ])))
            &&& (verb == "insult"@ && old(laby_data).room_type != RoomType::Npc ==> *final(laby_data) == *old(laby_data) && *final(player) == *old(player))
            &&& (verb == "loot"@ && old(laby_data).room_type == RoomType::Item ==> final(laby_data).steps_number == sat_add_u32(old(laby_data).steps_number as int, 1)
                && final(player).max_health == old(player).max_health && final(player).health
                == spec_heal_capped(old(player).health as int, old(player).max_health as int)
                && ((final(player).damages == sat_add_u32(old(player).damages as int, 2) && final(laby_data).status_message@
                == "You managed to find a good item and gained damages"@ && msgs_view(
                final(console_writer)@,
            ) == msgs_view(old(console_writer)@) + seq![
                spec_echo(cmd@),
                "You managed to find a good item and gained damages"@,
            ]) || (final(player).damages == old(player).damages && final(laby_data).status_message@
                == "Ah crap its too rusty... maybe next time?"@ && msgs_view(
                final(console_writer)@,
            ) == msgs_view(old(console_writer)@) + seq![
                spec_echo(cmd@),
                "Ah crap its too rusty... maybe next time?"@,
            ])))
            &&& (verb == "loot"@ && old(laby_data).room_type != RoomType::Item ==> *final(laby_data) == *old(laby_data) && *final(player) == *old(player))
            &&& (verb != "clear"@ && verb != "help"@ && verb != "ragequit"@ && verb != "tutorial"@
                && verb != "infos"@ && verb != "continue"@ && verb != "skip"@ && verb != "go"@
                && verb != "attack"@ && verb != "prepare"@ && verb != "protect"@ && verb != "talk"@
                && verb != "insult"@ && verb != "loot"@ ==> msgs_view(final(console_writer)@)
                == msgs_view(old(console_writer)@) + seq![
                spec_echo(cmd@),
                crate::console::spec_unknown_command(verb),
            ] && *final(laby_data) == *old(laby_data) && *final(player) == *old(player))
        },
{
    proof {
        reveal_strlit("clear");
        reveal_strlit("help");
        reveal_strlit("ragequit");
        reveal_strlit("tutorial");
        reveal_strlit("infos");
        reveal_strlit("continue");
        reveal_strlit("skip");
        reveal_strlit("go");
        reveal_strlit("attack");
        reveal_strlit("prepare");
        reveal_strlit("protect");
        reveal_strlit("talk");
        reveal_strlit("insult");
        reveal_strlit("loot");
        assert("clear"@.len() == 5 && "help"@.len() == 4 && "ragequit"@.len() == 8
            && "tutorial"@.len() == 8 && "infos"@.len() == 5 && "continue"@.len() == 8
            && "skip"@.len() == 4 && "go"@.len() == 2 && "attack"@.len() == 6 && "prepare"@.len()
            == 7 && "protect"@.len() == 7 && "talk"@.len() == 4 && "insult"@.len() == 6
            && "loot"@.len() == 4);
        assert("clear"@[0] == 'c' && "infos"@[0] == 'i' && "help"@[0] == 'h' && "skip"@[0] == 's'
            && "talk"@[0] == 't' && "loot"@[0] == 'l' && "ragequit"@[0] == 'r' && "tutorial"@[0]
            == 't' && "continue"@[0] == 'c' && "attack"@[0] == 'a' && "insult"@[0] == 'i');
        assert("prepare"@[2] == 'e' && "protect"@[2] == 'o');
    }
    if cmd.unicode_len() == 0 {
        return;
    }
    let trimmed = trim_str(cmd);
    let args = split_spaces(trimmed.as_str());
    proof {
        crate::text::lemma_split_nonempty(spec_trim(cmd@));
    }
    let verb = &args[0];
    let is_clear = str_eq(verb.as_str(), "clear");
    if !is_clear {
        crate::console::echo_command(cmd, console_writer);
    }
    let ghost mid = console_writer@;
    if is_clear {
        data.messages.clear();
    } else if str_eq(verb.as_str(), "help") {
        let page: u64 = if args.len() == 1 {
            1
        } else {
            match parse_u64(args[1].as_str()) {
                Some(n) => n,
                None => 1,
            }
        };
        console_writer.push(display_help(page));
        proof {
            crate::text::lemma_msgs_view_snoc(
                msgs_view(old(console_writer)@) + seq![spec_echo(cmd@)],
                mid,
                console_writer@,
                spec_laby_help(spec_help_page(spec_split(spec_trim(cmd@)))),
            );
            assert(msgs_view(old(console_writer)@) + seq![spec_echo(cmd@)] + seq![
                spec_laby_help(spec_help_page(spec_split(spec_trim(cmd@)))),
            ] =~= msgs_view(old(console_writer)@) + seq![
                spec_echo(cmd@),
                spec_laby_help(spec_help_page(spec_split(spec_trim(cmd@)))),
            ]);
        }
    } else if str_eq(verb.as_str(), "ragequit") {
        console_writer.push(String::from_str("Quitting Labyrinth..."));
        laby_data.reset();
        player.reset();
        cg_data.ragequit(vuln_res);
        proof {
            crate::text::lemma_msgs_view_snoc(
                msgs_view(old(console_writer)@) + seq![spec_echo(cmd@)],
                mid,
                console_writer@,
                "Quitting Labyrinth..."@,
            );
            assert(msgs_view(old(console_writer)@) + seq![spec_echo(cmd@)] + seq![
                "Quitting Labyrinth..."@,
            ] =~= msgs_view(old(console_writer)@) + seq![
                spec_echo(cmd@),
                "Quitting Labyrinth..."@,
            ]);
        }
    } else if str_eq(verb.as_str(), "tutorial") {
        laby_data.game_state = GameState::Tutorial;
        laby_data.has_shown_turn_infos = false;
    } else if str_eq(verb.as_str(), "infos") {
        laby_data.has_shown_turn_infos = false;
    } else if str_eq(verb.as_str(), "continue") {
        if laby_data.game_state == GameState::Tutorial {
            laby_data.has_shown_turn_infos = false;
            laby_data.wait_for_continue = false;
            if laby_data.tutorial_page + 1 == laby_res.tutorial.len() {
                laby_data.game_state = GameState::Exploring;
                new_turn(laby_data, laby_res, player, npc_res, rng);
            } else {
                laby_data.tutorial_page = laby_data.tutorial_page + 1;
            }
        } else {
            console_writer.push(String::from_str("There is nothing to continue..."));
            proof {
                crate::text::lemma_msgs_view_snoc(
                    msgs_view(old(console_writer)@) + seq![spec_echo(cmd@)],
                    mid,
                    console_writer@,
                    "There is nothing to continue..."@,
                );
                assert(msgs_view(old(console_writer)@) + seq![spec_echo(cmd@)] + seq![
                    "There is nothing to continue..."@,
                ] =~= msgs_view(old(console_writer)@) + seq![
                    spec_echo(cmd@),
                    "There is nothing to continue..."@,
                ]);
            }
        }
    } else if str_eq(verb.as_str(), "skip") {
        let can_skip = laby_data.game_state == GameState::Exploring && ((laby_data.room_type
            == RoomType::Enemy && laby_data.enemy.kind != EnemyType::Boss) || laby_data.room_type
            == RoomType::Item || laby_data.room_type == RoomType::Npc);
        if can_skip {
            console_writer.push(String::from_str("Skipping room..."));
            laby_data.status_message = String::from_str("Skipping room...");
            new_turn(laby_data, laby_res, player, npc_res, rng);
            laby_data.has_shown_turn_infos = false;
            laby_data.wait_for_continue = false;
        } else {
            console_writer.push(String::from_str("You can't skip this room..."));
            proof {
                crate::text::lemma_msgs_view_snoc(
                    msgs_view(old(console_writer)@) + seq![spec_echo(cmd@)],
                    mid,
                    console_writer@,
                    "You can't skip this room..."@,
                );
                assert(msgs_view(old(console_writer)@) + seq![spec_echo(cmd@)] + seq![
                    "You can't skip this room..."@,
                ] =~= msgs_view(old(console_writer)@) + seq![
                    spec_echo(cmd@),
                    "You can't skip this room..."@,
                ]);
            }
        }
    } else if str_eq(verb.as_str(), "go") {
        if laby_data.game_state != GameState::Exploring {
            console_writer.push(String::from_str("You can't go anywhere yet..."));
            proof {
                crate::text::lemma_msgs_view_snoc(
                    msgs_view(old(console_writer)@) + seq![spec_echo(cmd@)],
                    mid,
                    console_writer@,
                    "You can't go anywhere yet..."@,
                );
                assert(msgs_view(old(console_writer)@) + seq![spec_echo(cmd@)] + seq![
                    "You can't go anywhere yet..."@,
                ] =~= msgs_view(old(console_writer)@) + seq![
                    spec_echo(cmd@),
                    "You can't go anywhere yet..."@,
                ]);
            }
        } else if args.len() == 1 {
            console_writer.push(String::from_str("You specified no direction..."));
            proof {
                crate::text::lemma_msgs_view_snoc(
                    msgs_view(old(console_writer)@) + seq![spec_echo(cmd@)],
                    mid,
                    console_writer@,
                    "You specified no direction..."@,
                );
                assert(msgs_view(old(console_writer)@) + seq![spec_echo(cmd@)] + seq!["You specified no direction..."@]
                    =~= msgs_view(old(console_writer)@) + seq![spec_echo(cmd@), "You specified no direction..."@]);
            }
            let ghost mid2 = console_writer@;
            console_writer.push(
                String::from_str("Usage: go <direction>, valid: (FORWARD, LEFT, RIGHT)"),
            );
            proof {
                crate::text::lemma_msgs_view_snoc(
                    msgs_view(old(console_writer)@) + seq![spec_echo(cmd@), "You specified no direction..."@],
                    mid2,
                    console_writer@,
                    "Usage: go <direction>, valid: (FORWARD, LEFT, RIGHT)"@,
                );
                assert(msgs_view(old(console_writer)@) + seq![spec_echo(cmd@), "You specified no direction..."@] + seq![
                    "Usage: go <direction>, valid: (FORWARD, LEFT, RIGHT)"@,
                ] =~= msgs_view(old(console_writer)@) + seq![
                    spec_echo(cmd@),
                    "You specified no direction..."@,
                    "Usage: go <direction>, valid: (FORWARD, LEFT, RIGHT)"@,
                ]);
            }
        } else {
            match Movement::from_string(args[1].as_str()) {
                Some(movement) => {
                    if laby_data.next_directions.can_go_direction(movement) {
                        new_turn(laby_data, laby_res, player, npc_res, rng);
                        laby_data.has_shown_turn_infos = false;
                        laby_data.wait_for_continue = false;
                    } else {
                        console_writer.push(
                            String::from_str("There is no path in this direction..."),
                        );
                        proof {
                            crate::text::lemma_msgs_view_snoc(
                                msgs_view(old(console_writer)@) + seq![spec_echo(cmd@)],
                                mid,
                                console_writer@,
                                "There is no path in this direction..."@,
                            );
                            assert(msgs_view(old(console_writer)@) + seq![spec_echo(cmd@)] + seq![
                                "There is no path in this direction..."@,
                            ] =~= msgs_view(old(console_writer)@) + seq![
                                spec_echo(cmd@),
                                "There is no path in this direction..."@,
                            ]);
                        }
                    }
                },
                None => {
                    console_writer.push(String::from_str("Please enter a valid direction..."));
            proof {
                crate::text::lemma_msgs_view_snoc(
                    msgs_view(old(console_writer)@) + seq![spec_echo(cmd@)],
                    mid,
                    console_writer@,
                    "Please enter a valid direction..."@,
                );
                assert(msgs_view(old(console_writer)@) + seq![spec_echo(cmd@)] + seq!["Please enter a valid direction..."@]
                    =~= msgs_view(old(console_writer)@) + seq![spec_echo(cmd@), "Please enter a valid direction..."@]);
            }
            let ghost mid2 = console_writer@;
            console_writer.push(
                String::from_str("Usage: go <direction>, valid: (FORWARD, LEFT, RIGHT)"),
            );
            proof {
                crate::text::lemma_msgs_view_snoc(
                    msgs_view(old(console_writer)@) + seq![spec_echo(cmd@), "Please enter a valid direction..."@],
                    mid2,
                    console_writer@,
                    "Usage: go <direction>, valid: (FORWARD, LEFT, RIGHT)"@,
                );
                assert(msgs_view(old(console_writer)@) + seq![spec_echo(cmd@), "Please enter a valid direction..."@] + seq![
                    "Usage: go <direction>, valid: (FORWARD, LEFT, RIGHT)"@,
                ] =~= msgs_view(old(console_writer)@) + seq![
                    spec_echo(cmd@),
                    "Please enter a valid direction..."@,
                    "Usage: go <direction>, valid: (FORWARD, LEFT, RIGHT)"@,
                ]);
            }
                },
            }
        }
    } else if str_eq(verb.as_str(), "attack") {
        if laby_data.room_type == RoomType::Enemy {
            attack_enemy(player, laby_data, console_writer);
        } else {
            console_writer.push(String::from_str("You punch... uh... the wall!"));
            console_writer.push(
                String::from_str("In fustration, you see there is nothing else to punch here!"),
            );
        }
    } else if str_eq(verb.as_str(), "prepare") {
        if laby_data.room_type == RoomType::Enemy {
            prepare_stance(player, laby_data, console_writer);
        } else {
            console_writer.push(String::from_str("There is no need to prepare an attack here..."));
        }
    } else if str_eq(verb.as_str(), "protect") {
        if laby_data.room_type == RoomType::Enemy {
            protect_stance(player, laby_data, console_writer);
        } else {
            console_writer.push(
                String::from_str(
                    "You protect yourself from the strange liquid coming from the ceiling on your head...",
                ),
            );
        }
    } else if str_eq(verb.as_str(), "talk") {
        if laby_data.room_type == RoomType::Npc {
            let will_give_boon = rng.ratio(2, 10);
            let msg: String;
            if will_give_boon {
                msg = String::from_str(
                    "The NPC was happy you talked with him and wants to give you something",
                );
                let boosted = player.health.saturating_add(4);
                player.health = if boosted <= player.max_health {
                    boosted
                } else {
                    player.max_health
                };
                player.damages = player.damages.saturating_add(4);
            } else {
                msg = String::from_str("I think you just made a friend! Pretty nice huh?");
            }
            laby_data.has_shown_turn_infos = false;
            laby_data.wait_for_continue = false;
            let echo = msg.clone();
            console_writer.push(echo);
            proof {
                crate::text::lemma_msgs_view_snoc(
                    msgs_view(old(console_writer)@) + seq![spec_echo(cmd@)],
                    mid,
                    console_writer@,
                    msg@,
                );
                assert(msgs_view(old(console_writer)@) + seq![spec_echo(cmd@)] + seq![msg@]
                    =~= msgs_view(old(console_writer)@) + seq![spec_echo(cmd@), msg@]);
            }
            laby_data.status_message = msg;
            new_turn(laby_data, laby_res, player, npc_res, rng);
        } else {
            console_writer.push(
                String::from_str(
                    "You try to talk to yourself and gained nothing but loneliness..",
                ),
            );
        }
    } else if str_eq(verb.as_str(), "insult") {
        if laby_data.room_type == RoomType::Npc {
            let will_give_boon = rng.ratio(9, 10);
            let msg: String;
            if will_give_boon {
                msg = String::from_str(
                    "You become stronger by insulting this NPC. But you've made a new enemy...",
                );
                let boosted = player.health.saturating_add(4);
                player.health = if boosted <= player.max_health {
                    boosted
                } else {
                    player.max_health
                };
                player.damages = player.damages.saturating_add(4);
            } else {
                msg = String::from_str("The NPC just doesn't care, he just goes away");
            }
            laby_data.has_shown_turn_infos = false;
            laby_data.wait_for_continue = false;
            let echo = msg.clone();
            console_writer.push(echo);
            proof {
                crate::text::lemma_msgs_view_snoc(
                    msgs_view(old(console_writer)@) + seq![spec_echo(cmd@)],
                    mid,
                    console_writer@,
                    msg@,
                );
                assert(msgs_view(old(console_writer)@) + seq![spec_echo(cmd@)] + seq![msg@]
                    =~= msgs_view(old(console_writer)@) + seq![spec_echo(cmd@), msg@]);
            }
            laby_data.status_message = msg;
            new_turn(laby_data, laby_res, player, npc_res, rng);
        } else {
            console_writer.push(
                String::from_str("You insult the void and reminds you of your loneliness.."),
            );
        }
    } else if str_eq(verb.as_str(), "loot") {
        if laby_data.room_type == RoomType::Item {
            let will_give_boon = rng.ratio(7, 10);
            let msg: String;
            if will_give_boon {
                msg = String::from_str("You managed to find a good item and gained damages");
                player.damages = player.damages.saturating_add(2);
            } else {
                msg = String::from_str("Ah crap its too rusty... maybe next time?");
            }
            laby_data.has_shown_turn_infos = false;
            laby_data.wait_for_continue = false;
            let echo = msg.clone();
            console_writer.push(echo);
            proof {
                crate::text::lemma_msgs_view_snoc(
                    msgs_view(old(console_writer)@) + seq![spec_echo(cmd@)],
                    mid,
                    console_writer@,
                    msg@,
                );
                assert(msgs_view(old(console_writer)@) + seq![spec_echo(cmd@)] + seq![msg@]
                    =~= msgs_view(old(console_writer)@) + seq![spec_echo(cmd@), msg@]);
            }
            laby_data.status_message = msg;
            new_turn(laby_data, laby_res, player, npc_res, rng);
        } else {
            console_writer.push(
                String::from_str(
                    "You try to loot this room..\n There is nothing but rocks (sry)...",
                ),
            );
        }
    } else {
        let mut msg = String::from_str("I didn't understand the command: \"");
        msg.append(verb.as_str());
        msg.append("\"");
        console_writer.push(msg);
        proof {
            crate::text::lemma_msgs_view_snoc(
                msgs_view(old(console_writer)@) + seq![spec_echo(cmd@)],
                mid,
                console_writer@,
                crate::console::spec_unknown_command(spec_split(spec_trim(cmd@))[0]),
            );
            assert(msgs_view(old(console_writer)@) + seq![spec_echo(cmd@)] + seq![
                crate::console::spec_unknown_command(spec_split(spec_trim(cmd@))[0]),
            ] =~= msgs_view(old(console_writer)@) + seq![
                spec_echo(cmd@),
                crate::console::spec_unknown_command(spec_split(spec_trim(cmd@))[0]),
            ]);
        }
    }
}

} // verus!
