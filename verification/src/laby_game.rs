//! The labyrinth's turn engine: leveling, combat resolution, and the room
//! draw of each new turn.

use vstd::prelude::*;
use crate::console::ConsoleData;
use crate::games::{ConsoleGamesData, GameList};
use crate::laby_data::{
    enemies_eqv, fresh_laby_data, player_wf, sat_add_u32, Directions, GameState, LabyrinthData,
    LabyrinthResourceFile, PlayerActions, PlayerStats, RoomType,
};
use crate::laby_enemies::{enemy_eqv, enemy_wf, Enemy, EnemyType};
use crate::laby_items::ItemType;
use crate::npcs::{name_in_pool, NPCsResource};
use crate::rng::GameRng;
use crate::vulnerability::VulnerabilityResource;
use crate::text::{msgs_view, spec_quarters, quarters_to_dec};

verus! {

/// Reaching this many rooms brings the scripted boss encounter.
pub const NUMBER_OF_TURN_TO_WIN: u32 = 30;

/// Unsigned subtraction floored at zero.
pub open spec fn floor_sub(a: int, b: int) -> int {
    if a >= b {
        a - b
    } else {
        0
    }
}

/// The scripted final opponent: 25 health, 2 damage, 100 experience.
pub open spec fn is_boss(e: Enemy) -> bool {
    &&& e.kind == EnemyType::Boss
    &&& e.description@
        == "\nThis is the end. He is the devil, the incarnation\nof your worst fears. He is also ...xxXDarkKevin420Xxx."@
    &&& e.exp == 100
    &&& e.health == 100
    &&& e.max_health == 100
    &&& e.damages == 8
}

/// Builds the boss.
pub fn make_boss() -> (r: Enemy)
    ensures
        is_boss(r),
        enemy_wf(r),
{
    Enemy {
        damages: 8,
        description: String::from_str(
            "\nThis is the end. He is the devil, the incarnation\nof your worst fears. He is also ...xxXDarkKevin420Xxx.",
        ),
        exp: 100,
        health: 100,
        max_health: 100,
        kind: EnemyType::Boss,
    }
}

/// How one level-up scales an enemy template: +2 health, +0.5 damage, the
/// reward untouched.
pub open spec fn scaled_enemy(post: Enemy, pre: Enemy) -> bool {
    &&& post.kind == pre.kind
    &&& post.description@ == pre.description@
    &&& post.exp == pre.exp
    &&& post.max_health == sat_add_u32(pre.max_health as int, 8)
    &&& post.health == if sat_add_u32(pre.health as int, 8) <= post.max_health {
        sat_add_u32(pre.health as int, 8)
    } else {
        post.max_health as int
    }
    &&& post.damages == sat_add_u32(pre.damages as int, 2)
}

/// One level-up: drains one threshold of experience and scales the player
/// and every enemy template in lockstep, so difficulty stays relative.
pub fn level_up_step(player: &mut PlayerStats, laby_res: &mut LabyrinthResourceFile)
    requires
        old(player).exp >= 10,
        player_wf(*old(player)),
        old(laby_res).wf(),
    ensures
        final(player).exp == old(player).exp - 10,
        final(player).level == sat_add_u32(old(player).level as int, 1),
        final(player).max_health == sat_add_u32(old(player).max_health as int, 8),
        final(player).damages == sat_add_u32(old(player).damages as int, 4),
        final(player).health == if sat_add_u32(old(player).health as int, 8)
            <= final(player).max_health {
            sat_add_u32(old(player).health as int, 8)
        } else {
            final(player).max_health as int
        },
        final(player).action == old(player).action,
        final(player).last_action == old(player).last_action,
        player_wf(*final(player)),
        old(player).max_health + 8 <= u32::MAX
            ==> final(player).max_health > old(player).max_health,
        final(laby_res).wf(),
        final(laby_res).enemies@.len() == old(laby_res).enemies@.len(),
        forall|i: int|
            0 <= i < final(laby_res).enemies@.len() ==> scaled_enemy(
                #[trigger] final(laby_res).enemies@[i],
                old(laby_res).enemies@[i],
            ),
        forall|i: int|
            0 <= i < final(laby_res).enemies@.len() ==> (enemy_wf(old(laby_res).enemies@[i])
                ==> enemy_wf(#[trigger] final(laby_res).enemies@[i])),
        final(laby_res).descriptions == old(laby_res).descriptions,
        final(laby_res).tutorial == old(laby_res).tutorial,
        final(laby_res).spec_initial_enemies() == old(laby_res).spec_initial_enemies(),
{
    player.exp = player.exp - 10;
    player.level = player.level.saturating_add(1);
    player.max_health = player.max_health.saturating_add(8);
    player.damages = player.damages.saturating_add(4);
    let grown = player.health.saturating_add(8);
    player.health = if grown <= player.max_health {
        grown
    } else {
        player.max_health
    };
    let mut scaled: Vec<Enemy> = Vec::new();
    let mut i: usize = 0;
    while i < laby_res.enemies.len()
        invariant
            i <= laby_res.enemies@.len(),
            scaled@.len() == i,
            *laby_res == *old(laby_res),
            forall|j: int|
                0 <= j < i ==> scaled_enemy(#[trigger] scaled@[j], laby_res.enemies@[j]),
        decreases laby_res.enemies@.len() - i,
    {
        let e = &laby_res.enemies[i];
        let new_max = e.max_health.saturating_add(8);
        let grown_health = e.health.saturating_add(8);
        let new_health = if grown_health <= new_max {
            grown_health
        } else {
            new_max
        };
        scaled.push(
            Enemy {
                kind: e.kind,
                description: e.description.clone(),
                health: new_health,
                max_health: new_max,
                exp: e.exp,
                damages: e.damages.saturating_add(2),
            },
        );
        i = i + 1;
    }
    laby_res.enemies = scaled;
}

/// How every drained threshold scales the whole enemy table: `drains` times
/// +2 health and +0.5 damage, everything else untouched.
pub open spec fn scaled_enemy_by(post: Enemy, pre: Enemy, drains: int) -> bool {
    &&& post.kind == pre.kind
    &&& post.description@ == pre.description@
    &&& post.exp == pre.exp
    &&& post.max_health == sat_add_u32(pre.max_health as int, 8 * drains)
    &&& post.health == sat_add_u32(pre.health as int, 8 * drains)
    &&& post.damages == sat_add_u32(pre.damages as int, 2 * drains)
}

/// Drains every full experience threshold: one drain per ten points of
/// experience, each scaling the player (+2 max/current health, +1 damage,
/// +1 level) and every enemy template (+2 health, +0.5 damage) in lockstep,
/// so difficulty stays relative. Afterwards, less than one threshold is left.
pub fn process_level_ups(player: &mut PlayerStats, laby_res: &mut LabyrinthResourceFile)
    requires
        player_wf(*old(player)),
        old(laby_res).wf(),
    ensures
        final(player).exp == old(player).exp as int % 10,
        final(player).exp < 10,
        final(player).level == sat_add_u32(old(player).level as int, old(player).exp as int / 10),
        final(player).max_health == sat_add_u32(
            old(player).max_health as int,
            8 * (old(player).exp as int / 10),
        ),
        final(player).health == sat_add_u32(
            old(player).health as int,
            8 * (old(player).exp as int / 10),
        ),
        final(player).damages == sat_add_u32(
            old(player).damages as int,
            4 * (old(player).exp as int / 10),
        ),
        old(player).exp < 10 ==> *final(player) == *old(player) && *final(laby_res) == *old(laby_res),
        player_wf(*final(player)),
        final(player).action == old(player).action,
        final(player).last_action == old(player).last_action,
        final(laby_res).wf(),
        final(laby_res).enemies@.len() == old(laby_res).enemies@.len(),
        forall|i: int|
            0 <= i < final(laby_res).enemies@.len() ==> scaled_enemy_by(
                #[trigger] final(laby_res).enemies@[i],
                old(laby_res).enemies@[i],
                old(player).exp as int / 10,
            ),
        final(laby_res).descriptions == old(laby_res).descriptions,
        final(laby_res).tutorial == old(laby_res).tutorial,
        final(laby_res).spec_initial_enemies() == old(laby_res).spec_initial_enemies(),
{
    let ghost mut drains: int = 0;
    while player.exp >= 10
        invariant
            player_wf(*player),
            old(player).exp <= u32::MAX,
            player_wf(*old(player)),
            old(laby_res).wf(),
            laby_res.wf(),
            drains >= 0,
            old(player).exp == player.exp + 10 * drains,
            old(player).exp < 10 ==> *player == *old(player) && *laby_res == *old(laby_res),
            player.level == sat_add_u32(old(player).level as int, drains),
            player.max_health == sat_add_u32(old(player).max_health as int, 8 * drains),
            player.health == sat_add_u32(old(player).health as int, 8 * drains),
            player.damages == sat_add_u32(old(player).damages as int, 4 * drains),
            player.action == old(player).action,
            player.last_action == old(player).last_action,
            laby_res.enemies@.len() == old(laby_res).enemies@.len(),
            forall|i: int|
                0 <= i < laby_res.enemies@.len() ==> scaled_enemy_by(
                    #[trigger] laby_res.enemies@[i],
                    old(laby_res).enemies@[i],
                    drains,
                ),
            laby_res.descriptions == old(laby_res).descriptions,
            laby_res.tutorial == old(laby_res).tutorial,
            laby_res.spec_initial_enemies() == old(laby_res).spec_initial_enemies(),
        decreases player.exp,
    {
        let ghost pre = *laby_res;
        level_up_step(player, laby_res);
        proof {
            assert forall|i: int| 0 <= i < laby_res.enemies@.len() implies scaled_enemy_by(
                #[trigger] laby_res.enemies@[i],
                old(laby_res).enemies@[i],
                drains + 1,
            ) by {
                assert(scaled_enemy(laby_res.enemies@[i], pre.enemies@[i]));
                assert(scaled_enemy_by(pre.enemies@[i], old(laby_res).enemies@[i], drains));
                assert(enemy_wf(old(laby_res).enemies@[i]));
            }
            drains = drains + 1;
        }
    }
    proof {
        vstd::arithmetic::div_mod::lemma_fundamental_div_mod_converse_div(
            old(player).exp as int,
            10,
            drains,
            player.exp as int,
        );
        vstd::arithmetic::div_mod::lemma_fundamental_div_mod_converse_mod(
            old(player).exp as int,
            10,
            drains,
            player.exp as int,
        );
    }
}

/// Whether the next attack carries the prepare bonus: the latest submitted
/// action was a prepare.
pub open spec fn spec_attack_bonus(p: PlayerStats) -> bool {
    p.action == PlayerActions::Prepare
}

/// The damage one attack deals: 2.5-fold after a prepare, plain otherwise.
pub open spec fn spec_attack_damage(dmg: int, prepared: bool) -> int {
    if prepared {
        if dmg * 5 / 2 > u32::MAX {
            u32::MAX as int
        } else {
            dmg * 5 / 2
        }
    } else {
        dmg
    }
}

/// The damage the enemy's counter-attack deals: halved exactly when the
/// player's action this turn was a protect.
pub open spec fn spec_counter_damage(enemy_dmg: int, action: PlayerActions) -> int {
    if action == PlayerActions::Protect {
        enemy_dmg / 2
    } else {
        enemy_dmg
    }
}

/// How a submitted combat action threads through the player's action pair:
/// the previous action slides into `last_action`.
pub open spec fn spec_submit_action(p: PlayerStats, verb: PlayerActions) -> PlayerStats {
    PlayerStats { last_action: p.action, action: verb, ..p }
}

/// Law: a prepare arms the bonus for exactly the next attack. The attack that
/// follows a prepare is resolved with the bonus, and recording that attack
/// disarms it, so a second attack in a row is resolved plainly.
pub proof fn lemma_prepare_one_shot(p: PlayerStats, dmg: int)
    ensures
        spec_attack_bonus(spec_submit_action(p, PlayerActions::Prepare)),
        !spec_attack_bonus(
            spec_submit_action(spec_submit_action(p, PlayerActions::Prepare), PlayerActions::Attack),
        ),
        spec_attack_damage(dmg, false) == dmg,
{
}

/// Law: a protect halves exactly the counter-attack of its own turn; the
/// counter-attack that follows any other submitted action is full.
pub proof fn lemma_protect_one_shot(p: PlayerStats, verb: PlayerActions, dmg: int)
    ensures
        spec_counter_damage(dmg, spec_submit_action(p, PlayerActions::Protect).action) == dmg / 2,
        verb != PlayerActions::Protect ==> spec_counter_damage(
            dmg,
            spec_submit_action(spec_submit_action(p, PlayerActions::Protect), verb).action,
        ) == dmg,
{
}

/// The enemy's counter-attack, which follows every submitted combat action:
/// halved by a protect this turn, and the player's health is floored at zero.
pub fn ai_turn(player: &mut PlayerStats, laby_data: &mut LabyrinthData)
    requires
        player_wf(*old(player)),
    ensures
        final(player).health == floor_sub(
            old(player).health as int,
            spec_counter_damage(old(laby_data).enemy.damages as int, old(player).action),
        ),
        final(player).max_health == old(player).max_health,
        final(player).level == old(player).level,
        final(player).exp == old(player).exp,
        final(player).damages == old(player).damages,
        final(player).action == old(player).action,
        final(player).last_action == old(player).last_action,
        player_wf(*final(player)),
        !final(laby_data).has_shown_turn_infos,
        !final(laby_data).wait_for_continue,
        final(laby_data).status_message@ == old(laby_data).status_message@
            + "\nThe enemy attacks you for "@ + spec_quarters(
            spec_counter_damage(old(laby_data).enemy.damages as int, old(player).action),
        ) + " HP."@,
        final(laby_data).enemy == old(laby_data).enemy,
        final(laby_data).room_type == old(laby_data).room_type,
        final(laby_data).steps_number == old(laby_data).steps_number,
        final(laby_data).seen_npcs == old(laby_data).seen_npcs,
        final(laby_data).npc == old(laby_data).npc,
        final(laby_data).item_type == old(laby_data).item_type,
        final(laby_data).next_directions == old(laby_data).next_directions,
        final(laby_data).game_state == old(laby_data).game_state,
        final(laby_data).description == old(laby_data).description,
        final(laby_data).tutorial_page == old(laby_data).tutorial_page,
{
    laby_data.has_shown_turn_infos = false;
    laby_data.wait_for_continue = false;
    let damages: u32 = if player.action == PlayerActions::Protect {
        laby_data.enemy.damages / 2
    } else {
        laby_data.enemy.damages
    };
    laby_data.status_message.append("\nThe enemy attacks you for ");
    let shown = quarters_to_dec(damages as u64);
    laby_data.status_message.append(shown.as_str());
    laby_data.status_message.append(" HP.");
    player.health = player.health.saturating_sub(damages);
    proof {
        assert(final(laby_data).status_message@ =~= old(laby_data).status_message@
            + "\nThe enemy attacks you for "@ + spec_quarters(
            spec_counter_damage(old(laby_data).enemy.damages as int, old(player).action),
        ) + " HP."@);
    }
}

/// The announcement of one attack.
pub open spec fn spec_attack_message(dealt: int) -> Seq<char> {
    "Attacking the enemy for "@ + spec_quarters(dealt) + " damage"@
}

/// The player attacks: the enemy loses the dealt damage (2.5-fold after a
/// prepare), never gaining health, and the enemy counter-attacks in full.
pub fn attack_enemy(player: &mut PlayerStats, laby_data: &mut LabyrinthData, log: &mut Vec<String>)
    requires
        player_wf(*old(player)),
        old(laby_data).room_type == RoomType::Enemy,
    ensures
        final(player).action == PlayerActions::Attack,
        final(player).last_action == old(player).action,
        final(player).max_health == old(player).max_health,
        final(player).level == old(player).level,
        final(player).exp == old(player).exp,
        final(player).damages == old(player).damages,
        player_wf(*final(player)),
        final(laby_data).enemy.health == floor_sub(
            old(laby_data).enemy.health as int,
            spec_attack_damage(old(player).damages as int, spec_attack_bonus(*old(player))),
        ),
        final(laby_data).enemy.health <= old(laby_data).enemy.health,
        final(laby_data).enemy.max_health == old(laby_data).enemy.max_health,
        final(laby_data).enemy.damages == old(laby_data).enemy.damages,
        final(laby_data).enemy.exp == old(laby_data).enemy.exp,
        final(laby_data).enemy.kind == old(laby_data).enemy.kind,
        final(laby_data).enemy.description == old(laby_data).enemy.description,
        final(player).health == floor_sub(
            old(player).health as int,
            old(laby_data).enemy.damages as int,
        ),
        !final(laby_data).has_shown_turn_infos,
        !final(laby_data).wait_for_continue,
        msgs_view(final(log)@) == msgs_view(old(log)@) + seq![
            spec_attack_message(
                spec_attack_damage(old(player).damages as int, spec_attack_bonus(*old(player))),
            ),
        ],
        final(laby_data).status_message@ == spec_attack_message(
            spec_attack_damage(old(player).damages as int, spec_attack_bonus(*old(player))),
        ) + "\nThe enemy attacks you for "@ + spec_quarters(old(laby_data).enemy.damages as int)
            + " HP."@,
        final(laby_data).room_type == old(laby_data).room_type,
        final(laby_data).steps_number == old(laby_data).steps_number,
        final(laby_data).seen_npcs == old(laby_data).seen_npcs,
        final(laby_data).npc == old(laby_data).npc,
        final(laby_data).item_type == old(laby_data).item_type,
        final(laby_data).next_directions == old(laby_data).next_directions,
        final(laby_data).game_state == old(laby_data).game_state,
        final(laby_data).description == old(laby_data).description,
        final(laby_data).tutorial_page == old(laby_data).tutorial_page,
{
    let prepared = player.action == PlayerActions::Prepare;
    player.last_action = player.action;
    player.action = PlayerActions::Attack;
    let dealt: u32 = if prepared {
        let wide = (player.damages as u64) * 5 / 2;
        if wide > u32::MAX as u64 {
            u32::MAX
        } else {
            wide as u32
        }
    } else {
        player.damages
    };
    let mut msg = String::from_str("Attacking the enemy for ");
    let shown = quarters_to_dec(dealt as u64);
    msg.append(shown.as_str());
    msg.append(" damage");
    let echo = msg.clone();
    log.push(echo);
    laby_data.status_message = msg;
    laby_data.enemy.health = laby_data.enemy.health.saturating_sub(dealt);
    proof {
        assert(msgs_view(log@) =~= msgs_view(old(log)@) + seq![
            spec_attack_message(
                spec_attack_damage(old(player).damages as int, spec_attack_bonus(*old(player))),
            ),
        ]);
    }
    ai_turn(player, laby_data);
}

/// The player braces for the next attack: the bonus is armed, no damage is
/// dealt this turn, and the enemy counter-attacks in full.
pub fn prepare_stance(player: &mut PlayerStats, laby_data: &mut LabyrinthData, log: &mut Vec<
    String,
>)
    requires
        player_wf(*old(player)),
        old(laby_data).room_type == RoomType::Enemy,
    ensures
        final(player).action == PlayerActions::Prepare,
        spec_attack_bonus(*final(player)),
        final(player).last_action == old(player).action,
        final(player).max_health == old(player).max_health,
        final(player).level == old(player).level,
        final(player).exp == old(player).exp,
        final(player).damages == old(player).damages,
        player_wf(*final(player)),
        final(player).health == floor_sub(
            old(player).health as int,
            old(laby_data).enemy.damages as int,
        ),
        final(laby_data).enemy == old(laby_data).enemy,
        !final(laby_data).has_shown_turn_infos,
        !final(laby_data).wait_for_continue,
        msgs_view(final(log)@) == msgs_view(old(log)@) + seq!["You prepare yourself for your next attack (x2.5)"@],
        final(laby_data).status_message@ == "You prepare yourself for your next attack (x2.5)"@
            + "\nThe enemy attacks you for "@ + spec_quarters(old(laby_data).enemy.damages as int)
            + " HP."@,
        final(laby_data).room_type == old(laby_data).room_type,
        final(laby_data).steps_number == old(laby_data).steps_number,
        final(laby_data).seen_npcs == old(laby_data).seen_npcs,
        final(laby_data).npc == old(laby_data).npc,
        final(laby_data).item_type == old(laby_data).item_type,
        final(laby_data).next_directions == old(laby_data).next_directions,
        final(laby_data).game_state == old(laby_data).game_state,
        final(laby_data).description == old(laby_data).description,
        final(laby_data).tutorial_page == old(laby_data).tutorial_page,
{
    let msg = String::from_str("You prepare yourself for your next attack (x2.5)");
    let echo = msg.clone();
    log.push(echo);
    laby_data.status_message = msg;
    player.last_action = player.action;
    player.action = PlayerActions::Prepare;
    proof {
        assert(msgs_view(log@) =~= msgs_view(old(log)@) + seq!["You prepare yourself for your next attack (x2.5)"@]);
    }
    ai_turn(player, laby_data);
}

/// The player guards: the counter-attack of this very turn is halved.
pub fn protect_stance(player: &mut PlayerStats, laby_data: &mut LabyrinthData, log: &mut Vec<
    String,
>)
    requires
        player_wf(*old(player)),
        old(laby_data).room_type == RoomType::Enemy,
    ensures
        final(player).action == PlayerActions::Protect,
        final(player).last_action == old(player).action,
        final(player).max_health == old(player).max_health,
        final(player).level == old(player).level,
        final(player).exp == old(player).exp,
        final(player).damages == old(player).damages,
        player_wf(*final(player)),
        final(player).health == floor_sub(
            old(player).health as int,
            old(laby_data).enemy.damages as int / 2,
        ),
        final(laby_data).enemy == old(laby_data).enemy,
        !final(laby_data).has_shown_turn_infos,
        !final(laby_data).wait_for_continue,
        msgs_view(final(log)@) == msgs_view(old(log)@) + seq!["You put yourself in a protection position (x0.5)"@],
        final(laby_data).status_message@ == "You put yourself in a protection position (x0.5)"@
            + "\nThe enemy attacks you for "@ + spec_quarters(
            old(laby_data).enemy.damages as int / 2,
        ) + " HP."@,
        final(laby_data).room_type == old(laby_data).room_type,
        final(laby_data).steps_number == old(laby_data).steps_number,
        final(laby_data).seen_npcs == old(laby_data).seen_npcs,
        final(laby_data).npc == old(laby_data).npc,
        final(laby_data).item_type == old(laby_data).item_type,
        final(laby_data).next_directions == old(laby_data).next_directions,
        final(laby_data).game_state == old(laby_data).game_state,
        final(laby_data).description == old(laby_data).description,
        final(laby_data).tutorial_page == old(laby_data).tutorial_page,
{
    let msg = String::from_str("You put yourself in a protection position (x0.5)");
    let echo = msg.clone();
    log.push(echo);
    laby_data.status_message = msg;
    player.last_action = player.action;
    player.action = PlayerActions::Protect;
    proof {
        assert(msgs_view(log@) =~= msgs_view(old(log)@) + seq!["You put yourself in a protection position (x0.5)"@]);
    }
    ai_turn(player, laby_data);
}

/// Draws the next room type from the weighted table (four corridors, one
/// item, three enemies, two NPCs in ten), redrawing nothing: the entries of
/// the previous type are left out of the draw, which gives exactly the
/// distribution of drawing until the type changes.
pub fn draw_room_type(prev: RoomType, rng: &mut GameRng) -> (r: RoomType)
    ensures
        r != prev,
{
    let mut candidates: Vec<RoomType> = Vec::new();
    if prev != RoomType::Corridor {
        candidates.push(RoomType::Corridor);
        candidates.push(RoomType::Corridor);
        candidates.push(RoomType::Corridor);
        candidates.push(RoomType::Corridor);
    }
    if prev != RoomType::Item {
        candidates.push(RoomType::Item);
    }
    if prev != RoomType::Enemy {
        candidates.push(RoomType::Enemy);
        candidates.push(RoomType::Enemy);
        candidates.push(RoomType::Enemy);
    }
    if prev != RoomType::Npc {
        candidates.push(RoomType::Npc);
        candidates.push(RoomType::Npc);
    }
    proof {
        assert(candidates@.len() >= 1);
        assert(forall|i: int| 0 <= i < candidates@.len() ==> candidates@[i] != prev);
    }
    let idx = rng.below(candidates.len() as u32) as usize;
    candidates[idx]
}

/// Whether a name is already among the seen ones.
pub fn seen_contains(seen: &Vec<String>, name: &str) -> (r: bool)
    ensures
        r == name_in_pool(name@, seen@),
{
    let mut i: usize = 0;
    while i < seen.len()
        invariant
            i <= seen@.len(),
            forall|j: int| 0 <= j < i ==> seen@[j]@ != name@,
        decreases seen@.len() - i,
    {
        if crate::text::str_eq(seen[i].as_str(), name) {
            return true;
        }
        i = i + 1;
    }
    false
}

/// Every NPC identity of the table has been seen this run.
pub open spec fn all_npcs_seen(seen: Seq<String>, npcs: NPCsResource) -> bool {
    forall|k: int|
        0 <= k < npcs.npcs@.len() ==> name_in_pool(#[trigger] npcs.npcs@[k].username@, seen)
}

/// One turn of the labyrinth: the step counter moves, the player heals one
/// point (capped), and the next room is drawn and populated.
///
/// Reaching the winning step count forces the boss room; the very first step
/// is always a corridor; every later draw lands on a room type other than the
/// one just left, except that an NPC room falls back to an enemy room once
/// every NPC identity has been seen.
pub fn new_turn(
    laby_data: &mut LabyrinthData,
    laby_res: &LabyrinthResourceFile,
    player: &mut PlayerStats,
    npc_res: &NPCsResource,
    rng: &mut GameRng,
)
    requires
        player_wf(*old(player)),
        laby_res.wf(),
        enemy_wf(old(laby_data).enemy),
        npc_res.npcs@.len() <= u32::MAX,
    ensures
        final(laby_data).steps_number == sat_add_u32(old(laby_data).steps_number as int, 1),
        final(player).health == if sat_add_u32(old(player).health as int, 4) <= old(player).max_health {
            sat_add_u32(old(player).health as int, 4)
        } else {
            old(player).max_health as int
        },
        final(player).max_health == old(player).max_health,
        final(player).level == old(player).level,
        final(player).exp == old(player).exp,
        final(player).damages == old(player).damages,
        final(player).action == old(player).action,
        final(player).last_action == old(player).last_action,
        player_wf(*final(player)),
        enemy_wf(final(laby_data).enemy),
        final(laby_data).steps_number == NUMBER_OF_TURN_TO_WIN ==> final(laby_data).room_type
            == RoomType::Enemy && is_boss(final(laby_data).enemy),
        final(laby_data).steps_number != NUMBER_OF_TURN_TO_WIN && final(laby_data).steps_number
            <= 1 ==> final(laby_data).room_type == RoomType::Corridor,
        final(laby_data).steps_number != NUMBER_OF_TURN_TO_WIN && final(laby_data).steps_number
            >= 2 ==> (final(laby_data).room_type != old(laby_data).room_type || (final(laby_data).room_type == RoomType::Enemy && all_npcs_seen(old(laby_data).seen_npcs@, *npc_res))),
        final(laby_data).room_type == RoomType::Enemy && final(laby_data).steps_number
            != NUMBER_OF_TURN_TO_WIN ==> exists|i: int|
            0 <= i < laby_res.enemies@.len() && enemy_eqv(
                final(laby_data).enemy,
                #[trigger] laby_res.enemies@[i],
            ),
        final(laby_data).room_type == RoomType::Corridor ==> final(laby_data).enemy == old(laby_data).enemy && exists|i: int|
            0 <= i < laby_res.descriptions@.len() && final(laby_data).description@
                == #[trigger] laby_res.descriptions@[i]@,
        final(laby_data).room_type == RoomType::Item ==> final(laby_data).enemy == old(laby_data).enemy,
        final(laby_data).room_type == RoomType::Npc ==> {
            &&& final(laby_data).enemy == old(laby_data).enemy
            &&& exists|k: int|
                0 <= k < npc_res.npcs@.len() && final(laby_data).npc.username@
                    == #[trigger] npc_res.npcs@[k].username@
            &&& !name_in_pool(final(laby_data).npc.username@, old(laby_data).seen_npcs@)
            &&& final(laby_data).seen_npcs@.len() == old(laby_data).seen_npcs@.len() + 1
            &&& final(laby_data).seen_npcs@.last()@ == final(laby_data).npc.username@
            &&& forall|j: int|
                0 <= j < old(laby_data).seen_npcs@.len() ==> final(laby_data).seen_npcs@[j] == old(laby_data).seen_npcs@[j]
        },
        final(laby_data).room_type != RoomType::Npc ==> final(laby_data).seen_npcs == old(laby_data).seen_npcs && final(laby_data).npc == old(laby_data).npc,
        final(laby_data).game_state == old(laby_data).game_state,
        final(laby_data).tutorial_page == old(laby_data).tutorial_page,
        final(laby_data).has_shown_turn_infos == old(laby_data).has_shown_turn_infos,
        final(laby_data).wait_for_continue == old(laby_data).wait_for_continue,
        final(laby_data).status_message == old(laby_data).status_message,
{
    laby_data.steps_number = laby_data.steps_number.saturating_add(1);
    let healed = player.health.saturating_add(4);
    player.health = if healed <= player.max_health {
        healed
    } else {
        player.max_health
    };

    if laby_data.steps_number == NUMBER_OF_TURN_TO_WIN {
        laby_data.room_type = RoomType::Enemy;
        laby_data.enemy = make_boss();
        return;
    }

    if laby_data.steps_number <= 1 {
        laby_data.room_type = RoomType::Corridor;
    } else {
        laby_data.room_type = draw_room_type(laby_data.room_type, rng);
    }

    match laby_data.room_type {
        RoomType::Enemy => {
            let template = Enemy::get_random_enemy(&laby_res.enemies, rng);
            laby_data.enemy = template.duplicate();
        },
        RoomType::Item => {
            laby_data.item_type = ItemType::get_random_item(rng);
        },
        RoomType::Npc => {
            let mut unseen: Vec<usize> = Vec::new();
            let mut k: usize = 0;
            while k < npc_res.npcs.len()
                invariant
                    k <= npc_res.npcs@.len(),
                    npc_res.npcs@.len() <= u32::MAX,
                    unseen@.len() <= k,
                    laby_data.room_type == RoomType::Npc,
                    forall|j: int|
                        0 <= j < unseen@.len() ==> 0 <= #[trigger] unseen@[j] < k
                            && !name_in_pool(
                            npc_res.npcs@[unseen@[j] as int].username@,
                            laby_data.seen_npcs@,
                        ),
                    forall|j: int|
                        0 <= j < k && !name_in_pool(
                            #[trigger] npc_res.npcs@[j].username@,
                            laby_data.seen_npcs@,
                        ) ==> unseen@.contains(j as usize),
                decreases npc_res.npcs@.len() - k,
            {
                let ghost prev_unseen = unseen@;
                if !seen_contains(&laby_data.seen_npcs, npc_res.npcs[k].username.as_str()) {
                    unseen.push(k);
                    proof {
                        assert(unseen@[unseen@.len() - 1] == k);
                        assert(unseen@.contains(k));
                    }
                }
                proof {
                    assert forall|j: int|
                        0 <= j < k + 1 && !name_in_pool(
                            #[trigger] npc_res.npcs@[j].username@,
                            laby_data.seen_npcs@,
                        ) implies unseen@.contains(j as usize) by {
                        if j < k {
                            let w = choose|w: int|
                                0 <= w < prev_unseen.len() && prev_unseen[w] == j as usize;
                            assert(unseen@[w] == j as usize);
                        } else {
                            assert(unseen@[unseen@.len() - 1] == k);
                        }
                    }
                }
                k = k + 1;
            }
            if unseen.len() > 0 {
                let pick = rng.below(unseen.len() as u32) as usize;
                let chosen = unseen[pick];
                let npc = npc_res.npcs[chosen].duplicate();
                laby_data.seen_npcs.push(npc.username.clone());
                laby_data.npc = npc;
            } else {
                proof {
                    assert forall|j: int|
                        0 <= j < npc_res.npcs@.len() implies name_in_pool(
                        #[trigger] npc_res.npcs@[j].username@,
                        laby_data.seen_npcs@,
                    ) by {
                        if !name_in_pool(npc_res.npcs@[j].username@, laby_data.seen_npcs@) {
                            assert(unseen@.contains(j as usize));
                        }
                    }
                }
                laby_data.room_type = RoomType::Enemy;
                let template = Enemy::get_random_enemy(&laby_res.enemies, rng);
                laby_data.enemy = template.duplicate();
            }
        },
        RoomType::Corridor => {
            laby_data.next_directions = Directions::get_random_direction(rng);
            let index = rng.below(laby_res.descriptions.len() as u32) as usize;
            laby_data.description = laby_res.descriptions[index].clone();
            proof {
                assert(laby_data.description@ == laby_res.descriptions@[index as int]@);
            }
        },
    }
}

/// The status line the last action left, shown under every room.
pub open spec fn spec_display_status(d: LabyrinthData) -> Seq<char> {
    d.status_message@ + "\n"@
}

/// Renders the status line.
pub fn display_status(laby_data: &LabyrinthData) -> (r: String)
    ensures
        r@ == spec_display_status(*laby_data),
{
    let mut res = laby_data.status_message.clone();
    res.append("\n");
    res
}

/// One tutorial page with the standing instructions under it.
pub open spec fn spec_display_tutorial(r: LabyrinthResourceFile, page: int) -> Seq<char> {
    "------------------==[Labyrinth]==-----------------\n\n"@ + r.tutorial@[page]@ + "\n\n\n"@
        + "Don't forget to type 'help' for the list of commands.\n"@
        + "To show this tutorial type 'tutorial', to show the\n"@
        + "informations about the current room type 'infos'\n"@
        + "To navigate in the labyrinth type 'go <dir>'\n\n"@
        + "Type 'continue' in order to start the adventure...\n"@
}

/// Renders a tutorial page.
pub fn display_tutorial(laby_res: &LabyrinthResourceFile, page: usize) -> (r: String)
    requires
        page < laby_res.tutorial@.len(),
    ensures
        r@ == spec_display_tutorial(*laby_res, page as int),
{
    let mut res = String::from_str("------------------==[Labyrinth]==-----------------\n\n");
    res.append(laby_res.tutorial[page].as_str());
    res.append("\n\n\n");
    res.append("Don't forget to type 'help' for the list of commands.\n");
    res.append("To show this tutorial type 'tutorial', to show the\n");
    res.append("informations about the current room type 'infos'\n");
    res.append("To navigate in the labyrinth type 'go <dir>'\n\n");
    res.append("Type 'continue' in order to start the adventure...\n");
    res
}

/// The corridor view: the layout art, the room count, the available
/// movements, and the corridor's description.
pub open spec fn spec_turn_display(d: LabyrinthData) -> Seq<char> {
    "----------------------[View]----------------------\n"@ + crate::laby_data::spec_directions_art(
        d.next_directions,
    ) + "\n"@ + "Room number: "@ + crate::text::spec_dec(d.steps_number as int) + "/"@
        + crate::text::spec_dec(NUMBER_OF_TURN_TO_WIN as int) + "\n"@ + "Available movements: ["@
        + crate::laby_data::spec_directions_display(d.next_directions) + "]\n\n"@
        + "-------------------[Description]------------------\n"@ + d.description@ + "\n"@
}

/// Renders the corridor view.
pub fn turn_display(laby_data: &LabyrinthData) -> (r: String)
    ensures
        r@ == spec_turn_display(*laby_data),
{
    let mut res = String::from_str("----------------------[View]----------------------\n");
    res.append(laby_data.next_directions.get_ascii_art());
    res.append("\n");
    res.append("Room number: ");
    let steps = crate::text::u64_to_dec(laby_data.steps_number as u64);
    res.append(steps.as_str());
    res.append("/");
    let goal = crate::text::u64_to_dec(NUMBER_OF_TURN_TO_WIN as u64);
    res.append(goal.as_str());
    res.append("\n");
    res.append("Available movements: [");
    let moves = laby_data.next_directions.to_display();
    res.append(moves.as_str());
    res.append("]\n\n");
    res.append("-------------------[Description]------------------\n");
    res.append(laby_data.description.as_str());
    res.append("\n");
    res
}

/// The enemy view: the enemy's art, its health bar, and its description.
pub open spec fn spec_enemy_display(d: LabyrinthData) -> Seq<char> {
    "----------------------[View]----------------------\n"@ + crate::laby_enemies::spec_enemy_art(
        d.enemy.kind,
    ) + "\n"@ + "Health: "@ + crate::text::spec_bar(
        20,
        d.enemy.health as int,
        d.enemy.max_health as int,
    ) + "\n"@ + "\n"@ + "-------------------[Description]------------------\n"@ + d.enemy.description@
        + "\n"@
}

/// Renders the enemy view.
pub fn enemy_display(laby_data: &LabyrinthData) -> (r: String)
    requires
        enemy_wf(laby_data.enemy),
    ensures
        r@ == spec_enemy_display(*laby_data),
{
    let mut res = String::from_str("----------------------[View]----------------------\n");
    res.append(laby_data.enemy.get_ascii_art());
    res.append("\n");
    res.append("Health: ");
    let bar = crate::text::display_bar(
        20,
        laby_data.enemy.health as u64,
        laby_data.enemy.max_health as u64,
    );
    res.append(bar.as_str());
    res.append("\n");
    res.append("\n");
    res.append("-------------------[Description]------------------\n");
    res.append(laby_data.enemy.description.as_str());
    res.append("\n");
    res
}

/// The item view: the item's art and the standing looting instructions.
pub open spec fn spec_item_display(d: LabyrinthData) -> Seq<char> {
    "----------------------[View]----------------------\n"@ + crate::laby_items::spec_item_art(
        d.item_type,
    ) + "\n"@ + "-------------------[Description]------------------\n"@
        + "\nThis item has currently no description\nHowever you can type 'loot' to get its content\nor you can type 'skip' to go to the next room.\n\n"@
}

/// Renders the item view.
pub fn item_display(laby_data: &LabyrinthData) -> (r: String)
    ensures
        r@ == spec_item_display(*laby_data),
{
    let mut res = String::from_str("----------------------[View]----------------------\n");
    res.append(laby_data.item_type.get_ascii_art());
    res.append("\n");
    res.append("-------------------[Description]------------------\n");
    res.append(
        "\nThis item has currently no description\nHowever you can type 'loot' to get its content\nor you can type 'skip' to go to the next room.\n\n",
    );
    res
}

/// The NPC view: the knight art, the NPC's username, and the standing
/// conversation instructions.
pub open spec fn spec_npc_display(d: LabyrinthData) -> Seq<char> {
    "----------------------[View]----------------------\n"@ + crate::laby_art::KNIGHT@ + "\n"@
        + "Username: "@ + d.npc.username@ + "\n"@
        + "---------------------[Talking]--------------------\n"@
        + "\nFor now all npcs are mute (how so?)\nBut he is still nice and if you talk with him/her\nyou may get a small boon from it *wink wink*\n\n"@
        + "Type 'talk' to speak with him/her 'insult' to .. insult the npc\nor 'skip' to go to the next room\n"@
}

/// Renders the NPC view.
pub fn npc_display(laby_data: &LabyrinthData) -> (r: String)
    ensures
        r@ == spec_npc_display(*laby_data),
{
    let mut res = String::from_str("----------------------[View]----------------------\n");
    res.append(crate::laby_art::KNIGHT);
    res.append("\n");
    res.append("Username: ");
    res.append(laby_data.npc.username.as_str());
    res.append("\n");
    res.append("---------------------[Talking]--------------------\n");
    res.append(
        "\nFor now all npcs are mute (how so?)\nBut he is still nice and if you talk with him/her\nyou may get a small boon from it *wink wink*\n\n",
    );
    res.append(
        "Type 'talk' to speak with him/her 'insult' to .. insult the npc\nor 'skip' to go to the next room\n",
    );
    res
}

/// The player's panel: level, experience, and the health bar.
pub open spec fn spec_player_infos(p: PlayerStats) -> Seq<char> {
    "------------------[Player Stats]------------------\n\n"@ + "Level: "@ + crate::text::spec_dec(
        p.level as int,
    ) + " | Exp: "@ + crate::text::spec_dec(p.exp as int) + " | Gold: 0\n"@ + "Health: "@
        + crate::text::spec_bar(20, p.health as int, p.max_health as int) + "\n"@
}

/// Loads the labyrinth into the console.
pub fn start_game(cg_data: &mut crate::games::ConsoleGamesData)
    ensures
        final(cg_data).loaded_game == crate::games::GameList::Labyrinth,
        final(cg_data).ragequit_count == old(cg_data).ragequit_count,
        final(cg_data).has_won_laby == old(cg_data).has_won_laby,
{
    cg_data.loaded_game = crate::games::GameList::Labyrinth;
}

/// Whether this mini-game's systems run: only while it is the loaded one.
pub fn should_run(cg_data: &ConsoleGamesData) -> (r: bool)
    ensures
        r == (cg_data.loaded_game == GameList::Labyrinth),
{
    cg_data.loaded_game == GameList::Labyrinth
}

/// One point of healing, capped at the maximum: what a boon or a new turn
/// grants.
pub open spec fn spec_heal_capped(h: int, max: int) -> int {
    if sat_add_u32(h, 4) <= max {
        sat_add_u32(h, 4)
    } else {
        max
    }
}

/// The status line an enemy kill leaves.
pub open spec fn spec_kill_message(exp: int) -> Seq<char> {
    "Enemy killed! Congrats!\nYou gained "@ + crate::text::spec_dec(exp) + " Exp"@
}

/// The one line the boss kill prints.
pub open spec fn spec_win_message() -> Seq<char> {
    "Congrats! You beat the game!\n"@
}

/// Whether the loop pass does nothing: the current turn's information is
/// already on screen, or the game waits for an explicit `continue`.
pub open spec fn spec_game_loop_skipped(d: LabyrinthData) -> bool {
    d.has_shown_turn_infos || d.wait_for_continue
}

/// The labyrinth's once-per-frame evaluation pass.
///
/// While nothing suspends it, it: halts the run and raises the losing flag on
/// a dead player; drains pending level-ups; clears the screen and shows the
/// current tutorial page (then waits for `continue`) or the current room with
/// the player's panel and the last status line; detects a defeated enemy,
/// awarding its experience and advancing the turn, or, for the boss, ending
/// the mini-game with the permanent won flag and a reset session.
pub fn game_loop(
    laby_data: &mut LabyrinthData,
    laby_res: &mut LabyrinthResourceFile,
    console_writer: &mut Vec<String>,
    console_data: &mut ConsoleData,
    player: &mut PlayerStats,
    vuln_res: &mut VulnerabilityResource,
    npc_res: &NPCsResource,
    cg_data: &mut ConsoleGamesData,
    rng: &mut GameRng,
)
    requires
        player_wf(*old(player)),
        old(laby_res).wf(),
        enemy_wf(old(laby_data).enemy),
        old(laby_data).tutorial_page < old(laby_res).tutorial@.len(),
        npc_res.npcs@.len() <= u32::MAX,
    ensures
        player_wf(*final(player)),
        final(laby_res).wf(),
        enemy_wf(final(laby_data).enemy),
        final(laby_data).tutorial_page < final(laby_res).tutorial@.len(),
        final(laby_res).tutorial == old(laby_res).tutorial,
        spec_game_loop_skipped(*old(laby_data)) ==> *final(laby_data) == *old(laby_data) && *final(laby_res) == *old(laby_res) && *final(console_writer) == *old(console_writer) && *final(console_data) == *old(console_data) && *final(player) == *old(player) && *final(vuln_res) == *old(vuln_res) && *final(cg_data) == *old(cg_data),
        !spec_game_loop_skipped(*old(laby_data)) && old(player).health == 0 ==> {
            &&& crate::vulnerability::spec_flag(
                *final(vuln_res),
                crate::vulnerability::BoolVulnerabilityType::LabyrinthLosing,
            )
            &&& forall|k: crate::vulnerability::BoolVulnerabilityType|
                k != crate::vulnerability::BoolVulnerabilityType::LabyrinthLosing
                    ==> crate::vulnerability::spec_flag(*final(vuln_res), k)
                    == crate::vulnerability::spec_flag(*old(vuln_res), k)
            &&& final(vuln_res).at_door == old(vuln_res).at_door
            &&& final(vuln_res).is_hiding == old(vuln_res).is_hiding
            &&& final(vuln_res).enemies == old(vuln_res).enemies
            &&& *final(laby_data) == *old(laby_data)
            &&& *final(laby_res) == *old(laby_res)
            &&& *final(player) == *old(player)
            &&& *final(console_writer) == *old(console_writer)
            &&& *final(console_data) == *old(console_data)
            &&& *final(cg_data) == *old(cg_data)
        },
        !spec_game_loop_skipped(*old(laby_data)) && old(player).health > 0 ==> final(player).exp < 10 || (old(laby_data).game_state == GameState::Exploring && old(laby_data).room_type == RoomType::Enemy && old(laby_data).enemy.health == 0),
        !spec_game_loop_skipped(*old(laby_data)) && old(player).health > 0 ==> *final(vuln_res)
            == *old(vuln_res),
        !spec_game_loop_skipped(*old(laby_data)) && old(player).health > 0 && !(old(laby_data).game_state == GameState::Exploring && old(laby_data).room_type == RoomType::Enemy && old(laby_data).enemy.health == 0 && old(laby_data).enemy.kind == EnemyType::Boss) ==> {
            &&& final(player).level == sat_add_u32(
                old(player).level as int,
                old(player).exp as int / 10,
            )
            &&& final(player).max_health == sat_add_u32(
                old(player).max_health as int,
                8 * (old(player).exp as int / 10),
            )
            &&& final(player).damages == sat_add_u32(
                old(player).damages as int,
                4 * (old(player).exp as int / 10),
            )
            &&& final(laby_res).enemies@.len() == old(laby_res).enemies@.len()
            &&& forall|i: int|
                0 <= i < final(laby_res).enemies@.len() ==> scaled_enemy_by(
                    #[trigger] final(laby_res).enemies@[i],
                    old(laby_res).enemies@[i],
                    old(player).exp as int / 10,
                )
        },
        !spec_game_loop_skipped(*old(laby_data)) && old(player).health > 0 && old(laby_data).game_state == GameState::Tutorial ==> {
            &&& final(console_data).messages@.len() == 0
            &&& msgs_view(final(console_writer)@) == msgs_view(old(console_writer)@) + seq![
                spec_display_tutorial(*old(laby_res), old(laby_data).tutorial_page as int),
            ]
            &&& final(laby_data).wait_for_continue
            &&& final(laby_data).has_shown_turn_infos
            &&& final(laby_data).status_message@ == Seq::<char>::empty()
            &&& final(laby_data).game_state == GameState::Tutorial
            &&& final(laby_data).tutorial_page == old(laby_data).tutorial_page
            &&& final(laby_data).steps_number == old(laby_data).steps_number
            &&& final(laby_data).room_type == old(laby_data).room_type
            &&& final(laby_data).enemy == old(laby_data).enemy
            &&& final(laby_data).seen_npcs == old(laby_data).seen_npcs
            &&& final(player).exp == old(player).exp as int % 10
            &&& *final(cg_data) == *old(cg_data)
        },
        !spec_game_loop_skipped(*old(laby_data)) && old(player).health > 0 && old(laby_data).game_state == GameState::Exploring && !(old(laby_data).room_type == RoomType::Enemy
            && old(laby_data).enemy.health == 0) ==> {
            &&& final(console_data).messages@.len() == 0
            &&& msgs_view(final(console_writer)@) == msgs_view(old(console_writer)@) + seq![
                if old(laby_data).room_type == RoomType::Corridor {
                    spec_turn_display(*old(laby_data))
                } else if old(laby_data).room_type == RoomType::Enemy {
                    spec_enemy_display(*old(laby_data))
                } else if old(laby_data).room_type == RoomType::Item {
                    spec_item_display(*old(laby_data))
                } else {
                    spec_npc_display(*old(laby_data))
                },
                spec_player_infos(*final(player)),
                spec_display_status(*old(laby_data)),
            ]
            &&& final(laby_data).has_shown_turn_infos
            &&& final(laby_data).wait_for_continue == old(laby_data).wait_for_continue
            &&& final(laby_data).status_message@ == Seq::<char>::empty()
            &&& final(laby_data).game_state == GameState::Exploring
            &&& final(laby_data).room_type == old(laby_data).room_type
            &&& final(laby_data).steps_number == old(laby_data).steps_number
            &&& final(laby_data).enemy == old(laby_data).enemy
            &&& final(laby_data).seen_npcs == old(laby_data).seen_npcs
            &&& final(laby_data).npc == old(laby_data).npc
            &&& final(laby_data).description == old(laby_data).description
            &&& final(laby_data).next_directions == old(laby_data).next_directions
            &&& final(laby_data).item_type == old(laby_data).item_type
            &&& final(laby_data).tutorial_page == old(laby_data).tutorial_page
            &&& final(player).exp == old(player).exp as int % 10
            &&& *final(cg_data) == *old(cg_data)
        },
        !spec_game_loop_skipped(*old(laby_data)) && old(player).health > 0 && old(laby_data).game_state == GameState::Exploring && old(laby_data).room_type == RoomType::Enemy && old(laby_data).enemy.health == 0 && old(laby_data).enemy.kind == EnemyType::Boss ==> {
            &&& final(console_data).messages@.len() == 0
            &&& msgs_view(final(console_writer)@) == msgs_view(old(console_writer)@) + seq![
                spec_win_message(),
            ]
            &&& final(cg_data).loaded_game == GameList::NoGame
            &&& final(cg_data).has_won_laby
            &&& final(cg_data).ragequit_count == old(cg_data).ragequit_count
            &&& fresh_laby_data(*final(laby_data))
            &&& final(player).health == 40 && final(player).max_health == 40 && final(player).level == 1 && final(player).exp == 0 && final(player).damages == 4
            &&& enemies_eqv(final(laby_res).enemies@, old(laby_res).spec_initial_enemies())
            &&& *final(vuln_res) == *old(vuln_res)
        },
        !spec_game_loop_skipped(*old(laby_data)) && old(player).health > 0 && old(laby_data).game_state == GameState::Exploring && old(laby_data).room_type == RoomType::Enemy && old(laby_data).enemy.health == 0 && old(laby_data).enemy.kind != EnemyType::Boss ==> {
            &&& final(console_data).messages@.len() == 0
            &&& msgs_view(final(console_writer)@) == msgs_view(old(console_writer)@)
            &&& final(laby_data).steps_number == sat_add_u32(old(laby_data).steps_number as int, 1)
            &&& !final(laby_data).has_shown_turn_infos
            &&& !final(laby_data).wait_for_continue
            &&& final(laby_data).status_message@ == spec_kill_message(
                old(laby_data).enemy.exp as int,
            )
            &&& final(player).action == PlayerActions::Attack
            &&& final(player).exp == sat_add_u32(
                old(player).exp as int % 10,
                old(laby_data).enemy.exp as int,
            )
            &&& final(laby_data).steps_number == NUMBER_OF_TURN_TO_WIN ==> is_boss(
                final(laby_data).enemy,
            )
            &&& *final(cg_data) == *old(cg_data)
        },
{
    if laby_data.has_shown_turn_infos || laby_data.wait_for_continue {
        return;
    }
    if player.health == 0 {
        vuln_res.raise(crate::vulnerability::BoolVulnerabilityType::LabyrinthLosing);
        return;
    }
    process_level_ups(player, laby_res);
    console_data.messages.clear();
    let ghost w0 = console_writer@;
    match laby_data.game_state {
        GameState::Tutorial => {
            let page_text = display_tutorial(laby_res, laby_data.tutorial_page);
            console_writer.push(page_text);
            laby_data.wait_for_continue = true;
            proof {
                crate::text::lemma_msgs_view_snoc(
                    msgs_view(w0),
                    w0,
                    console_writer@,
                    spec_display_tutorial(*old(laby_res), old(laby_data).tutorial_page as int),
                );
            }
        },
        GameState::Exploring => {
            let ghost mut room_shown: Seq<char> = Seq::empty();
            match laby_data.room_type {
                RoomType::Corridor => {
                    let text = turn_display(laby_data);
                    console_writer.push(text);
                    proof {
                        room_shown = spec_turn_display(*laby_data);
                    }
                },
                RoomType::Enemy => {
                    if laby_data.enemy.health == 0 {
                        laby_data.wait_for_continue = false;
                        laby_data.has_shown_turn_infos = false;
                        if laby_data.enemy.kind == EnemyType::Boss {
                            console_writer.push(String::from_str("Congrats! You beat the game!\n"));
                            cg_data.loaded_game = GameList::NoGame;
                            cg_data.has_won_laby = true;
                            laby_data.reset();
                            laby_res.reset();
                            player.reset();
                            proof {
                                crate::text::lemma_msgs_view_snoc(
                                    msgs_view(w0),
                                    w0,
                                    console_writer@,
                                    spec_win_message(),
                                );
                            }
                            return;
                        }
                        let mut msg = String::from_str("Enemy killed! Congrats!\nYou gained ");
                        let reward = crate::text::u64_to_dec(laby_data.enemy.exp as u64);
                        msg.append(reward.as_str());
                        msg.append(" Exp");
                        laby_data.status_message = msg;
                        player.exp = player.exp.saturating_add(laby_data.enemy.exp);
                        player.action = PlayerActions::Attack;
                        new_turn(laby_data, laby_res, player, npc_res, rng);
                        return;
                    }
                    let text = enemy_display(laby_data);
                    console_writer.push(text);
                    proof {
                        room_shown = spec_enemy_display(*laby_data);
                    }
                },
                RoomType::Item => {
                    let text = item_display(laby_data);
                    console_writer.push(text);
                    proof {
                        room_shown = spec_item_display(*laby_data);
                    }
                },
                RoomType::Npc => {
                    let text = npc_display(laby_data);
                    console_writer.push(text);
                    proof {
                        room_shown = spec_npc_display(*laby_data);
                    }
                },
            }
            proof {
                crate::text::lemma_msgs_view_snoc(msgs_view(w0), w0, console_writer@, room_shown);
            }
            let ghost w1 = console_writer@;
            let infos = player_infos(player);
            console_writer.push(infos);
            proof {
                crate::text::lemma_msgs_view_snoc(
                    msgs_view(w0) + seq![room_shown],
                    w1,
                    console_writer@,
                    spec_player_infos(*player),
                );
            }
            let ghost w2 = console_writer@;
            let status = display_status(laby_data);
            console_writer.push(status);
            proof {
                crate::text::lemma_msgs_view_snoc(
                    msgs_view(w0) + seq![room_shown] + seq![spec_player_infos(*player)],
                    w2,
                    console_writer@,
                    spec_display_status(*laby_data),
                );
                assert(msgs_view(console_writer@) =~= msgs_view(w0) + seq![
                    room_shown,
                    spec_player_infos(*player),
                    spec_display_status(*old(laby_data)),
                ]);
            }
        },
    }
    laby_data.has_shown_turn_infos = true;
    laby_data.status_message = String::new();
}

/// Renders the player's panel.
pub fn player_infos(player: &PlayerStats) -> (r: String)
    requires
        player_wf(*player),
    ensures
        r@ == spec_player_infos(*player),
{
    let mut res = String::from_str("------------------[Player Stats]------------------\n\n");
    res.append("Level: ");
    let level = crate::text::u64_to_dec(player.level as u64);
    res.append(level.as_str());
    res.append(" | Exp: ");
    let exp = crate::text::u64_to_dec(player.exp as u64);
    res.append(exp.as_str());
    res.append(" | Gold: 0\n");
    res.append("Health: ");
    let bar = crate::text::display_bar(20, player.health as u64, player.max_health as u64);
    res.append(bar.as_str());
    res.append("\n");
    res
}

} // verus!
