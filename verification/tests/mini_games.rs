//! The two mini-games: the labyrinth's turn engine and combat, and
//! tic-tac-toe.

use rusty_jam::console::ConsoleData;
use rusty_jam::games::{ConsoleGamesData, GameList};
use rusty_jam::laby_commands;
use rusty_jam::laby_data::{
    Directions, GameState, LabyrinthData, LabyrinthResourceFile, Movement, PlayerActions,
    PlayerStats, RoomType,
};
use rusty_jam::laby_enemies::{Enemy, EnemyType};
use rusty_jam::laby_game::{
    ai_turn, attack_enemy, draw_room_type, game_loop, level_up_step, new_turn, prepare_stance,
    process_level_ups, protect_stance, NUMBER_OF_TURN_TO_WIN,
};
use rusty_jam::npcs::{generate_npcs, NPCData, NPCsResource};
use rusty_jam::rng::GameRng;
use rusty_jam::tictactoe::{self, TicTacToeData, TurnType};
use rusty_jam::vulnerability::{BoolVulnerabilityType, VulnerabilityResource};

fn sample_tables() -> LabyrinthResourceFile {
    let descriptions = vec![
        String::from("A damp corridor."),
        String::from("A dusty hallway."),
    ];
    let tutorial = vec![String::from("Welcome to the labyrinth.")];
    let enemies = vec![
        Enemy {
            kind: EnemyType::Rat,
            description: String::from("A rat."),
            health: 12,
            max_health: 12,
            exp: 5,
            damages: 2,
        },
        Enemy {
            kind: EnemyType::Bat,
            description: String::from("A bat."),
            health: 16,
            max_health: 16,
            exp: 7,
            damages: 4,
        },
    ];
    LabyrinthResourceFile::new(descriptions, tutorial, enemies).unwrap()
}

fn sample_npcs() -> NPCsResource {
    NPCsResource {
        npcs: vec![
            NPCData { sprite_id: 0, username: String::from("alpha") },
            NPCData { sprite_id: 1, username: String::from("beta") },
        ],
    }
}

#[test]
fn tables_reject_empty_or_malformed_input() {
    assert!(LabyrinthResourceFile::new(vec![], vec![String::from("t")], vec![]).is_err());
    let bad_enemy = Enemy {
        kind: EnemyType::Rat,
        description: String::from("hollow"),
        health: 5,
        max_health: 4,
        exp: 1,
        damages: 1,
    };
    assert!(
        LabyrinthResourceFile::new(
            vec![String::from("d")],
            vec![String::from("t")],
            vec![bad_enemy]
        )
        .is_err()
    );
}

#[test]
fn room_draw_never_repeats_the_previous_type() {
    let mut rng = GameRng::from_seed(7);
    let mut prev = RoomType::Corridor;
    for _ in 0..200 {
        let next = draw_room_type(prev, &mut rng);
        assert_ne!(next, prev);
        prev = next;
    }
}

#[test]
fn new_turn_advances_and_changes_rooms() {
    let mut rng = GameRng::from_seed(11);
    let laby_res = sample_tables();
    let npc_res = sample_npcs();
    let mut laby_data = LabyrinthData::default();
    let mut player = PlayerStats::default();
    laby_data.game_state = GameState::Exploring;
    for _ in 0..20 {
        let before = laby_data.room_type;
        let before_steps = laby_data.steps_number;
        new_turn(&mut laby_data, &laby_res, &mut player, &npc_res, &mut rng);
        assert_eq!(laby_data.steps_number, before_steps + 1);
        if laby_data.steps_number >= 2 && laby_data.steps_number != NUMBER_OF_TURN_TO_WIN {
            // the one allowed repeat is the NPC-exhaustion fallback to an enemy
            if laby_data.room_type == before {
                assert_eq!(laby_data.room_type, RoomType::Enemy);
            }
        }
    }
}

#[test]
fn first_step_is_a_corridor_with_a_table_description() {
    let mut rng = GameRng::from_seed(3);
    let laby_res = sample_tables();
    let npc_res = sample_npcs();
    let mut laby_data = LabyrinthData::default();
    let mut player = PlayerStats::default();
    new_turn(&mut laby_data, &laby_res, &mut player, &npc_res, &mut rng);
    assert_eq!(laby_data.steps_number, 1);
    assert_eq!(laby_data.room_type, RoomType::Corridor);
    assert!(laby_res
        .descriptions
        .iter()
        .any(|d| d == &laby_data.description));
}

#[test]
fn boss_spawns_exactly_at_the_winning_step() {
    let mut rng = GameRng::from_seed(5);
    let laby_res = sample_tables();
    let npc_res = sample_npcs();
    let mut laby_data = LabyrinthData::default();
    let mut player = PlayerStats::default();
    laby_data.game_state = GameState::Exploring;
    laby_data.steps_number = NUMBER_OF_TURN_TO_WIN - 1;
    new_turn(&mut laby_data, &laby_res, &mut player, &npc_res, &mut rng);
    assert_eq!(laby_data.steps_number, 30);
    assert_eq!(laby_data.room_type, RoomType::Enemy);
    assert_eq!(laby_data.enemy.kind, EnemyType::Boss);
    // 25 points of health and 2 points of damage, in quarter points
    assert_eq!(laby_data.enemy.health, 100);
    assert_eq!(laby_data.enemy.max_health, 100);
    assert_eq!(laby_data.enemy.damages, 8);
    assert_eq!(laby_data.enemy.exp, 100);
    assert_eq!(
        laby_data.enemy.description,
        "\nThis is the end. He is the devil, the incarnation\nof your worst fears. He is also ...xxXDarkKevin420Xxx."
    );
}

#[test]
fn repeated_turns_drive_the_run_to_the_boss() {
    let mut rng = GameRng::from_seed(19);
    let laby_res = sample_tables();
    let npc_res = sample_npcs();
    let mut laby_data = LabyrinthData::default();
    let mut player = PlayerStats::default();
    laby_data.game_state = GameState::Exploring;
    for _ in 0..NUMBER_OF_TURN_TO_WIN {
        assert_ne!(laby_data.enemy.kind, EnemyType::Boss);
        new_turn(&mut laby_data, &laby_res, &mut player, &npc_res, &mut rng);
    }
    assert_eq!(laby_data.steps_number, NUMBER_OF_TURN_TO_WIN);
    assert_eq!(laby_data.room_type, RoomType::Enemy);
    assert_eq!(laby_data.enemy.kind, EnemyType::Boss);
}

#[test]
fn boss_room_cannot_be_skipped() {
    let (mut laby_data, laby_res, mut log, mut console, mut player, mut vuln, npcs, mut cg, mut rng) =
        fresh_session();
    laby_data.game_state = GameState::Exploring;
    laby_data.room_type = RoomType::Enemy;
    laby_data.enemy = rusty_jam::laby_game::make_boss();
    laby_data.steps_number = 30;
    laby_commands::commands_handler(
        "skip", &mut log, &mut cg, &mut console, &mut laby_data, &laby_res, &mut vuln,
        &mut player, &npcs, &mut rng,
    );
    assert_eq!(laby_data.steps_number, 30);
    assert_eq!(log[1], "You can't skip this room...");
}

#[test]
fn talking_to_an_npc_advances_the_turn() {
    let (mut laby_data, laby_res, mut log, mut console, mut player, mut vuln, npcs, mut cg, mut rng) =
        fresh_session();
    laby_data.game_state = GameState::Exploring;
    laby_data.room_type = RoomType::Npc;
    laby_data.steps_number = 2;
    let before = player.damages;
    laby_commands::commands_handler(
        "talk", &mut log, &mut cg, &mut console, &mut laby_data, &laby_res, &mut vuln,
        &mut player, &npcs, &mut rng,
    );
    assert_eq!(laby_data.steps_number, 3);
    assert!(player.damages == before || player.damages == before + 4);
}

#[test]
fn labyrinth_displays_show_the_room_and_the_player() {
    let laby_res = sample_tables();
    let mut laby_data = LabyrinthData::default();
    let player = PlayerStats::default();
    // the default opponent: a rat at 3 of 3 health
    let enemy_view = rusty_jam::laby_game::enemy_display(&laby_data);
    assert!(enemy_view.contains("Health: [==================  ] 3.00/3.00"));
    assert!(enemy_view.contains("Rat description"));
    let panel = rusty_jam::laby_game::player_infos(&player);
    assert!(panel.contains("Level: 1 | Exp: 0 | Gold: 0"));
    assert!(panel.contains("Health: [==================  ] 10.00/10.00"));
    laby_data.steps_number = 4;
    laby_data.description = String::from("A damp corridor.");
    let view = rusty_jam::laby_game::turn_display(&laby_data);
    assert!(view.contains("Room number: 4/30"));
    assert!(view.contains("Available movements: [Forward, Left, Right]"));
    assert!(view.contains("A damp corridor."));
    let page = rusty_jam::laby_game::display_tutorial(&laby_res, 0);
    assert!(page.contains("Welcome to the labyrinth."));
    assert!(page.contains("Type 'continue' in order to start the adventure..."));
}

#[test]
fn a_reset_run_can_meet_every_identity_again() {
    let mut laby_data = LabyrinthData::default();
    laby_data.seen_npcs = vec![String::from("alpha"), String::from("beta")];
    laby_data.reset();
    assert!(laby_data.seen_npcs.is_empty());
    let mut rng = GameRng::from_seed(59);
    let laby_res = sample_tables();
    let npc_res = sample_npcs();
    let mut player = PlayerStats::default();
    laby_data.game_state = GameState::Exploring;
    laby_data.steps_number = 1;
    for _ in 0..200 {
        if laby_data.steps_number >= NUMBER_OF_TURN_TO_WIN - 1 {
            laby_data.steps_number = 1;
        }
        new_turn(&mut laby_data, &laby_res, &mut player, &npc_res, &mut rng);
        if laby_data.seen_npcs.len() == 2 {
            break;
        }
    }
    assert_eq!(laby_data.seen_npcs.len(), 2);
}

#[test]
fn labyrinth_help_has_two_pages() {
    let first = rusty_jam::laby_commands::display_help(1);
    assert!(first.contains("- go <direction>: Move the player to the next direction"));
    assert!(first.ends_with("============(1/2)===========\n"));
    let second = rusty_jam::laby_commands::display_help(2);
    assert!(second.contains("- prepare: prepares the attack for x2.5 damages"));
    assert!(second.ends_with("============(2/2)===========\n"));
}

#[test]
fn npc_rooms_fall_back_to_enemies_once_all_are_seen() {
    let mut rng = GameRng::from_seed(13);
    let laby_res = sample_tables();
    let npc_res = sample_npcs();
    let mut laby_data = LabyrinthData::default();
    let mut player = PlayerStats::default();
    laby_data.game_state = GameState::Exploring;
    laby_data.steps_number = 1;
    laby_data.seen_npcs = vec![String::from("alpha"), String::from("beta")];
    for _ in 0..60 {
        if laby_data.steps_number >= NUMBER_OF_TURN_TO_WIN - 1 {
            break;
        }
        new_turn(&mut laby_data, &laby_res, &mut player, &npc_res, &mut rng);
        assert_ne!(laby_data.room_type, RoomType::Npc);
    }
    assert_eq!(laby_data.seen_npcs.len(), 2);
}

#[test]
fn npc_draws_avoid_already_seen_identities() {
    let mut rng = GameRng::from_seed(17);
    let laby_res = sample_tables();
    let npc_res = sample_npcs();
    let mut laby_data = LabyrinthData::default();
    let mut player = PlayerStats::default();
    laby_data.game_state = GameState::Exploring;
    laby_data.steps_number = 1;
    // run turns until both identities have appeared
    for _ in 0..500 {
        if laby_data.steps_number >= NUMBER_OF_TURN_TO_WIN - 1 {
            laby_data.steps_number = 1;
        }
        new_turn(&mut laby_data, &laby_res, &mut player, &npc_res, &mut rng);
        if laby_data.seen_npcs.len() == 2 {
            break;
        }
    }
    assert_eq!(laby_data.seen_npcs.len(), 2);
    assert_ne!(laby_data.seen_npcs[0], laby_data.seen_npcs[1]);
}

#[test]
fn attack_deals_plain_damage_and_takes_the_counter() {
    let mut laby_data = LabyrinthData::default();
    let mut player = PlayerStats::default();
    let mut log: Vec<String> = Vec::new();
    laby_data.game_state = GameState::Exploring;
    laby_data.room_type = RoomType::Enemy;
    // rat: 3 health, half a point of damage, in quarters
    attack_enemy(&mut player, &mut laby_data, &mut log);
    assert_eq!(laby_data.enemy.health, 8); // 12 - 4
    assert_eq!(player.health, 38); // 40 - 2
    assert_eq!(player.action, PlayerActions::Attack);
    assert_eq!(log.len(), 1);
    assert_eq!(log[0], "Attacking the enemy for 1 damage");
    assert_eq!(
        laby_data.status_message,
        "Attacking the enemy for 1 damage\nThe enemy attacks you for 0.5 HP."
    );
}

#[test]
fn prepare_boosts_exactly_the_next_attack() {
    let mut laby_data = LabyrinthData::default();
    let mut player = PlayerStats::default();
    let mut log: Vec<String> = Vec::new();
    laby_data.game_state = GameState::Exploring;
    laby_data.room_type = RoomType::Enemy;
    laby_data.enemy.health = 100;
    laby_data.enemy.max_health = 100;
    prepare_stance(&mut player, &mut laby_data, &mut log);
    assert_eq!(player.action, PlayerActions::Prepare);
    attack_enemy(&mut player, &mut laby_data, &mut log);
    // 2.5-fold: 1 damage point becomes 2.5, i.e. 10 quarter points
    assert_eq!(laby_data.enemy.health, 90);
    attack_enemy(&mut player, &mut laby_data, &mut log);
    // the bonus is spent: back to 4 quarter points
    assert_eq!(laby_data.enemy.health, 86);
}

#[test]
fn protect_halves_exactly_this_turns_counter() {
    let mut laby_data = LabyrinthData::default();
    let mut player = PlayerStats::default();
    let mut log: Vec<String> = Vec::new();
    laby_data.game_state = GameState::Exploring;
    laby_data.room_type = RoomType::Enemy;
    laby_data.enemy.damages = 8; // two points
    protect_stance(&mut player, &mut laby_data, &mut log);
    assert_eq!(player.health, 36); // 40 - 8/2 quarter points
    attack_enemy(&mut player, &mut laby_data, &mut log);
    assert_eq!(player.health, 28); // the next counter is full again
}

#[test]
fn enemy_health_is_monotone_and_player_health_floors_at_zero() {
    let mut laby_data = LabyrinthData::default();
    let mut player = PlayerStats::default();
    let mut log: Vec<String> = Vec::new();
    laby_data.game_state = GameState::Exploring;
    laby_data.room_type = RoomType::Enemy;
    laby_data.enemy.damages = 400; // a hundred points a hit
    let mut last_enemy_health = laby_data.enemy.health;
    for _ in 0..5 {
        attack_enemy(&mut player, &mut laby_data, &mut log);
        assert!(laby_data.enemy.health <= last_enemy_health);
        last_enemy_health = laby_data.enemy.health;
    }
    assert_eq!(player.health, 0);
}

#[test]
fn leveling_drains_every_threshold_and_grows_the_player() {
    let laby_res = &mut sample_tables();
    let mut player = PlayerStats::default();
    player.exp = 25;
    process_level_ups(&mut player, laby_res);
    assert_eq!(player.exp, 5);
    assert_eq!(player.level, 3);
    assert_eq!(player.max_health, 56); // 40 + 2 * 8
    assert_eq!(player.damages, 12); // 4 + 2 * 4
    // the templates scaled twice in lockstep: +2 health, +0.5 damage each
    assert_eq!(laby_res.enemies[0].max_health, 28);
    assert_eq!(laby_res.enemies[0].damages, 6);
    assert_eq!(laby_res.enemies[0].exp, 5);
}

#[test]
fn level_up_strictly_raises_max_health() {
    let laby_res = &mut sample_tables();
    let mut player = PlayerStats::default();
    player.exp = 10;
    let before = player.max_health;
    level_up_step(&mut player, laby_res);
    assert!(player.max_health > before);
    assert!(player.exp < 10);
}

#[test]
fn counter_attack_floors_player_health() {
    let mut laby_data = LabyrinthData::default();
    let mut player = PlayerStats::default();
    player.health = 1;
    laby_data.enemy.damages = 40;
    ai_turn(&mut player, &mut laby_data);
    assert_eq!(player.health, 0);
}

fn fresh_session() -> (
    LabyrinthData,
    LabyrinthResourceFile,
    Vec<String>,
    ConsoleData,
    PlayerStats,
    VulnerabilityResource,
    NPCsResource,
    ConsoleGamesData,
    GameRng,
) {
    (
        LabyrinthData::default(),
        sample_tables(),
        Vec::new(),
        ConsoleData::new(),
        PlayerStats::default(),
        VulnerabilityResource::new(),
        sample_npcs(),
        ConsoleGamesData::new(),
        GameRng::from_seed(23),
    )
}

#[test]
fn tutorial_gates_the_turn_counter() {
    let (mut laby_data, mut laby_res, mut log, mut console, mut player, mut vuln, npcs, mut cg, mut rng) =
        fresh_session();
    cg.loaded_game = GameList::Labyrinth;
    // the loop pass shows the first tutorial page and waits
    game_loop(
        &mut laby_data, &mut laby_res, &mut log, &mut console, &mut player, &mut vuln, &npcs,
        &mut cg, &mut rng,
    );
    assert!(laby_data.wait_for_continue);
    assert_eq!(laby_data.steps_number, 0);
    // movement during the tutorial must not advance the counter
    laby_commands::commands_handler(
        "go forward", &mut log, &mut cg, &mut console, &mut laby_data, &laby_res, &mut vuln,
        &mut player, &npcs, &mut rng,
    );
    assert_eq!(laby_data.steps_number, 0);
    assert_eq!(laby_data.game_state, GameState::Tutorial);
    // only the final continue starts exploring, with exactly one turn taken
    laby_commands::commands_handler(
        "continue", &mut log, &mut cg, &mut console, &mut laby_data, &laby_res, &mut vuln,
        &mut player, &npcs, &mut rng,
    );
    assert_eq!(laby_data.game_state, GameState::Exploring);
    assert_eq!(laby_data.steps_number, 1);
}

#[test]
fn continue_outside_the_tutorial_does_nothing() {
    let (mut laby_data, laby_res, mut log, mut console, mut player, mut vuln, npcs, mut cg, mut rng) =
        fresh_session();
    laby_data.game_state = GameState::Exploring;
    laby_commands::commands_handler(
        "continue", &mut log, &mut cg, &mut console, &mut laby_data, &laby_res, &mut vuln,
        &mut player, &npcs, &mut rng,
    );
    assert_eq!(laby_data.steps_number, 0);
    assert_eq!(log.len(), 2);
    assert_eq!(log[1], "There is nothing to continue...");
}

#[test]
fn combat_verbs_outside_an_enemy_room_only_answer() {
    let (mut laby_data, laby_res, mut log, mut console, mut player, mut vuln, npcs, mut cg, mut rng) =
        fresh_session();
    laby_data.game_state = GameState::Exploring;
    laby_data.room_type = RoomType::Corridor;
    laby_commands::commands_handler(
        "attack", &mut log, &mut cg, &mut console, &mut laby_data, &laby_res, &mut vuln,
        &mut player, &npcs, &mut rng,
    );
    assert_eq!(player.health, 40);
    assert_eq!(log[1], "You punch... uh... the wall!");
}

#[test]
fn ragequit_resets_the_run_and_counts() {
    let (mut laby_data, laby_res, mut log, mut console, mut player, mut vuln, npcs, mut cg, mut rng) =
        fresh_session();
    laby_data.steps_number = 7;
    laby_data.seen_npcs = vec![String::from("alpha")];
    player.exp = 9;
    laby_commands::commands_handler(
        "ragequit", &mut log, &mut cg, &mut console, &mut laby_data, &laby_res, &mut vuln,
        &mut player, &npcs, &mut rng,
    );
    assert_eq!(laby_data.steps_number, 0);
    assert!(laby_data.seen_npcs.is_empty());
    assert_eq!(player.exp, 0);
    assert_eq!(cg.ragequit_count, 1);
    assert_eq!(cg.loaded_game, GameList::NoGame);
    assert_eq!(log[1], "Quitting Labyrinth...");
}

#[test]
fn dead_player_raises_the_losing_flag() {
    let (mut laby_data, mut laby_res, mut log, mut console, mut player, mut vuln, npcs, mut cg, mut rng) =
        fresh_session();
    player.health = 0;
    game_loop(
        &mut laby_data, &mut laby_res, &mut log, &mut console, &mut player, &mut vuln, &npcs,
        &mut cg, &mut rng,
    );
    assert!(vuln.flag(BoolVulnerabilityType::LabyrinthLosing));
}

#[test]
fn boss_defeat_wins_and_resets_the_session() {
    let (mut laby_data, mut laby_res, mut log, mut console, mut player, mut vuln, npcs, mut cg, mut rng) =
        fresh_session();
    cg.loaded_game = GameList::Labyrinth;
    laby_data.game_state = GameState::Exploring;
    laby_data.room_type = RoomType::Enemy;
    laby_data.enemy = rusty_jam::laby_game::make_boss();
    laby_data.enemy.health = 0;
    laby_data.steps_number = 30;
    game_loop(
        &mut laby_data, &mut laby_res, &mut log, &mut console, &mut player, &mut vuln, &npcs,
        &mut cg, &mut rng,
    );
    assert!(cg.has_won_laby);
    assert_eq!(cg.loaded_game, GameList::NoGame);
    assert_eq!(laby_data.steps_number, 0);
    assert_eq!(laby_data.game_state, GameState::Tutorial);
    assert!(laby_data.seen_npcs.is_empty());
    assert_eq!(laby_data.status_message, "");
    assert_eq!(player.health, 40);
    assert_eq!(log.last().unwrap(), "Congrats! You beat the game!\n");
}

#[test]
fn defeated_enemy_awards_experience_and_advances() {
    let (mut laby_data, mut laby_res, mut log, mut console, mut player, mut vuln, npcs, mut cg, mut rng) =
        fresh_session();
    laby_data.game_state = GameState::Exploring;
    laby_data.room_type = RoomType::Enemy;
    laby_data.enemy.health = 0;
    laby_data.enemy.exp = 5;
    laby_data.steps_number = 3;
    game_loop(
        &mut laby_data, &mut laby_res, &mut log, &mut console, &mut player, &mut vuln, &npcs,
        &mut cg, &mut rng,
    );
    assert_eq!(player.exp, 5);
    assert_eq!(player.action, PlayerActions::Attack);
    assert_eq!(laby_data.steps_number, 4);
    assert_eq!(
        laby_data.status_message,
        "Enemy killed! Congrats!\nYou gained 5 Exp"
    );
}

#[test]
fn movement_parses_case_insensitively() {
    assert!(matches!(Movement::from_string("FORWARD"), Some(Movement::Forward)));
    assert!(matches!(Movement::from_string("Left"), Some(Movement::Left)));
    assert!(matches!(Movement::from_string("right"), Some(Movement::Right)));
    assert!(Movement::from_string("sideways").is_none());
}

#[test]
fn corridor_layouts_gate_movement() {
    assert!(Directions::All.can_go_direction(Movement::Forward));
    assert!(Directions::LeftFront.can_go_direction(Movement::Left));
    assert!(!Directions::LeftFront.can_go_direction(Movement::Right));
    assert!(!Directions::Right.can_go_direction(Movement::Forward));
    assert_eq!(Directions::RightFront.to_display(), "Forward, Right");
}

#[test]
fn npc_generation_draws_distinct_identities() {
    let pool = vec![
        String::from("one"),
        String::from("two"),
        String::from("three"),
        String::from("four"),
    ];
    let mut rng = GameRng::from_seed(31);
    let npcs = generate_npcs(&pool, &mut rng);
    assert_eq!(npcs.len(), 3);
    for (i, npc) in npcs.iter().enumerate() {
        assert_eq!(npc.sprite_id, i);
        assert!(pool.contains(&npc.username));
    }
    assert_ne!(npcs[0].username, npcs[1].username);
    assert_ne!(npcs[1].username, npcs[2].username);
    assert_ne!(npcs[0].username, npcs[2].username);
}

#[test]
fn rng_draws_stay_in_range() {
    let mut rng = GameRng::from_seed(41);
    for _ in 0..100 {
        assert!(rng.below(6) < 6);
        assert_eq!(rng.below(1), 0);
    }
}

#[test]
fn tictactoe_row_of_player_pawns_wins() {
    let mut ttt = TicTacToeData::new();
    ttt.grid = vec![1, 1, 1, 0, 2, 0, 2, 0, 0];
    assert_eq!(ttt.has_winner(), 1);
}

#[test]
fn tictactoe_detects_columns_and_diagonals() {
    let mut ttt = TicTacToeData::new();
    ttt.grid = vec![2, 1, 0, 2, 1, 0, 2, 0, 1];
    assert_eq!(ttt.has_winner(), 2);
    ttt.grid = vec![1, 2, 0, 2, 1, 0, 0, 0, 1];
    assert_eq!(ttt.has_winner(), 1);
    ttt.grid = vec![0, 0, 2, 0, 2, 0, 2, 1, 1];
    assert_eq!(ttt.has_winner(), 2);
    ttt.grid = vec![1, 2, 0, 2, 1, 0, 0, 0, 2];
    assert_eq!(ttt.has_winner(), 0);
}

#[test]
fn tictactoe_positions_map_like_the_legend() {
    assert_eq!(TicTacToeData::get_position("a"), Some((0, 0)));
    assert_eq!(TicTacToeData::get_position("E"), Some((1, 1)));
    assert_eq!(TicTacToeData::get_position("i"), Some((2, 2)));
    assert_eq!(TicTacToeData::get_position("z"), None);
}

#[test]
fn tictactoe_place_only_on_free_cells() {
    let mut ttt = TicTacToeData::new();
    ttt.waiting_for_input = true;
    ttt.grid[4] = 2;
    let mut log: Vec<String> = Vec::new();
    tictactoe::play_position("e", &mut ttt, &mut log);
    assert_eq!(ttt.grid[4], 2);
    assert_eq!(log[0], "You can't place a pawn on top of your opponent's");
    tictactoe::play_position("a", &mut ttt, &mut log);
    assert_eq!(ttt.grid[0], 1);
    assert_eq!(ttt.current_turn, TurnType::AITurn);
    assert!(!ttt.waiting_for_input);
    assert_eq!(log[1], "You place a pawn at position (0, 0)");
}

#[test]
fn tictactoe_rejects_bad_positions() {
    let mut ttt = TicTacToeData::new();
    ttt.waiting_for_input = true;
    let mut log: Vec<String> = Vec::new();
    tictactoe::play_position("q", &mut ttt, &mut log);
    assert_eq!(log[0], "'q' is not a valid position (valid: [A-I])");
    assert!(ttt.grid.iter().all(|&c| c == 0));
}

#[test]
fn tictactoe_ai_moves_once_on_a_free_cell() {
    let mut ttt = TicTacToeData::new();
    ttt.has_seen_tutorial = true;
    ttt.current_turn = TurnType::AITurn;
    ttt.grid = vec![1, 2, 1, 2, 1, 2, 0, 0, 0];
    let mut cg = ConsoleGamesData::new();
    let mut vuln = VulnerabilityResource::new();
    let mut log: Vec<String> = Vec::new();
    let mut rng = GameRng::from_seed(51);
    tictactoe::game_loop(&mut cg, &mut ttt, &mut log, &mut vuln, &mut rng);
    let ai_pawns = ttt.grid.iter().filter(|&&c| c == 2).count();
    assert_eq!(ai_pawns, 4);
    assert!(ttt.grid[6] == 2 || ttt.grid[7] == 2 || ttt.grid[8] == 2);
    assert_eq!(ttt.current_turn, TurnType::PlayerTurn);
}

#[test]
fn tictactoe_loss_raises_the_flag_and_unloads() {
    let mut ttt = TicTacToeData::new();
    ttt.has_seen_tutorial = true;
    ttt.grid = vec![2, 2, 2, 1, 1, 0, 0, 0, 0];
    let mut cg = ConsoleGamesData::new();
    cg.loaded_game = GameList::TicTacToe;
    let mut vuln = VulnerabilityResource::new();
    let mut log: Vec<String> = Vec::new();
    let mut rng = GameRng::from_seed(53);
    tictactoe::game_loop(&mut cg, &mut ttt, &mut log, &mut vuln, &mut rng);
    assert!(vuln.flag(BoolVulnerabilityType::TicTacToeLosing));
    assert_eq!(cg.loaded_game, GameList::NoGame);
    assert!(ttt.grid.iter().all(|&c| c == 0));
}

#[test]
fn tictactoe_win_and_tie_unload_without_the_flag() {
    let mut vuln = VulnerabilityResource::new();
    let mut rng = GameRng::from_seed(57);
    let mut log: Vec<String> = Vec::new();

    let mut ttt = TicTacToeData::new();
    ttt.has_seen_tutorial = true;
    ttt.grid = vec![1, 1, 1, 2, 2, 0, 0, 0, 0];
    let mut cg = ConsoleGamesData::new();
    cg.loaded_game = GameList::TicTacToe;
    tictactoe::game_loop(&mut cg, &mut ttt, &mut log, &mut vuln, &mut rng);
    assert_eq!(cg.loaded_game, GameList::NoGame);
    assert!(!vuln.flag(BoolVulnerabilityType::TicTacToeLosing));

    let mut ttt = TicTacToeData::new();
    ttt.has_seen_tutorial = true;
    ttt.grid = vec![1, 2, 1, 1, 2, 2, 2, 1, 1];
    let mut cg = ConsoleGamesData::new();
    cg.loaded_game = GameList::TicTacToe;
    tictactoe::game_loop(&mut cg, &mut ttt, &mut log, &mut vuln, &mut rng);
    assert_eq!(cg.loaded_game, GameList::NoGame);
    assert!(!vuln.flag(BoolVulnerabilityType::TicTacToeLosing));
}

#[test]
fn tictactoe_grid_renders_with_the_legend() {
    let mut ttt = TicTacToeData::new();
    ttt.grid = vec![1, 0, 2, 0, 1, 0, 0, 0, 2];
    let shown = tictactoe::display_grid(&ttt);
    let mut expected = String::from("Current grid | Positions : \n");
    expected.push_str("X |   | O        A | B | C \n");
    expected.push_str("_________       _________\n");
    expected.push_str("  | X |          D | E | F \n");
    expected.push_str("_________       _________\n");
    expected.push_str("  |   | O        G | H | I\n\n");
    assert_eq!(shown, expected);
}

#[test]
fn tictactoe_dispatcher_places_and_complains() {
    let mut log: Vec<String> = Vec::new();
    let mut cg = ConsoleGamesData::new();
    let mut console = ConsoleData::new();
    let mut ttt = TicTacToeData::new();
    ttt.waiting_for_input = true;
    let mut vuln = VulnerabilityResource::new();
    tictactoe::commands_handler("place b", &mut log, &mut cg, &mut console, &mut ttt, &mut vuln);
    assert_eq!(ttt.grid[1], 1);
    tictactoe::commands_handler("dance", &mut log, &mut cg, &mut console, &mut ttt, &mut vuln);
    assert_eq!(log.last().unwrap(), "I didn't understand the command: \"dance\"");
}

#[test]
fn labyrinth_go_moves_only_where_a_path_leads() {
    let (mut laby_data, laby_res, mut log, mut console, mut player, mut vuln, npcs, mut cg, mut rng) =
        fresh_session();
    laby_data.game_state = GameState::Exploring;
    laby_data.next_directions = Directions::Left;
    laby_commands::commands_handler(
        "go forward", &mut log, &mut cg, &mut console, &mut laby_data, &laby_res, &mut vuln,
        &mut player, &npcs, &mut rng,
    );
    assert_eq!(laby_data.steps_number, 0);
    assert_eq!(log[1], "There is no path in this direction...");
    laby_commands::commands_handler(
        "go left", &mut log, &mut cg, &mut console, &mut laby_data, &laby_res, &mut vuln,
        &mut player, &npcs, &mut rng,
    );
    assert_eq!(laby_data.steps_number, 1);
}

#[test]
fn labyrinth_go_without_a_direction_shows_usage() {
    let (mut laby_data, laby_res, mut log, mut console, mut player, mut vuln, npcs, mut cg, mut rng) =
        fresh_session();
    laby_data.game_state = GameState::Exploring;
    laby_commands::commands_handler(
        "go", &mut log, &mut cg, &mut console, &mut laby_data, &laby_res, &mut vuln, &mut player,
        &npcs, &mut rng,
    );
    assert_eq!(log[1], "You specified no direction...");
    assert_eq!(log[2], "Usage: go <direction>, valid: (FORWARD, LEFT, RIGHT)");
    laby_commands::commands_handler(
        "go up", &mut log, &mut cg, &mut console, &mut laby_data, &laby_res, &mut vuln,
        &mut player, &npcs, &mut rng,
    );
    assert_eq!(log[4], "Please enter a valid direction...");
    assert_eq!(laby_data.steps_number, 0);
}

#[test]
fn labyrinth_loot_changes_damage_or_leaves_it() {
    let (mut laby_data, laby_res, mut log, mut console, mut player, mut vuln, npcs, mut cg, mut rng) =
        fresh_session();
    laby_data.game_state = GameState::Exploring;
    laby_data.room_type = RoomType::Item;
    let before = player.damages;
    laby_commands::commands_handler(
        "loot", &mut log, &mut cg, &mut console, &mut laby_data, &laby_res, &mut vuln,
        &mut player, &npcs, &mut rng,
    );
    assert!(player.damages == before || player.damages == before + 2);
    assert_eq!(laby_data.steps_number, 1);
}
