//! The application-level state: the mode stack, the needs, the vulnerability
//! flags with the resolver, the game-over messages, and the global console.

use rusty_jam::console::{commands_handler, ConsoleData, SystemInfo};
use rusty_jam::game_over::{GameOverData, GameOverReason};
use rusty_jam::games::{ConsoleGamesData, GameList};
use rusty_jam::needs::{decrease_stats, track_needs_depletion, Hunger, PeePeePooPoo, Sleepiness};
use rusty_jam::states::{GameState, StateStack};
use rusty_jam::interactions::{
    close_console, delivery_arrived, delivery_received, eating_finished, exit_hiding,
    interact_phone, interact_pizza, open_door, ordering_finished, peeing_finished,
    sleeping_finished, start_hiding, trigger_open_console, DoorOutcome, PhoneOutcome,
    PizzaDeliveryStatus, WakeOutcome,
};
use rusty_jam::vulnerability::{
    resolve, run_resolver, AtDoorType, BoolVulnerabilityType, VulnerabilityResource,
};

#[test]
fn stack_starts_in_main_menu() {
    let stack = StateStack::new();
    assert_eq!(stack.current(), GameState::MainMenu);
}

#[test]
fn stack_push_pop_restores_prior_top() {
    let mut stack = StateStack::new();
    assert!(stack.set(GameState::MainGame));
    assert!(stack.push(GameState::ConsoleOpenedState));
    assert_eq!(stack.current(), GameState::ConsoleOpenedState);
    assert!(stack.pop());
    assert_eq!(stack.current(), GameState::MainGame);
}

#[test]
fn stack_pop_on_single_entry_is_refused() {
    let mut stack = StateStack::new();
    assert!(!stack.pop());
    assert_eq!(stack.current(), GameState::MainMenu);
}

#[test]
fn stack_push_same_state_is_refused() {
    let mut stack = StateStack::new();
    assert!(!stack.push(GameState::MainMenu));
    assert_eq!(stack.current(), GameState::MainMenu);
}

#[test]
fn stack_game_over_is_terminal() {
    let mut stack = StateStack::new();
    assert!(stack.set(GameState::MainGame));
    assert!(stack.push(GameState::PlayerSleepingState));
    assert!(stack.set(GameState::GameOverState));
    assert!(!stack.pop());
    assert!(!stack.push(GameState::MainGame));
    assert!(!stack.set(GameState::MainMenu));
    assert_eq!(stack.current(), GameState::GameOverState);
    stack.restart();
    assert_eq!(stack.current(), GameState::MainMenu);
}

#[test]
fn needs_decay_by_five_and_floor_at_zero() {
    let mut hunger = Hunger(100);
    let mut sleepiness = Sleepiness(3);
    let mut bladder = PeePeePooPoo(5);
    decrease_stats(&mut hunger, &mut sleepiness, &mut bladder);
    assert_eq!(hunger.0, 95);
    assert_eq!(sleepiness.0, 0);
    assert_eq!(bladder.0, 0);
}

#[test]
fn needs_stay_in_range_over_long_decay() {
    let mut hunger = Hunger(100);
    let mut sleepiness = Sleepiness(100);
    let mut bladder = PeePeePooPoo(100);
    for _ in 0..50 {
        decrease_stats(&mut hunger, &mut sleepiness, &mut bladder);
        assert!(hunger.0 <= 100);
        assert!(sleepiness.0 <= 100);
        assert!(bladder.0 <= 100);
    }
    assert_eq!(hunger.0, 0);
}

#[test]
fn needs_gates_at_fifty() {
    assert!(Hunger(50).is_low());
    assert!(!Hunger(51).is_low());
    assert!(Sleepiness(0).is_low());
    assert!(!PeePeePooPoo(100).is_low());
}

#[test]
fn satisfying_actions_refill_to_exactly_one_hundred() {
    let mut stack = StateStack::new();
    assert!(stack.set(GameState::MainGame));
    assert!(stack.push(GameState::PlayerEatingState));
    let mut hunger = Hunger(15);
    let mut status = PizzaDeliveryStatus::Delivered;
    eating_finished(&mut stack, &mut hunger, &mut status);
    assert_eq!(hunger.0, 100);
    assert_eq!(status, PizzaDeliveryStatus::Unordered);
    assert_eq!(stack.current(), GameState::MainGame);

    assert!(stack.push(GameState::PlayerPeeingState));
    let mut bladder = PeePeePooPoo(40);
    peeing_finished(&mut stack, &mut bladder);
    assert_eq!(bladder.0, 100);

    assert!(stack.push(GameState::PlayerSleepingState));
    let mut sleepiness = Sleepiness(10);
    let vuln = VulnerabilityResource::new();
    let mut go_data = GameOverData::new();
    let outcome = sleeping_finished(&mut stack, &mut sleepiness, &vuln, &mut go_data);
    assert_eq!(outcome, WakeOutcome::WokeUp);
    assert_eq!(sleepiness.0, 100);
}

#[test]
fn sleeping_with_open_door_and_enemy_ends_the_run() {
    let mut stack = StateStack::new();
    assert!(stack.set(GameState::MainGame));
    assert!(stack.push(GameState::PlayerSleepingState));
    let mut sleepiness = Sleepiness(10);
    let mut vuln = VulnerabilityResource::new();
    vuln.raise(BoolVulnerabilityType::BedDoorLeftOpen);
    vuln.enemies.push(String::from("xxXDarkKevin420Xxx"));
    let mut go_data = GameOverData::new();
    let outcome = sleeping_finished(&mut stack, &mut sleepiness, &vuln, &mut go_data);
    assert_eq!(outcome, WakeOutcome::Scare);
    assert_eq!(go_data.reason, Some(GameOverReason::DoorLeftOpen));
    assert!(go_data.hide_player_sprite);
    assert_eq!(stack.current(), GameState::GameOverState);
    assert_eq!(sleepiness.0, 10);
}

#[test]
fn every_game_over_reason_has_a_nonempty_message() {
    let reasons = [
        GameOverReason::DoorLeftOpen,
        GameOverReason::TooManyRageQuit,
        GameOverReason::TicTacToeLosing,
        GameOverReason::LabyrinthLosing,
        GameOverReason::LabyrinthWinning,
        GameOverReason::LetThemIn,
        GameOverReason::NeedsDepleted,
    ];
    for reason in reasons {
        assert!(!reason.get_message().is_empty());
    }
}

#[test]
fn game_over_message_text_is_fixed() {
    assert_eq!(
        GameOverReason::LetThemIn.get_message(),
        "Why break in when you can use the front door?"
    );
    assert_eq!(
        GameOverReason::DoorLeftOpen.get_message(),
        "Don't forget to close the door when focusing on something else."
    );
}

#[test]
fn resolver_priority_and_terminal_state() {
    let mut vuln = VulnerabilityResource::new();
    assert_eq!(resolve(&vuln), None);
    vuln.raise(BoolVulnerabilityType::LabyrinthWinning);
    assert_eq!(resolve(&vuln), Some(GameOverReason::LabyrinthWinning));
    vuln.raise(BoolVulnerabilityType::TicTacToeLosing);
    assert_eq!(resolve(&vuln), Some(GameOverReason::TicTacToeLosing));
    vuln.raise(BoolVulnerabilityType::TooManyRageQuit);
    assert_eq!(resolve(&vuln), Some(GameOverReason::TooManyRageQuit));

    let mut stack = StateStack::new();
    assert!(stack.set(GameState::MainGame));
    let mut go_data = GameOverData::new();
    run_resolver(&vuln, &mut stack, &mut go_data);
    assert_eq!(stack.current(), GameState::GameOverState);
    assert_eq!(go_data.reason, Some(GameOverReason::TooManyRageQuit));
    // once over, further evaluation is suspended
    let mut vuln2 = VulnerabilityResource::new();
    vuln2.raise(BoolVulnerabilityType::LabyrinthLosing);
    run_resolver(&vuln2, &mut stack, &mut go_data);
    assert_eq!(go_data.reason, Some(GameOverReason::TooManyRageQuit));
}

#[test]
fn door_left_open_needs_an_enemy_to_resolve() {
    let mut vuln = VulnerabilityResource::new();
    vuln.raise(BoolVulnerabilityType::BedDoorLeftOpen);
    assert_eq!(resolve(&vuln), None);
    vuln.enemies.push(String::from("grudge"));
    assert_eq!(resolve(&vuln), Some(GameOverReason::DoorLeftOpen));
}

#[test]
fn four_ragequits_raise_the_flag() {
    let mut cg = ConsoleGamesData::new();
    let mut vuln = VulnerabilityResource::new();
    for _ in 0..3 {
        cg.ragequit(&mut vuln);
        assert!(!vuln.flag(BoolVulnerabilityType::TooManyRageQuit));
    }
    cg.ragequit(&mut vuln);
    assert!(vuln.flag(BoolVulnerabilityType::TooManyRageQuit));
    assert_eq!(cg.ragequit_count, 4);
    assert_eq!(cg.loaded_game, GameList::NoGame);
}

fn dummy_motd() -> String {
    String::from("motd placeholder")
}

#[test]
fn console_echoes_and_complains_about_unknown_verbs() {
    let mut log: Vec<String> = Vec::new();
    let mut data = ConsoleData::new();
    let mut cg = ConsoleGamesData::new();
    commands_handler("  frobnicate now ", &mut log, &mut data, &mut cg, &dummy_motd());
    assert_eq!(log.len(), 2);
    assert_eq!(log[0], "> frobnicate now");
    assert_eq!(log[1], "I didn't understand the command: \"frobnicate\"");
}

#[test]
fn console_clear_empties_the_transcript() {
    let mut log: Vec<String> = Vec::new();
    let mut data = ConsoleData::new();
    data.messages.push(String::from("old line"));
    let mut cg = ConsoleGamesData::new();
    commands_handler("clear", &mut log, &mut data, &mut cg, &dummy_motd());
    assert!(data.messages.is_empty());
    assert!(log.is_empty());
}

#[test]
fn console_help_prints_the_catalogue_of_commands() {
    let mut log: Vec<String> = Vec::new();
    let mut data = ConsoleData::new();
    let mut cg = ConsoleGamesData::new();
    commands_handler("help", &mut log, &mut data, &mut cg, &dummy_motd());
    assert_eq!(log.len(), 2);
    assert!(log[1].contains("SHOWING AVAILABLE COMMANDS"));
    assert!(log[1].contains("- play <game> : Plays the game <game>"));
}

#[test]
fn console_motd_prints_the_rendered_banner() {
    let mut log: Vec<String> = Vec::new();
    let mut data = ConsoleData::new();
    let mut cg = ConsoleGamesData::new();
    commands_handler("motd", &mut log, &mut data, &mut cg, &dummy_motd());
    assert_eq!(log.len(), 2);
    assert_eq!(log[1], "motd placeholder");
}

#[test]
fn console_play_loads_the_named_game() {
    let mut log: Vec<String> = Vec::new();
    let mut data = ConsoleData::new();
    let mut cg = ConsoleGamesData::new();
    commands_handler("play Labyrinth", &mut log, &mut data, &mut cg, &dummy_motd());
    assert_eq!(cg.loaded_game, GameList::Labyrinth);
    cg.loaded_game = GameList::NoGame;
    commands_handler("play TICTACTOE", &mut log, &mut data, &mut cg, &dummy_motd());
    assert_eq!(cg.loaded_game, GameList::TicTacToe);
}

#[test]
fn console_play_without_a_game_prints_the_list() {
    let mut log: Vec<String> = Vec::new();
    let mut data = ConsoleData::new();
    let mut cg = ConsoleGamesData::new();
    commands_handler("play", &mut log, &mut data, &mut cg, &dummy_motd());
    assert_eq!(cg.loaded_game, GameList::NoGame);
    assert_eq!(log.len(), 3);
    assert_eq!(log[1], "No game specified...");
    assert!(log[2].contains("CONSOLE GAMES INSTALLED"));
}

#[test]
fn console_play_unknown_game_complains() {
    let mut log: Vec<String> = Vec::new();
    let mut data = ConsoleData::new();
    let mut cg = ConsoleGamesData::new();
    commands_handler("play doom", &mut log, &mut data, &mut cg, &dummy_motd());
    assert_eq!(cg.loaded_game, GameList::NoGame);
    assert_eq!(log[1], "The game 'doom' isn't installed yet...");
}

#[test]
fn motd_renders_the_machine_description_exactly() {
    let info = SystemInfo {
        username: Some(String::from("kevin")),
        name: None,
        kernel_version: Some(String::from("6.1.0")),
        os_version: None,
        host_name: None,
        processors: 4,
        frequency_mhz: 2450,
        used_memory_kb: 4_000_000,
        total_memory_kb: 8_000_000,
    };
    let banner = rusty_jam::console::print_motd(&info);
    let mut expected = String::from("Welcome back on SafeOS 3.1\n--------------------------\n");
    expected.push_str("Username: kevin\n\n");
    expected.push_str("System name:             \"Random system\"\n");
    expected.push_str("System kernel version:   \"6.1.0\"\n");
    expected.push_str("System OS version:       \"1.0\"\n");
    expected.push_str("System host name:        \"localhost\"\n\n");
    expected.push_str("Processors: 4 at 2.45GHz\n");
    let full = 4_000_000u64 * 58 / 8_000_000;
    let mut bar = String::from("[");
    for _ in 0..full {
        bar.push('=');
    }
    for _ in 0..(60 - full) {
        bar.push(' ');
    }
    bar.push_str("] 4.00/8.00");
    expected.push_str(&format!("RAM: {} Gb\n", bar));
    assert_eq!(banner, expected);
}

#[test]
fn door_with_intruder_ends_the_run() {
    let mut stack = StateStack::new();
    assert!(stack.set(GameState::MainGame));
    let mut vuln = VulnerabilityResource::new();
    vuln.at_door = AtDoorType::Npc;
    let mut go_data = GameOverData::new();
    let outcome = open_door(&mut stack, &vuln, &mut go_data);
    assert_eq!(outcome, DoorOutcome::LetThemIn);
    assert_eq!(go_data.reason, Some(GameOverReason::LetThemIn));
    assert_eq!(stack.current(), GameState::GameOverState);
}

#[test]
fn pizza_delivery_path_to_eating() {
    let mut stack = StateStack::new();
    assert!(stack.set(GameState::MainGame));
    let mut vuln = VulnerabilityResource::new();
    let mut status = PizzaDeliveryStatus::Unordered;
    assert_eq!(interact_phone(status, &mut stack), PhoneOutcome::StartedOrdering);
    assert_eq!(stack.current(), GameState::PlayerOrderingPizzaState);
    ordering_finished(&mut stack, &mut status);
    assert_eq!(status, PizzaDeliveryStatus::Ordered);
    delivery_arrived(&mut status, &mut vuln, false);
    assert_eq!(status, PizzaDeliveryStatus::AtDoor);
    assert_eq!(vuln.at_door, AtDoorType::DeliveryPerson);
    delivery_received(&mut status, &mut vuln);
    assert_eq!(status, PizzaDeliveryStatus::Delivered);
    assert_eq!(vuln.at_door, AtDoorType::Nobody);
    let hungry = Hunger(30);
    assert!(interact_pizza(&hungry, status, &mut stack));
    assert_eq!(stack.current(), GameState::PlayerEatingState);
}

#[test]
fn hiding_flow_toggles_the_flag_and_the_mode() {
    let mut stack = StateStack::new();
    assert!(stack.set(GameState::MainGame));
    let mut vuln = VulnerabilityResource::new();
    assert!(start_hiding(&mut stack, &mut vuln));
    assert!(vuln.is_hiding);
    assert_eq!(stack.current(), GameState::PlayerHidingState);
    exit_hiding(&mut stack, &mut vuln);
    assert!(!vuln.is_hiding);
    assert_eq!(stack.current(), GameState::MainGame);
}

#[test]
fn closing_the_console_after_a_win_raises_the_flag() {
    let mut stack = StateStack::new();
    assert!(stack.set(GameState::MainGame));
    assert!(trigger_open_console(&mut stack));
    assert_eq!(stack.current(), GameState::ConsoleOpenedState);
    let mut cg = ConsoleGamesData::new();
    cg.has_won_laby = true;
    let mut vuln = VulnerabilityResource::new();
    close_console(&mut stack, &cg, &mut vuln);
    assert_eq!(stack.current(), GameState::MainGame);
    assert!(vuln.flag(BoolVulnerabilityType::LabyrinthWinning));
    assert_eq!(resolve(&vuln), Some(GameOverReason::LabyrinthWinning));
}

#[test]
fn typed_line_is_clamped_to_the_console_width() {
    let mut data = ConsoleData::new();
    for _ in 0..50 {
        data.enter_command.push_str("abcd");
    }
    data.clamp_enter_command();
    assert_eq!(data.enter_command.len(), 144);
    data.enter_command = String::from("short");
    data.clamp_enter_command();
    assert_eq!(data.enter_command, "short");
}

#[test]
fn depleted_needs_end_the_run_through_the_resolver() {
    let mut vuln = VulnerabilityResource::new();
    let hunger = Hunger(5);
    let sleepiness = Sleepiness(0);
    let bladder = PeePeePooPoo(0);
    track_needs_depletion(&hunger, &sleepiness, &bladder, &mut vuln);
    assert_eq!(resolve(&vuln), None);
    let hunger = Hunger(0);
    track_needs_depletion(&hunger, &sleepiness, &bladder, &mut vuln);
    assert!(vuln.flag(BoolVulnerabilityType::NeedsDepleted));
    assert_eq!(resolve(&vuln), Some(GameOverReason::NeedsDepleted));
}

#[test]
fn pizza_trick_puts_an_intruder_at_the_door() {
    let mut vuln = VulnerabilityResource::new();
    let mut status = PizzaDeliveryStatus::Ordered;
    delivery_arrived(&mut status, &mut vuln, true);
    assert_eq!(status, PizzaDeliveryStatus::Ordered);
    assert_eq!(vuln.at_door, AtDoorType::Npc);
}
