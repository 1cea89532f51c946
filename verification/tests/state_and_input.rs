use monkebucko::app_state::{
    disable_movement, enable_movement, in_game, movement_enabled, start_game, AppState,
};
use monkebucko::game::{
    direction, get_user_input, just_pressed, key_state, pressing, AssetTracker, Direction,
    KeyState, MovementKeys, UserInput,
};

#[test]
fn app_state_starts_at_splash() {
    assert_eq!(AppState::initial(), AppState::Splash);
}

#[test]
fn in_game_only_for_game_states() {
    assert!(!in_game(AppState::Splash));
    assert!(!in_game(AppState::Menu));
    assert!(in_game(AppState::Game { paused: true, can_move: false }));
}

#[test]
fn movement_enabled_needs_unpaused_and_can_move() {
    assert!(movement_enabled(AppState::Game { paused: false, can_move: true }));
    assert!(!movement_enabled(AppState::Game { paused: true, can_move: true }));
    assert!(!movement_enabled(AppState::Game { paused: false, can_move: false }));
    assert!(!movement_enabled(AppState::Menu));
}

#[test]
fn enable_and_disable_keep_pause_flag() {
    let paused = AppState::Game { paused: true, can_move: false };
    assert_eq!(enable_movement(paused), Some(AppState::Game { paused: true, can_move: true }));
    let running = AppState::Game { paused: false, can_move: true };
    assert_eq!(disable_movement(running), Some(AppState::Game { paused: false, can_move: false }));
    assert_eq!(enable_movement(AppState::Menu), None);
    assert_eq!(disable_movement(AppState::Splash), None);
    // law: enabling in an unpaused game enables movement, disabling always disables it
    assert!(movement_enabled(enable_movement(AppState::Game { paused: false, can_move: false }).unwrap()));
    assert!(!movement_enabled(disable_movement(running).unwrap()));
}

#[test]
fn game_starts_unpaused_without_movement() {
    assert_eq!(start_game(), AppState::Game { paused: false, can_move: false });
}

#[test]
fn key_state_priorities() {
    assert_eq!(key_state(true, true, false), KeyState::Press);
    assert_eq!(key_state(false, true, false), KeyState::Hold);
    assert_eq!(key_state(false, false, true), KeyState::Release);
    assert_eq!(key_state(false, false, false), KeyState::Off);
    assert!(just_pressed(KeyState::Press));
    assert!(!just_pressed(KeyState::Hold));
    assert!(pressing(KeyState::Hold));
    assert!(pressing(KeyState::Press));
    assert!(!pressing(KeyState::Release));
}

#[test]
fn directions_of_movement_vectors() {
    assert_eq!(direction(1, 0), Some(Direction::East));
    assert_eq!(direction(1, 1), Some(Direction::NorthEast));
    assert_eq!(direction(0, 1), Some(Direction::North));
    assert_eq!(direction(-1, 1), Some(Direction::NorthWest));
    assert_eq!(direction(-1, 0), Some(Direction::West));
    assert_eq!(direction(-1, -1), Some(Direction::SouthWest));
    assert_eq!(direction(0, -1), Some(Direction::South));
    assert_eq!(direction(1, -1), Some(Direction::SouthEast));
    assert_eq!(direction(0, 0), None);
}

#[test]
fn user_input_reads_keys() {
    let mut input = UserInput::new();
    assert!(!input.moving());
    assert_eq!(input.last_valid_direction, Direction::East);
    let keys = MovementKeys { up: true, down: false, left: true, right: false };
    get_user_input(&mut input, keys, KeyState::Press, KeyState::Off, KeyState::Hold);
    assert_eq!((input.raw_x, input.raw_y), (-1, 1));
    assert_eq!(input.last_valid_direction, Direction::NorthWest);
    assert_eq!(input.jump, KeyState::Press);
    assert_eq!(input.interact, KeyState::Hold);
    assert!(input.moving());
    // opposite keys cancel and the last direction is kept
    let keys = MovementKeys { up: true, down: true, left: true, right: true };
    get_user_input(&mut input, keys, KeyState::Off, KeyState::Off, KeyState::Off);
    assert_eq!((input.raw_x, input.raw_y), (0, 0));
    assert!(!input.moving());
    assert_eq!(input.last_valid_direction, Direction::NorthWest);
}

#[test]
fn asset_tracker_drops_loaded_assets() {
    let mut tracker: AssetTracker<&str> = AssetTracker::new();
    tracker.push("map");
    tracker.push("player");
    tracker.push("enemy");
    assert!(!tracker.is_ready(&vec![true, false, true]));
    assert_eq!(tracker.assets(), &vec!["player"]);
    assert!(!tracker.is_ready(&vec![true]));
    assert!(tracker.assets().is_empty());
}

#[test]
fn asset_tracker_ready_on_fourth_empty_frame() {
    let mut tracker: AssetTracker<u32> = AssetTracker::new();
    let none: Vec<bool> = Vec::new();
    assert!(!tracker.is_ready(&none));
    assert!(!tracker.is_ready(&none));
    assert!(!tracker.is_ready(&none));
    assert!(tracker.is_ready(&none));
    // counting starts over
    assert!(!tracker.is_ready(&none));
    assert!(!tracker.is_ready(&none));
    assert!(!tracker.is_ready(&none));
    assert!(tracker.is_ready(&none));
}

#[test]
fn asset_tracker_pending_resets_count() {
    let mut tracker: AssetTracker<u32> = AssetTracker::new();
    let none: Vec<bool> = Vec::new();
    assert!(!tracker.is_ready(&none));
    assert!(!tracker.is_ready(&none));
    assert!(!tracker.is_ready(&none));
    tracker.push(7);
    assert!(!tracker.is_ready(&vec![true]));
    assert!(!tracker.is_ready(&none));
    assert!(!tracker.is_ready(&none));
    assert!(!tracker.is_ready(&none));
    assert!(tracker.is_ready(&none));
}
