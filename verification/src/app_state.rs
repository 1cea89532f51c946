use vstd::prelude::*;

verus! {

/// The top-level state of the application.
#[derive(Debug, Clone, Copy, PartialEq, Eq, Hash, Structural)]
pub enum AppState {
    Splash,
    Menu,
    Game { paused: bool, can_move: bool },
}

impl AppState {
    /// The state the application starts in.
    pub fn initial() -> (s: AppState)
        ensures
            s == AppState::Splash,
    {
        AppState::Splash
    }
}

/// Whether a state belongs to the running game (the computed `InGame` state).
pub open spec fn is_in_game(s: AppState) -> bool {
    s is Game
}

/// Whether the player may move: the game runs, is not paused, and movement is allowed.
pub open spec fn is_movement_enabled(s: AppState) -> bool {
    match s {
        AppState::Game { paused, can_move } => !paused && can_move,
        _ => false,
    }
}

/// The computed `InGame` state: present exactly while the application is in a game.
pub fn in_game(s: AppState) -> (r: bool)
    ensures
        r == is_in_game(s),
{
    match s {
        AppState::Game { .. } => true,
        _ => false,
    }
}

/// The computed `MovementEnabled` state: present exactly while the game runs unpaused
/// with movement allowed.
pub fn movement_enabled(s: AppState) -> (r: bool)
    ensures
        r == is_movement_enabled(s),
{
    match s {
        AppState::Game { paused: false, can_move: true } => true,
        _ => false,
    }
}

/// The state requested when movement is turned on (spec form).
pub open spec fn movement_on(current: AppState) -> Option<AppState> {
    match current {
        AppState::Game { paused, .. } => Some(AppState::Game { paused, can_move: true }),
        _ => None,
    }
}

/// The state requested when movement is turned off (spec form).
pub open spec fn movement_off(current: AppState) -> Option<AppState> {
    match current {
        AppState::Game { paused, .. } => Some(AppState::Game { paused, can_move: false }),
        _ => None,
    }
}

/// The state requested when movement is turned on: in a game, the same pause flag with
/// movement allowed; outside a game, no change is requested.
pub fn enable_movement(current: AppState) -> (next: Option<AppState>)
    ensures
        next == movement_on(current),
{
    match current {
        AppState::Game { paused, .. } => Some(AppState::Game { paused, can_move: true }),
        _ => None,
    }
}

/// The state requested when movement is turned off: in a game, the same pause flag with
/// movement forbidden; outside a game, no change is requested.
pub fn disable_movement(current: AppState) -> (next: Option<AppState>)
    ensures
        next == movement_off(current),
{
    match current {
        AppState::Game { paused, .. } => Some(AppState::Game { paused, can_move: false }),
        _ => None,
    }
}

/// The state entered when the game starts from the menu: running, unpaused, with movement
/// not yet allowed.
pub fn start_game() -> (s: AppState)
    ensures
        s == (AppState::Game { paused: false, can_move: false }),
{
    AppState::Game { paused: false, can_move: false }
}

/// Turning movement off always leaves movement disabled, and turning it on in an unpaused
/// game enables it; neither changes whether the game is paused or left.
pub proof fn lemma_movement_toggles(s: AppState)
    ensures
        movement_on(s) matches Some(n) ==> is_in_game(n) && (is_movement_enabled(n)
            <==> !(s->paused)),
        movement_off(s) matches Some(n) ==> is_in_game(n) && !is_movement_enabled(n),
        (movement_on(s) is None) <==> !is_in_game(s),
        (movement_off(s) is None) <==> !is_in_game(s),
{
}

} // verus!
