use vstd::prelude::*;

use crate::animation::{SpriteAnimation, animation_spec, frame_spec, looped};
use crate::game::GameState;

verus! {

/// The phases of the chase scene.
#[derive(Debug, Clone, Copy, PartialEq, Eq, Hash, Structural)]
pub enum BonesState {
    Loading,
    Playing,
    Ending,
}

/// Health the player starts the chase with.
pub const PLAYER_MAX_HEALTH: u8 = 8;

/// The player's health during the chase.
#[derive(Debug, Clone, Copy, PartialEq, Eq, Structural)]
pub struct BonesHealth(pub u8);

impl BonesHealth {
    /// Full health.
    pub fn full() -> (h: BonesHealth)
        ensures
            h.0 == PLAYER_MAX_HEALTH,
    {
        BonesHealth(PLAYER_MAX_HEALTH)
    }

    /// A hit by a damaging collider costs one point of health, down to zero.
    pub fn player_damage(&mut self)
        ensures
            final(self).0 == (if old(self).0 > 0 { old(self).0 - 1 } else { 0 }),
    {
        self.0 = if self.0 > 0 { self.0 - 1 } else { 0 };
    }

    /// The fastest the player may run, in pixels per second: two per point of health on
    /// top of thirty-two.
    pub fn max_run_speed(&self) -> (v: u32)
        ensures
            v == 2 * self.0 + 32,
    {
        2 * (self.0 as u32) + 32
    }
}

/// What the player is doing during the chase.
#[derive(Debug, Clone, Copy, PartialEq, Eq, Structural)]
pub enum PlayerState {
    Run,
    Still,
    Jump,
}

/// The player runs when on the ground and faster than the run threshold, stands still
/// when on the ground and slower, and jumps when in the air.
pub fn update_player_state(grounded: bool, above_run_threshold: bool) -> (s: PlayerState)
    ensures
        s == (if !grounded { PlayerState::Jump } else if above_run_threshold { PlayerState::Run } else { PlayerState::Still }),
{
    if grounded {
        if above_run_threshold {
            PlayerState::Run
        } else {
            PlayerState::Still
        }
    } else {
        PlayerState::Jump
    }
}

/// Rows of the player's sprite sheet, one per stage of injury.
pub const ANIMATION_ROWS: u8 = 7;
/// Frames per row of the player's sprite sheet.
pub const SPRITES_PER_ROW: usize = 8;
/// First frame of the standing-still poses.
pub const STILLS_INDEX: usize = 56;
/// Frames per second of the run at a standstill.
pub const MIN_FPS: u8 = 6;

/// The sprite-sheet row for a health: one row further per point lost, up to the last row.
pub open spec fn injury_row(health: u8) -> nat {
    let lost = PLAYER_MAX_HEALTH - health;
    if lost < ANIMATION_ROWS - 1 { lost as nat } else { (ANIMATION_ROWS - 1) as nat }
}

/// The player's animation for a health and a state. Running loops through the row of the
/// injury stage, faster by `speed_boost` frames per second; jumping shows the row's first
/// frame; standing shows the still pose of the stage.
pub fn update_player_animation(health: BonesHealth, state: PlayerState, speed_boost: u8) -> (a: SpriteAnimation)
    requires
        health.0 <= PLAYER_MAX_HEALTH,
        MIN_FPS + speed_boost <= 255,
    ensures
        state == PlayerState::Run ==> a == looped(animation_spec(
            (SPRITES_PER_ROW * injury_row(health.0)) as usize,
            (SPRITES_PER_ROW * injury_row(health.0) + 7) as usize,
            (MIN_FPS + speed_boost) as u8,
        )),
        state == PlayerState::Jump ==> a == frame_spec((SPRITES_PER_ROW * injury_row(health.0)) as usize),
        state == PlayerState::Still ==> a == frame_spec((STILLS_INDEX + injury_row(health.0)) as usize),
{
    let lost = PLAYER_MAX_HEALTH - health.0;
    let row: usize = if lost < ANIMATION_ROWS - 1 { lost as usize } else { (ANIMATION_ROWS - 1) as usize };
    let index = SPRITES_PER_ROW * row;
    match state {
        PlayerState::Run => {
            let mut a = SpriteAnimation::new(index, index + 7, 12).looping();
            a.change_fps(MIN_FPS + speed_boost);
            a
        },
        PlayerState::Jump => SpriteAnimation::set_frame(index),
        PlayerState::Still => SpriteAnimation::set_frame(STILLS_INDEX + row),
    }
}

/// The player's animations stay within the sprite sheet of 64 frames.
pub proof fn lemma_player_frames_in_sheet(health: u8)
    requires
        health <= PLAYER_MAX_HEALTH,
    ensures
        SPRITES_PER_ROW * injury_row(health) + 7 < 64,
        STILLS_INDEX + injury_row(health) < 64,
{
}

/// What an ucko (an enemy of the chase) is doing.
#[derive(Debug, Clone, Copy, PartialEq, Eq, Structural)]
pub enum UckoState {
    Chase,
    Sprint,
    Jump,
    Dive,
    Recover,
}

/// What an ucko notices.
#[derive(Debug, Clone, Copy, PartialEq, Eq, Structural)]
pub enum UckoEvent {
    /// It fell too far behind the camera.
    FarBehind,
    /// It caught up with the camera.
    CaughtUp,
    /// A wall of the map is right ahead.
    WallAhead,
    /// The player is right ahead.
    PlayerAhead,
    /// It touched the ground again.
    Landed,
    /// Its recovery time ran out.
    Recovered,
}

/// How an ucko's state changes on an event; events that do not apply leave it as it is.
pub open spec fn ucko_next(state: UckoState, event: UckoEvent) -> UckoState {
    match (state, event) {
        (UckoState::Chase, UckoEvent::FarBehind) => UckoState::Sprint,
        (UckoState::Sprint, UckoEvent::CaughtUp) => UckoState::Chase,
        (UckoState::Chase, UckoEvent::WallAhead) => UckoState::Jump,
        (UckoState::Sprint, UckoEvent::WallAhead) => UckoState::Jump,
        (UckoState::Chase, UckoEvent::PlayerAhead) => UckoState::Dive,
        (UckoState::Sprint, UckoEvent::PlayerAhead) => UckoState::Dive,
        (UckoState::Dive, UckoEvent::Landed) => UckoState::Recover,
        (UckoState::Jump, UckoEvent::Landed) => UckoState::Chase,
        (UckoState::Recover, UckoEvent::Recovered) => UckoState::Chase,
        _ => state,
    }
}

/// What an ucko does on the change of state.
#[derive(Debug, Clone, Copy, PartialEq, Eq, Structural)]
pub enum UckoEffect {
    /// Nothing besides the change of state.
    Nothing,
    /// Its velocity is set to the jump impulse.
    JumpImpulse,
    /// The dive impulse is added to its velocity.
    DiveImpulse,
    /// It stops.
    Stop,
    /// A new random stopping offset is drawn.
    NewStopOffset,
    /// Its recovery timer starts over.
    ResetRecovery,
}

/// The effect of an event on an ucko.
pub open spec fn ucko_effect(state: UckoState, event: UckoEvent) -> UckoEffect {
    match (state, event) {
        (UckoState::Sprint, UckoEvent::CaughtUp) => UckoEffect::NewStopOffset,
        (UckoState::Chase, UckoEvent::WallAhead) => UckoEffect::JumpImpulse,
        (UckoState::Sprint, UckoEvent::WallAhead) => UckoEffect::JumpImpulse,
        (UckoState::Chase, UckoEvent::PlayerAhead) => UckoEffect::DiveImpulse,
        (UckoState::Sprint, UckoEvent::PlayerAhead) => UckoEffect::DiveImpulse,
        (UckoState::Dive, UckoEvent::Landed) => UckoEffect::Stop,
        (UckoState::Recover, UckoEvent::Recovered) => UckoEffect::ResetRecovery,
        _ => UckoEffect::Nothing,
    }
}

/// Updates an ucko on an event and answers what else it does.
pub fn ucko_update(state: &mut UckoState, event: UckoEvent) -> (effect: UckoEffect)
    ensures
        *final(state) == ucko_next(*old(state), event),
        effect == ucko_effect(*old(state), event),
{
    let (next, effect) = match (*state, event) {
        (UckoState::Chase, UckoEvent::FarBehind) => (UckoState::Sprint, UckoEffect::Nothing),
        (UckoState::Sprint, UckoEvent::CaughtUp) => (UckoState::Chase, UckoEffect::NewStopOffset),
        (UckoState::Chase, UckoEvent::WallAhead) => (UckoState::Jump, UckoEffect::JumpImpulse),
        (UckoState::Sprint, UckoEvent::WallAhead) => (UckoState::Jump, UckoEffect::JumpImpulse),
        (UckoState::Chase, UckoEvent::PlayerAhead) => (UckoState::Dive, UckoEffect::DiveImpulse),
        (UckoState::Sprint, UckoEvent::PlayerAhead) => (UckoState::Dive, UckoEffect::DiveImpulse),
        (UckoState::Dive, UckoEvent::Landed) => (UckoState::Recover, UckoEffect::Stop),
        (UckoState::Jump, UckoEvent::Landed) => (UckoState::Chase, UckoEffect::Nothing),
        (UckoState::Recover, UckoEvent::Recovered) => (UckoState::Chase, UckoEffect::ResetRecovery),
        (s, _) => (s, UckoEffect::Nothing),
    };
    *state = next;
    effect
}

/// Whether an ucko on the ground runs after the player (and may fire, when chasing).
pub fn ucko_runs(state: UckoState) -> (r: bool)
    ensures
        r == (state == UckoState::Chase || state == UckoState::Sprint),
{
    match state {
        UckoState::Chase | UckoState::Sprint => true,
        _ => false,
    }
}

/// An ucko's animation after a change of state: crawling when chasing, faster when
/// sprinting, a still frame otherwise.
pub fn update_enemy_animation(state: UckoState) -> (a: SpriteAnimation)
    ensures
        a == match state {
            UckoState::Chase => looped(animation_spec(0, 7, 12)),
            UckoState::Sprint => looped(animation_spec(0, 7, 16)),
            _ => frame_spec(0),
        },
{
    match state {
        UckoState::Chase => SpriteAnimation::new(0, 7, 12).looping(),
        UckoState::Sprint => SpriteAnimation::new(0, 7, 16).looping(),
        _ => SpriteAnimation::set_frame(0),
    }
}

/// An ucko only recovers after a dive, only jumps or dives while running, and from every
/// state some event brings it back to the chase within two steps.
pub proof fn lemma_ucko_behaviour(state: UckoState, event: UckoEvent)
    ensures
        ucko_next(state, event) == UckoState::Recover ==> state == UckoState::Recover || state == UckoState::Dive,
        (ucko_next(state, event) == UckoState::Jump || ucko_next(state, event) == UckoState::Dive) && ucko_next(state, event) != state
            ==> state == UckoState::Chase || state == UckoState::Sprint,
        state == UckoState::Sprint ==> ucko_next(state, UckoEvent::CaughtUp) == UckoState::Chase,
        state == UckoState::Jump ==> ucko_next(state, UckoEvent::Landed) == UckoState::Chase,
        state == UckoState::Recover ==> ucko_next(state, UckoEvent::Recovered) == UckoState::Chase,
        state == UckoState::Dive ==> ucko_next(ucko_next(state, UckoEvent::Landed), UckoEvent::Recovered) == UckoState::Chase,
{
}

/// The chase ends when its timer runs out; afterwards the game goes to the top-down scene.
pub fn progress_bones(timer_just_finished: bool) -> (next: Option<BonesState>)
    ensures
        next == (if timer_just_finished { Some(BonesState::Ending) } else { None }),
{
    if timer_just_finished {
        Some(BonesState::Ending)
    } else {
        None
    }
}

/// The scene that follows the chase.
pub fn conclude_bones() -> (g: GameState)
    ensures
        g == GameState::TopDown,
{
    GameState::TopDown
}


/// A running ucko (chasing or sprinting) that meets a wall jumps with the jump impulse, and
/// one that meets the player dives with the dive impulse, whichever way it was running; a
/// ucko in the air or recovering does neither.
pub proof fn lemma_running_ucko_jumps_and_dives(state: UckoState)
    ensures
        (state == UckoState::Chase || state == UckoState::Sprint) ==> {
            &&& ucko_next(state, UckoEvent::WallAhead) == UckoState::Jump
            &&& ucko_effect(state, UckoEvent::WallAhead) == UckoEffect::JumpImpulse
            &&& ucko_next(state, UckoEvent::PlayerAhead) == UckoState::Dive
            &&& ucko_effect(state, UckoEvent::PlayerAhead) == UckoEffect::DiveImpulse
        },
        !(state == UckoState::Chase || state == UckoState::Sprint) ==> {
            &&& ucko_next(state, UckoEvent::WallAhead) == state
            &&& ucko_effect(state, UckoEvent::WallAhead) == UckoEffect::Nothing
            &&& ucko_next(state, UckoEvent::PlayerAhead) == state
            &&& ucko_effect(state, UckoEvent::PlayerAhead) == UckoEffect::Nothing
        },
{
}


/// Falling too far behind makes a chasing ucko sprint, and catching up makes a sprinting one
/// chase again with a new stopping offset; landing ends a jump in the chase and a dive in
/// a stop and recovery, and recovering sends it back to the chase with its timer restarted.
pub proof fn lemma_ucko_transitions()
    ensures
        ucko_next(UckoState::Chase, UckoEvent::FarBehind) == UckoState::Sprint,
        ucko_effect(UckoState::Chase, UckoEvent::FarBehind) == UckoEffect::Nothing,
        ucko_next(UckoState::Sprint, UckoEvent::CaughtUp) == UckoState::Chase,
        ucko_effect(UckoState::Sprint, UckoEvent::CaughtUp) == UckoEffect::NewStopOffset,
        ucko_next(UckoState::Jump, UckoEvent::Landed) == UckoState::Chase,
        ucko_effect(UckoState::Jump, UckoEvent::Landed) == UckoEffect::Nothing,
        ucko_next(UckoState::Dive, UckoEvent::Landed) == UckoState::Recover,
        ucko_effect(UckoState::Dive, UckoEvent::Landed) == UckoEffect::Stop,
        ucko_next(UckoState::Recover, UckoEvent::Recovered) == UckoState::Chase,
        ucko_effect(UckoState::Recover, UckoEvent::Recovered) == UckoEffect::ResetRecovery,
{
}

} // verus!
