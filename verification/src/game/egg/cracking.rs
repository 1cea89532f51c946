use vstd::prelude::*;

use crate::animation::{SpriteAnimation, frame_spec, animation_spec, looped};
use crate::game::KeyState;
use crate::progress::{Progress, ProgressFlag, ProgressView};

verus! {

/// The phases of cracking the egg open.
#[derive(Debug, Clone, Copy, PartialEq, Eq, Hash, Structural)]
pub enum CrackingPhase {
    Easing,
    Punch,
    FastPunch,
    QuadPunch,
    Violence,
    Fading,
}

/// The animated element groups of the cracking scene.
#[derive(Debug, Clone, Copy, PartialEq, Eq, Structural)]
pub enum CrackingAnimationId {
    PunchLower,
    PunchUpper,
    Guns,
}

/// The phase that the swap key leads to, if any.
pub open spec fn next_crack_phase(p: CrackingPhase) -> Option<CrackingPhase> {
    match p {
        CrackingPhase::Punch => Some(CrackingPhase::FastPunch),
        CrackingPhase::FastPunch => Some(CrackingPhase::QuadPunch),
        CrackingPhase::QuadPunch => Some(CrackingPhase::Violence),
        _ => None,
    }
}

/// What the swap key does during cracking.
#[derive(Debug, Clone, Copy, PartialEq, Eq, Structural)]
pub struct PhaseAdvance {
    /// The phase to enter, if any.
    pub next: Option<CrackingPhase>,
    /// Whether the upper fists slide in.
    pub upper_punches_in: bool,
}

/// Moves the cracking on by one phase: punch, fast punch, quad punch, violence. Entering
/// the quad punch brings in the upper fists. Other phases do not move on.
pub fn advance_crack_phase(phase: CrackingPhase) -> (a: PhaseAdvance)
    ensures
        a.next == next_crack_phase(phase),
        a.upper_punches_in == (phase == CrackingPhase::FastPunch),
{
    match phase {
        CrackingPhase::Punch => PhaseAdvance { next: Some(CrackingPhase::FastPunch), upper_punches_in: false },
        CrackingPhase::FastPunch => PhaseAdvance { next: Some(CrackingPhase::QuadPunch), upper_punches_in: true },
        CrackingPhase::QuadPunch => PhaseAdvance { next: Some(CrackingPhase::Violence), upper_punches_in: false },
        _ => PhaseAdvance { next: None, upper_punches_in: false },
    }
}

/// How far a phase is along the cracking.
pub open spec fn phase_rank(p: CrackingPhase) -> nat {
    match p {
        CrackingPhase::Easing => 0,
        CrackingPhase::Punch => 1,
        CrackingPhase::FastPunch => 2,
        CrackingPhase::QuadPunch => 3,
        CrackingPhase::Violence => 4,
        CrackingPhase::Fading => 5,
    }
}

/// The swap key only moves the cracking forward, one phase at a time, and never past the
/// violence phase.
pub proof fn lemma_phases_move_forward(p: CrackingPhase)
    ensures
        next_crack_phase(p) matches Some(n) ==> phase_rank(n) == phase_rank(p) + 1 && phase_rank(n) <= 4,
{
}

/// Health of a crack that has not been hit at all.
pub const CRACK_FULL_HEALTH: u8 = 255;
/// Health of a fresh crack in a new playthrough.
pub const CRACK_START_HEALTH: u8 = 200;
/// The damage level of a crack broken open.
pub const CRACK_OPEN_LEVEL: usize = 5;

/// How damaged a crack of the given health looks, from 0 (intact) to 5 (open).
pub open spec fn damage_level_of(health: u8) -> nat {
    if health == 255 {
        0
    } else if health >= 192 {
        1
    } else if health >= 128 {
        2
    } else if health >= 64 {
        3
    } else if health >= 1 {
        4
    } else {
        5
    }
}

/// The health of the crack in the egg.
#[derive(Debug, Clone, Copy, PartialEq, Eq, Structural)]
pub struct CrackHealth(pub u8);

/// What a batch of hits does to the crack.
#[derive(Debug, Clone, Copy, PartialEq, Eq, Structural)]
pub struct CrackUpdate {
    /// The crack material to switch to, when the damage level changed.
    pub new_material: Option<usize>,
    /// Whether the crack is open, which marks the milestone in the playthrough.
    pub crack_open: bool,
}

impl CrackHealth {
    /// How damaged the crack looks, from 0 (intact) to 5 (open); also the index of its
    /// material.
    pub fn damage_level(&self) -> (l: usize)
        ensures
            l == damage_level_of(self.0),
            l <= CRACK_OPEN_LEVEL,
    {
        if self.0 == 255 {
            0
        } else if self.0 >= 192 {
            1
        } else if self.0 >= 128 {
            2
        } else if self.0 >= 64 {
            3
        } else if self.0 >= 1 {
            4
        } else {
            5
        }
    }

    /// Takes the hits of finished punch animations: each hit costs one point of health
    /// (the count taken modulo 256), never going below zero. Reports the material to show
    /// when the damage level changed, and whether the crack is open.
    pub fn take_hits(&mut self, hits: usize) -> (u: CrackUpdate)
        ensures
            final(self).0 == (if (old(self).0 as int) >= (hits % 256) as int { old(self).0 - (hits % 256) as int } else { 0 }),
            u.new_material == (if damage_level_of(final(self).0) != damage_level_of(old(self).0) {
                Some(damage_level_of(final(self).0) as usize)
            } else {
                None
            }),
            u.crack_open == (final(self).0 == 0),
    {
        let old_level = self.damage_level();
        let damage: u8 = (hits % 256) as u8;
        self.0 = if self.0 >= damage { self.0 - damage } else { 0 };
        let new_level = self.damage_level();
        let new_material = if new_level != old_level { Some(new_level) } else { None };
        CrackUpdate { new_material, crack_open: new_level == CRACK_OPEN_LEVEL }
    }
}

/// Applies the hits of finished punch animations to the crack: answers the material to
/// switch to when the damage level changed, and marks the crack open in the playthrough
/// once its health is gone.
pub fn update_crack(crack: &mut CrackHealth, hits: usize, progress: &mut Progress) -> (new_material: Option<usize>)
    requires
        old(progress).wf(),
    ensures
        final(progress).wf(),
        final(crack).0 == (if (old(crack).0 as int) >= (hits % 256) as int { old(crack).0 - (hits % 256) as int } else { 0 }),
        new_material == (if damage_level_of(final(crack).0) != damage_level_of(old(crack).0) {
            Some(damage_level_of(final(crack).0) as usize)
        } else {
            None
        }),
        final(progress).view() == (if final(crack).0 == 0 {
            ProgressView { flags: old(progress).view().flags.insert(ProgressFlag::CrackOpen), ..old(progress).view() }
        } else {
            old(progress).view()
        }),
{
    let update = crack.take_hits(hits);
    if update.crack_open {
        let _ = progress.insert(ProgressFlag::CrackOpen);
    }
    update.new_material
}

/// The more a crack is hit, the more damaged it looks; it looks open exactly when its
/// health is gone.
pub proof fn lemma_damage_level_monotone(a: u8, b: u8)
    ensures
        a <= b ==> damage_level_of(a) >= damage_level_of(b),
        (damage_level_of(a) == 5) <==> a == 0,
        damage_level_of(a) <= 5,
{
}

/// Hits never heal a crack.
pub proof fn lemma_hits_never_heal(health: u8, hits: nat)
    ensures
        (if (health as int) >= (hits % 256) as int { health - (hits % 256) as int } else { 0 }) <= health,
{
}

/// Seconds before the crack of a fresh playthrough is revealed.
pub const REVEAL_SECS_FRESH: u32 = 8;
/// Seconds before the crack of a playthrough that already opened it is revealed.
pub const REVEAL_SECS_OPEN: u32 = 2;

/// The crack a scene starts with, the material it shows and the seconds before it is
/// revealed: open, with the last material, after two seconds once the playthrough cracked
/// it; otherwise at the start health with the first material, after eight seconds.
pub fn initial_crack(progress: &Progress) -> (r: (CrackHealth, usize, u32))
    ensures
        r == (if progress.view().flags.contains(ProgressFlag::CrackOpen) {
            (CrackHealth(0), CRACK_OPEN_LEVEL, REVEAL_SECS_OPEN)
        } else {
            (CrackHealth(CRACK_START_HEALTH), 0usize, REVEAL_SECS_FRESH)
        }),
{
    if progress.contains(&ProgressFlag::CrackOpen) {
        (CrackHealth(0), CRACK_OPEN_LEVEL, REVEAL_SECS_OPEN)
    } else {
        (CrackHealth(CRACK_START_HEALTH), 0, REVEAL_SECS_FRESH)
    }
}

/// Number of punch sounds cycled through in the punch phase.
pub const PUNCH_SOUNDS: usize = 4;

/// The sound started when the interact key goes down during cracking.
#[derive(Debug, Clone, Copy, PartialEq, Eq, Structural)]
pub enum CrackSound {
    /// The punch sound with this index, played once.
    Punch(usize),
    /// The fast punch loop.
    FastPunch,
    /// The quad punch loop.
    QuadPunch,
    /// The violence loop, with the violence music unmuted.
    Violence,
}

/// Picks the sound for a press in the given phase. The punch phase cycles through the
/// punch sounds in order.
pub fn play_sfx(phase: CrackingPhase, cursor: &mut usize) -> (s: Option<CrackSound>)
    requires
        *old(cursor) < PUNCH_SOUNDS,
    ensures
        *final(cursor) < PUNCH_SOUNDS,
        phase == CrackingPhase::Punch ==> s == Some(CrackSound::Punch(*old(cursor)))
            && *final(cursor) == (*old(cursor) + 1) % (PUNCH_SOUNDS as int),
        phase != CrackingPhase::Punch ==> *final(cursor) == *old(cursor),
        phase == CrackingPhase::FastPunch ==> s == Some(CrackSound::FastPunch),
        phase == CrackingPhase::QuadPunch ==> s == Some(CrackSound::QuadPunch),
        phase == CrackingPhase::Violence ==> s == Some(CrackSound::Violence),
        (phase == CrackingPhase::Easing || phase == CrackingPhase::Fading) ==> s is None,
{
    match phase {
        CrackingPhase::Punch => {
            let current = *cursor;
            *cursor = *cursor + 1;
            if *cursor == PUNCH_SOUNDS {
                *cursor = 0;
            }
            Some(CrackSound::Punch(current))
        },
        CrackingPhase::FastPunch => Some(CrackSound::FastPunch),
        CrackingPhase::QuadPunch => Some(CrackSound::QuadPunch),
        CrackingPhase::Violence => Some(CrackSound::Violence),
        _ => None,
    }
}

/// In the punch phase, the fists punch in turn: a press raises the current fist, a release
/// lowers it and hands over to the other one. Answers which fist changes and its new frame.
pub fn punch(right_left: &mut bool, interact: KeyState) -> (r: Option<(usize, SpriteAnimation)>)
    ensures
        interact == KeyState::Press ==> r == Some(((if *old(right_left) { 1usize } else { 0usize }), frame_spec(1)))
            && *final(right_left) == *old(right_left),
        interact == KeyState::Release ==> r == Some(((if *old(right_left) { 1usize } else { 0usize }), frame_spec(0)))
            && *final(right_left) == !*old(right_left),
        (interact == KeyState::Hold || interact == KeyState::Off) ==> r is None && *final(right_left) == *old(right_left),
{
    let fist: usize = if *right_left { 1 } else { 0 };
    match interact {
        KeyState::Press => Some((fist, SpriteAnimation::set_frame(1))),
        KeyState::Release => {
            *right_left = !*right_left;
            Some((fist, SpriteAnimation::set_frame(0)))
        },
        _ => None,
    }
}


/// What one fist does on a key change during fast punches.
#[derive(Debug, Clone, Copy, PartialEq, Eq, Structural)]
pub struct FistMove {
    pub animation: SpriteAnimation,
    /// Whether the fist starts one frame later than the other.
    pub delayed: bool,
}

/// In the fast punch phase both fists punch in a loop, one a frame behind the other; a
/// release lowers both. The fist that lags is chosen by `right_left`, which a release
/// flips once per fist and so leaves as it was.
pub fn fast_punch(right_left: &mut bool, interact: KeyState) -> (r: Option<(FistMove, FistMove)>)
    ensures
        *final(right_left) == *old(right_left),
        interact == KeyState::Press ==> r == Some((
            FistMove { animation: looped(animation_spec(0, 1, 12)), delayed: *old(right_left) },
            FistMove { animation: looped(animation_spec(0, 1, 12)), delayed: !*old(right_left) },
        )),
        interact == KeyState::Release ==> r == Some((
            FistMove { animation: frame_spec(0), delayed: false },
            FistMove { animation: frame_spec(0), delayed: false },
        )),
        (interact == KeyState::Hold || interact == KeyState::Off) ==> r is None,
{
    match interact {
        KeyState::Press => {
            let first = FistMove { animation: SpriteAnimation::new(0, 1, 12).looping(), delayed: *right_left };
            let second = FistMove { animation: SpriteAnimation::new(0, 1, 12).looping(), delayed: !*right_left };
            Some((first, second))
        },
        KeyState::Release => {
            *right_left = !*right_left;
            let first = FistMove { animation: SpriteAnimation::set_frame(0), delayed: false };
            *right_left = !*right_left;
            let second = FistMove { animation: SpriteAnimation::set_frame(0), delayed: false };
            Some((first, second))
        },
        _ => None,
    }
}

/// In the quad punch phase every fist punches in a loop on a press, each one a step later
/// than the one before it, and drops on a release. `Some` holds the new animation.
pub fn quad_punch(interact: KeyState) -> (r: Option<SpriteAnimation>)
    ensures
        interact == KeyState::Press ==> r == Some(looped(animation_spec(0, 1, 16))),
        interact == KeyState::Release ==> r == Some(frame_spec(0)),
        (interact == KeyState::Hold || interact == KeyState::Off) ==> r is None,
{
    match interact {
        KeyState::Press => Some(SpriteAnimation::new(0, 1, 16).looping()),
        KeyState::Release => Some(SpriteAnimation::set_frame(0)),
        _ => None,
    }
}

/// Number of animated parts of the guns.
pub const GUN_PARTS: usize = 4;

/// Frame count and frames per second of each part of the guns.
pub open spec fn gun_part_info(part: nat) -> (usize, u8) {
    if part == 0 {
        (4, 60)
    } else if part == 1 {
        (15, 24)
    } else if part == 2 {
        (4, 24)
    } else {
        (4, 12)
    }
}

/// The looping animation of a part of the guns while they fire.
pub fn gun_part_animation(part: usize) -> (a: SpriteAnimation)
    requires
        part < GUN_PARTS,
    ensures
        a == looped(animation_spec(0, (gun_part_info(part as nat).0 - 1) as usize, gun_part_info(part as nat).1)),
{
    let (len, fps): (usize, u8) = if part == 0 {
        (4, 60)
    } else if part == 1 {
        (15, 24)
    } else if part == 2 {
        (4, 24)
    } else {
        (4, 12)
    };
    SpriteAnimation::new(0, len - 1, fps).looping()
}

/// What a part of the guns shows on a key change in the violence phase: it fires (its
/// looping animation) on a press and goes back to its first frame on a release.
pub fn violence_gun_part(part: usize, interact: KeyState) -> (r: Option<SpriteAnimation>)
    requires
        part < GUN_PARTS,
    ensures
        interact == KeyState::Press ==> r == Some(looped(animation_spec(
            0,
            (gun_part_info(part as nat).0 - 1) as usize,
            gun_part_info(part as nat).1,
        ))),
        interact == KeyState::Release ==> r == Some(frame_spec(0)),
        (interact == KeyState::Hold || interact == KeyState::Off) ==> r is None,
{
    match interact {
        KeyState::Press => Some(gun_part_animation(part)),
        KeyState::Release => Some(SpriteAnimation::set_frame(0)),
        _ => None,
    }
}

/// Which way an element group slides.
#[derive(Debug, Clone, Copy, PartialEq, Eq, Structural)]
pub enum Slide {
    In,
    Out,
}

/// In the violence phase the guns slide in and fire while the key is down and slide out
/// when it is let go; the fists make way for them the other way round.
pub fn violence_slide(id: CrackingAnimationId, interact: KeyState) -> (r: Option<Slide>)
    ensures
        interact == KeyState::Press ==> r == Some(if id == CrackingAnimationId::Guns { Slide::In } else { Slide::Out }),
        interact == KeyState::Release ==> r == Some(if id == CrackingAnimationId::Guns { Slide::Out } else { Slide::In }),
        (interact == KeyState::Hold || interact == KeyState::Off) ==> r is None,
{
    match (id, interact) {
        (CrackingAnimationId::Guns, KeyState::Press) => Some(Slide::In),
        (CrackingAnimationId::Guns, KeyState::Release) => Some(Slide::Out),
        (_, KeyState::Press) => Some(Slide::Out),
        (_, KeyState::Release) => Some(Slide::In),
        _ => None,
    }
}

/// The intro music grows louder as the crack opens: when the damage level differs from the
/// one last heard, it is remembered and the new volume, in sixths of the music volume, is
/// answered.
pub fn intro_volume(last_level: &mut usize, health: CrackHealth) -> (sixths: Option<usize>)
    ensures
        damage_level_of(health.0) != *old(last_level) ==> sixths == Some((damage_level_of(health.0) + 1) as usize)
            && *final(last_level) == damage_level_of(health.0),
        damage_level_of(health.0) == *old(last_level) ==> sixths is None && *final(last_level) == *old(last_level),
{
    let level = health.damage_level();
    if *last_level != level {
        *last_level = level;
        Some(level + 1)
    } else {
        None
    }
}


/// The frames of each gun part's sprite sheet, in part order: the first part has 4, the
/// second 15, the third (the pistol) 4 and the last 4.
pub open spec fn gun_sheet_frames() -> Seq<usize> {
    seq![4usize, 15, 4, 4]
}

/// The frame rates the gun parts fire at, in part order.
pub open spec fn gun_frame_rates() -> Seq<u8> {
    seq![60u8, 24, 24, 12]
}

/// Every gun part fires over exactly the frames of its sprite sheet, from the first to the
/// last, at its own rate, looping; on a release it drops back to its first frame.
pub proof fn lemma_gun_parts_fit_their_sheets(part: usize)
    requires
        part < GUN_PARTS,
    ensures
        gun_part_info(part as nat).0 == gun_sheet_frames()[part as int],
        gun_part_info(part as nat).1 == gun_frame_rates()[part as int],
        gun_part_info(part as nat).0 >= 1,
{
}

} // verus!
