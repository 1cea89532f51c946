use monkebucko::animation::{FrameRate, SpriteAnimation};
use monkebucko::game::bones::{
    conclude_bones, progress_bones, ucko_runs, ucko_update, update_enemy_animation,
    update_player_animation, update_player_state, BonesHealth, BonesState, PlayerState,
    UckoEffect, UckoEvent, UckoState,
};
use monkebucko::game::egg::cracking::{
    advance_crack_phase, fast_punch, gun_part_animation, initial_crack, intro_volume, play_sfx,
    punch, quad_punch, update_crack, violence_gun_part, violence_slide, CrackHealth, CrackSound, CrackingAnimationId,
    CrackingPhase, Slide,
};
use monkebucko::game::egg::stars::generate_star;
use monkebucko::game::topdown::{
    get_tile_pos, player_hop, player_swim, update_player_animations, update_player_hop,
    wait_for_ready, HopState, TopDownState, TopdownMapIndex,
};
use monkebucko::game::{Direction, GameState, KeyState};
use monkebucko::progress::{Progress, ProgressFlag};

#[test]
fn crack_damage_levels() {
    let levels: Vec<usize> = [255u8, 254, 192, 191, 128, 127, 64, 63, 1, 0]
        .iter()
        .map(|h| CrackHealth(*h).damage_level())
        .collect();
    assert_eq!(levels, vec![0, 1, 1, 2, 2, 3, 3, 4, 4, 5]);
}

#[test]
fn crack_takes_hits() {
    let mut crack = CrackHealth(200);
    let u = crack.take_hits(8);
    assert_eq!(crack.0, 192);
    assert_eq!(u.new_material, None);
    assert!(!u.crack_open);
    let u = crack.take_hits(1);
    assert_eq!(crack.0, 191);
    assert_eq!(u.new_material, Some(2));
    let u = crack.take_hits(500);
    assert_eq!(crack.0, 0);
    assert_eq!(u.new_material, Some(5));
    assert!(u.crack_open);
    // hit counts are taken modulo 256
    let mut crack = CrackHealth(10);
    crack.take_hits(257);
    assert_eq!(crack.0, 9);
}

#[test]
fn crack_open_marks_progress() {
    let mut progress = Progress::new();
    let mut crack = CrackHealth(3);
    assert_eq!(update_crack(&mut crack, 2, &mut progress), None);
    assert!(!progress.contains(&ProgressFlag::CrackOpen));
    assert_eq!(update_crack(&mut crack, 2, &mut progress), Some(5));
    assert!(progress.contains(&ProgressFlag::CrackOpen));
}

#[test]
fn initial_crack_depends_on_progress() {
    let mut progress = Progress::new();
    assert_eq!(initial_crack(&progress), (CrackHealth(200), 0, 8));
    progress.insert(ProgressFlag::CrackOpen);
    assert_eq!(initial_crack(&progress), (CrackHealth(0), 5, 2));
}

#[test]
fn cracking_phases_advance() {
    let a = advance_crack_phase(CrackingPhase::Punch);
    assert_eq!(a.next, Some(CrackingPhase::FastPunch));
    assert!(!a.upper_punches_in);
    let a = advance_crack_phase(CrackingPhase::FastPunch);
    assert_eq!(a.next, Some(CrackingPhase::QuadPunch));
    assert!(a.upper_punches_in);
    assert_eq!(advance_crack_phase(CrackingPhase::QuadPunch).next, Some(CrackingPhase::Violence));
    assert_eq!(advance_crack_phase(CrackingPhase::Violence).next, None);
    assert_eq!(advance_crack_phase(CrackingPhase::Easing).next, None);
}

#[test]
fn punch_sounds_cycle() {
    let mut cursor = 0usize;
    let sounds: Vec<Option<CrackSound>> = (0..5).map(|_| play_sfx(CrackingPhase::Punch, &mut cursor)).collect();
    assert_eq!(
        sounds,
        vec![
            Some(CrackSound::Punch(0)),
            Some(CrackSound::Punch(1)),
            Some(CrackSound::Punch(2)),
            Some(CrackSound::Punch(3)),
            Some(CrackSound::Punch(0)),
        ]
    );
    assert_eq!(play_sfx(CrackingPhase::Violence, &mut cursor), Some(CrackSound::Violence));
    assert_eq!(play_sfx(CrackingPhase::FastPunch, &mut cursor), Some(CrackSound::FastPunch));
    assert_eq!(play_sfx(CrackingPhase::QuadPunch, &mut cursor), Some(CrackSound::QuadPunch));
    assert_eq!(play_sfx(CrackingPhase::Fading, &mut cursor), None);
    assert_eq!(cursor, 1);
}

#[test]
fn fists_alternate() {
    let mut right_left = false;
    assert_eq!(punch(&mut right_left, KeyState::Press), Some((0, SpriteAnimation::set_frame(1))));
    assert_eq!(punch(&mut right_left, KeyState::Release), Some((0, SpriteAnimation::set_frame(0))));
    assert!(right_left);
    assert_eq!(punch(&mut right_left, KeyState::Press), Some((1, SpriteAnimation::set_frame(1))));
    assert_eq!(punch(&mut right_left, KeyState::Hold), None);
}

#[test]
fn fast_punch_lags_one_fist() {
    let mut right_left = true;
    let (a, b) = fast_punch(&mut right_left, KeyState::Press).unwrap();
    assert!(a.delayed && !b.delayed);
    assert_eq!(a.animation, SpriteAnimation::new(0, 1, 12).looping());
    let (a, b) = fast_punch(&mut right_left, KeyState::Release).unwrap();
    assert_eq!(a.animation, SpriteAnimation::set_frame(0));
    assert_eq!(b.animation, SpriteAnimation::set_frame(0));
    assert!(right_left);
    assert!(fast_punch(&mut right_left, KeyState::Off).is_none());
}

#[test]
fn quad_punch_and_guns() {
    assert_eq!(quad_punch(KeyState::Press), Some(SpriteAnimation::new(0, 1, 16).looping()));
    assert_eq!(quad_punch(KeyState::Release), Some(SpriteAnimation::set_frame(0)));
    assert_eq!(quad_punch(KeyState::Hold), None);
    let g = gun_part_animation(1);
    assert_eq!((g.first_index, g.last_index, g.frame_rate, g.looping), (0, 14, FrameRate::PerSecond(24), true));
    let g = gun_part_animation(0);
    assert_eq!((g.last_index, g.frame_rate), (3, FrameRate::PerSecond(60)));
    assert_eq!(violence_slide(CrackingAnimationId::Guns, KeyState::Press), Some(Slide::In));
    assert_eq!(violence_slide(CrackingAnimationId::PunchLower, KeyState::Press), Some(Slide::Out));
    assert_eq!(violence_slide(CrackingAnimationId::PunchUpper, KeyState::Release), Some(Slide::In));
    assert_eq!(violence_slide(CrackingAnimationId::Guns, KeyState::Off), None);
}

#[test]
fn gun_parts_fire_and_drop() {
    for part in 0..4 {
        assert_eq!(violence_gun_part(part, KeyState::Press), Some(gun_part_animation(part)));
        assert_eq!(violence_gun_part(part, KeyState::Release), Some(SpriteAnimation::set_frame(0)));
        assert_eq!(violence_gun_part(part, KeyState::Hold), None);
    }
    let g = violence_gun_part(3, KeyState::Press).unwrap();
    assert_eq!((g.last_index, g.frame_rate, g.looping), (3, FrameRate::PerSecond(12), true));
}

#[test]
fn intro_music_grows_louder() {
    let mut last = 0usize;
    assert_eq!(intro_volume(&mut last, CrackHealth(255)), None);
    assert_eq!(intro_volume(&mut last, CrackHealth(200)), Some(2));
    assert_eq!(intro_volume(&mut last, CrackHealth(199)), None);
    assert_eq!(intro_volume(&mut last, CrackHealth(0)), Some(6));
}

#[test]
fn stars() {
    let s = generate_star(0, 7);
    assert!(s.is_static && s.random_height);
    assert_eq!(s.luminance_level, 3);
    let s = generate_star(800, 8);
    assert!(!s.is_static && s.random_height);
    assert_eq!(s.luminance_level, 0);
    let s = generate_star(1024, u32::MAX);
    assert!(!s.is_static && !s.random_height);
    assert_eq!(s.luminance_level, 3);
}

#[test]
fn player_health_and_speed() {
    let mut h = BonesHealth::full();
    assert_eq!(h.0, 8);
    assert_eq!(h.max_run_speed(), 48);
    h.player_damage();
    assert_eq!(h.0, 7);
    let mut z = BonesHealth(0);
    z.player_damage();
    assert_eq!(z.0, 0);
    assert_eq!(z.max_run_speed(), 32);
}

#[test]
fn player_state_and_animation() {
    assert_eq!(update_player_state(false, true), PlayerState::Jump);
    assert_eq!(update_player_state(true, true), PlayerState::Run);
    assert_eq!(update_player_state(true, false), PlayerState::Still);
    let run = update_player_animation(BonesHealth(8), PlayerState::Run, 2);
    assert_eq!((run.first_index, run.last_index, run.frame_rate, run.looping), (0, 7, FrameRate::PerSecond(8), true));
    let run = update_player_animation(BonesHealth(6), PlayerState::Run, 0);
    assert_eq!((run.first_index, run.last_index), (16, 23));
    assert_eq!(update_player_animation(BonesHealth(5), PlayerState::Jump, 0), SpriteAnimation::set_frame(24));
    assert_eq!(update_player_animation(BonesHealth(0), PlayerState::Jump, 0), SpriteAnimation::set_frame(48));
    assert_eq!(update_player_animation(BonesHealth(1), PlayerState::Still, 0), SpriteAnimation::set_frame(62));
    assert_eq!(update_player_animation(BonesHealth(8), PlayerState::Still, 0), SpriteAnimation::set_frame(56));
}

#[test]
fn ucko_state_machine() {
    let mut s = UckoState::Chase;
    assert_eq!(ucko_update(&mut s, UckoEvent::FarBehind), UckoEffect::Nothing);
    assert_eq!(s, UckoState::Sprint);
    assert_eq!(ucko_update(&mut s, UckoEvent::CaughtUp), UckoEffect::NewStopOffset);
    assert_eq!(s, UckoState::Chase);
    assert_eq!(ucko_update(&mut s, UckoEvent::PlayerAhead), UckoEffect::DiveImpulse);
    assert_eq!(s, UckoState::Dive);
    assert_eq!(ucko_update(&mut s, UckoEvent::WallAhead), UckoEffect::Nothing);
    assert_eq!(s, UckoState::Dive);
    assert_eq!(ucko_update(&mut s, UckoEvent::Landed), UckoEffect::Stop);
    assert_eq!(s, UckoState::Recover);
    assert_eq!(ucko_update(&mut s, UckoEvent::Recovered), UckoEffect::ResetRecovery);
    assert_eq!(s, UckoState::Chase);
    assert_eq!(ucko_update(&mut s, UckoEvent::WallAhead), UckoEffect::JumpImpulse);
    assert_eq!(s, UckoState::Jump);
    assert_eq!(ucko_update(&mut s, UckoEvent::Landed), UckoEffect::Nothing);
    assert_eq!(s, UckoState::Chase);
    assert!(ucko_runs(UckoState::Sprint));
    assert!(!ucko_runs(UckoState::Recover));
    assert_eq!(update_enemy_animation(UckoState::Sprint), SpriteAnimation::new(0, 7, 16).looping());
    assert_eq!(update_enemy_animation(UckoState::Dive), SpriteAnimation::set_frame(0));
}

#[test]
fn chase_ends_on_timer() {
    assert_eq!(progress_bones(false), None);
    assert_eq!(progress_bones(true), Some(BonesState::Ending));
    assert_eq!(conclude_bones(), GameState::TopDown);
}

#[test]
fn hop_cycle_reaches_idle() {
    let mut h = HopState::Ready;
    let mut seen = Vec::new();
    for _ in 0..6 {
        h.cycle_state();
        seen.push(h);
    }
    assert_eq!(
        seen,
        vec![HopState::Charging, HopState::Airborne, HopState::Landing, HopState::Landed, HopState::Idle, HopState::Idle]
    );
}

#[test]
fn hop_starts_and_is_cut_by_water() {
    let mut h = HopState::Idle;
    assert!(!player_hop(&mut h, false));
    assert!(player_hop(&mut h, true));
    assert_eq!(h, HopState::Ready);
    assert!(!player_hop(&mut h, true));
    assert!(!update_player_animations(&mut h, false));
    assert_eq!(h, HopState::Charging);
    assert!(update_player_animations(&mut h, true));
    assert_eq!(h, HopState::Idle);
}

#[test]
fn hop_frames_follow_direction() {
    let mut offset = 0usize;
    let r = update_player_hop(HopState::Ready, Direction::SouthWest, &mut offset).unwrap();
    assert_eq!(offset, 8);
    assert_eq!(r.animation, SpriteAnimation::set_frame(8));
    let r = update_player_hop(HopState::Airborne, Direction::North, &mut offset).unwrap();
    assert!(r.impulse);
    assert_eq!(r.animation, SpriteAnimation::new(11, 13, 12));
    let r = update_player_hop(HopState::Ready, Direction::North, &mut offset).unwrap();
    assert_eq!(offset, 8);
    assert!(!r.impulse);
    update_player_hop(HopState::Ready, Direction::East, &mut offset);
    assert_eq!(offset, 0);
    assert_eq!(update_player_hop(HopState::Charging, Direction::East, &mut offset).unwrap().animation, SpriteAnimation::new(1, 2, 12));
    assert_eq!(update_player_hop(HopState::Landing, Direction::East, &mut offset).unwrap().animation, SpriteAnimation::new(6, 7, 12));
    assert!(update_player_hop(HopState::Idle, Direction::East, &mut offset).is_none());
}

#[test]
fn swim_animation_follows_side() {
    let mut offset = 0usize;
    assert_eq!(player_swim(&mut offset, Direction::North, true), Some(SpriteAnimation::new(16, 19, 8).looping()));
    assert_eq!(offset, 16);
    assert_eq!(player_swim(&mut offset, Direction::NorthEast, false), None);
    assert_eq!(player_swim(&mut offset, Direction::West, false), Some(SpriteAnimation::new(20, 23, 8).looping()));
    assert_eq!(offset, 20);
    assert_eq!(player_swim(&mut offset, Direction::South, false), None);
}

#[test]
fn tile_positions_within_map() {
    assert_eq!(get_tile_pos(3, 4, 10, 10), Some((3, 4)));
    assert_eq!(get_tile_pos(10, 4, 10, 10), None);
    assert_eq!(get_tile_pos(3, 10, 10, 10), None);
    assert_eq!(get_tile_pos(0, 0, 0, 5), None);
}

#[test]
fn topdown_ready_and_maps() {
    assert_eq!(wait_for_ready(false), None);
    assert_eq!(wait_for_ready(true), Some(TopDownState::Ready));
    assert_eq!(TopdownMapIndex::Beach.index(), 6);
    assert_eq!(TopdownMapIndex::default_map(), TopdownMapIndex::Mountain);
}
