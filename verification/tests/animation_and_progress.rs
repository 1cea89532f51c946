use monkebucko::animation::{FrameRate, FrameStep, SpriteAnimation, SpriteAnimationFinished};
use monkebucko::game::topdown::TopdownMapIndex;
use monkebucko::menu::{
    navigation_action, setup_progress, time_played_text, update_button_color,
    update_radio_buttons, ButtonColor, ButtonInteraction, MenuState, Navigation,
    NavigationAction, RadioSelection, RadioSetting,
};
use monkebucko::progress::{
    has_progress_flag, save_progress_to_disk, Progress, ProgressFlag, ProgressStorage, SaveSlot,
    FIRST_SPAWN_X_BITS, FIRST_SPAWN_Y_BITS,
};

#[test]
fn new_animation_fields() {
    let a = SpriteAnimation::new(2, 5, 12);
    assert_eq!((a.first_index, a.last_index), (2, 5));
    assert_eq!(a.frame_rate, FrameRate::PerSecond(12));
    assert!(a.playing && !a.looping && !a.started);
    let f = SpriteAnimation::set_frame(7);
    assert_eq!((f.first_index, f.last_index, f.frame_rate), (7, 7, FrameRate::Instant));
    assert!(SpriteAnimation::new(0, 1, 1).looping().looping);
    assert!(!SpriteAnimation::new(0, 1, 1).paused().playing);
}

#[test]
fn play_pause_and_fps() {
    let mut a = SpriteAnimation::new(0, 3, 8).paused();
    a.play();
    assert!(a.playing);
    a.pause();
    assert!(!a.playing);
    a.change_fps(24);
    assert_eq!(a.frame_rate, FrameRate::PerSecond(24));
    assert_eq!((a.first_index, a.last_index), (0, 3));
}

#[test]
fn first_frame_set_once() {
    let mut a = SpriteAnimation::new(4, 6, 12);
    let mut index = 0usize;
    a.set_first_frame(&mut index);
    assert_eq!(index, 4);
    assert!(a.started);
    index = 5;
    a.set_first_frame(&mut index);
    assert_eq!(index, 5);
}

#[test]
fn looping_animation_cycles() {
    let a = SpriteAnimation::new(3, 5, 12).looping();
    let mut index = 3;
    let mut finished = 0;
    let mut seen = Vec::new();
    for _ in 0..6 {
        let step = a.advance_frame(index);
        index = step.index;
        if step.finished {
            finished += 1;
        }
        seen.push(index);
    }
    assert_eq!(seen, vec![4, 5, 3, 4, 5, 3]);
    assert_eq!(finished, 2);
}

#[test]
fn non_looping_animation_stops_at_last() {
    let a = SpriteAnimation::new(0, 2, 12);
    assert_eq!(a.advance_frame(0), FrameStep { index: 1, finished: false, reset_timer: true });
    assert_eq!(a.advance_frame(1), FrameStep { index: 2, finished: false, reset_timer: true });
    assert_eq!(a.advance_frame(2), FrameStep { index: 2, finished: true, reset_timer: false });
    assert_eq!(a.advance_frame(2), FrameStep { index: 2, finished: true, reset_timer: false });
    assert_eq!(a.advance_frame(9), FrameStep { index: 9, finished: false, reset_timer: false });
    assert_eq!(SpriteAnimationFinished(3u32), SpriteAnimationFinished(3u32));
}

#[test]
fn non_looping_animation_reports_end_once() {
    let a = SpriteAnimation::new(0, 2, 12);
    let (mut index, mut spent, mut reports) = (0usize, false, 0);
    for expires in [true, false, true, true, false, true, true, true] {
        if !spent && expires {
            let step = a.advance_frame(index);
            index = step.index;
            spent = !step.reset_timer;
            if step.finished {
                reports += 1;
            }
        }
    }
    assert_eq!((index, spent, reports), (2, true, 1));
}

#[test]
fn fresh_progress() {
    let p = Progress::new();
    assert_eq!(p.time_played_secs(), 0);
    assert_eq!(p.map, TopdownMapIndex::Mountain);
    assert_eq!(p.position_bits, (832.0f32.to_bits(), 1024.0f32.to_bits()));
    assert_eq!(p.position_bits, (FIRST_SPAWN_X_BITS, FIRST_SPAWN_Y_BITS));
    assert!(!has_progress_flag(&p, ProgressFlag::CrackOpen));
}

#[test]
fn flags_insert_once() {
    let mut p = Progress::new();
    assert!(p.insert(ProgressFlag::CrackOpen));
    assert!(!p.insert(ProgressFlag::CrackOpen));
    assert!(has_progress_flag(&p, ProgressFlag::CrackOpen));
    assert!(!p.contains(&ProgressFlag::Blank));
    assert_eq!(ProgressFlag::CrackOpen.hash_key(), 1);
    assert_eq!(ProgressFlag::Blank.hash_key(), 0);
}

#[test]
fn save_then_load_slot() {
    let mut storage = ProgressStorage::new();
    assert!(storage.get_slot(SaveSlot::SlotB).is_none());
    let mut p = Progress::new();
    p.time_played_secs = 90;
    p.insert(ProgressFlag::CrackOpen);
    save_progress_to_disk(SaveSlot::SlotB, &p, &mut storage);
    let loaded = storage.get_slot(SaveSlot::SlotB).expect("saved");
    assert_eq!(loaded.time_played_secs(), 90);
    assert!(loaded.contains(&ProgressFlag::CrackOpen));
    assert!(storage.get_slot(SaveSlot::SlotA).is_none());
    assert!(storage.get_slot(SaveSlot::SlotC).is_none());
    // a later save into the same slot replaces it
    let q = Progress::new();
    save_progress_to_disk(SaveSlot::SlotB, &q, &mut storage);
    assert!(!storage.get_slot(SaveSlot::SlotB).unwrap().contains(&ProgressFlag::CrackOpen));
}

#[test]
fn slot_names_and_order() {
    assert_eq!(SaveSlot::SlotA.to_display_string(), "SlotA");
    assert_eq!(SaveSlot::SlotC.to_display_string(), "SlotC");
    assert_eq!(SaveSlot::all(), vec![SaveSlot::SlotA, SaveSlot::SlotB, SaveSlot::SlotC]);
    assert_eq!(SaveSlot::SlotB.index(), 1);
}

#[test]
fn slot_progress_or_fresh() {
    let mut storage = ProgressStorage::new();
    let mut p = Progress::new();
    p.time_played_secs = 5;
    save_progress_to_disk(SaveSlot::SlotA, &p, &mut storage);
    assert_eq!(setup_progress(&storage, SaveSlot::SlotA).time_played_secs(), 5);
    assert_eq!(setup_progress(&storage, SaveSlot::SlotC).time_played_secs(), 0);
}

#[test]
fn time_played_texts() {
    let mut p = Progress::new();
    assert_eq!(time_played_text(None), "Empty");
    assert_eq!(time_played_text(Some(&p)), "00:00:00");
    p.time_played_secs = 3661;
    assert_eq!(time_played_text(Some(&p)), "01:01:01");
    p.time_played_secs = 360059;
    assert_eq!(time_played_text(Some(&p)), "100:00:59");
    for secs in [0u64, 59, 60, 3599, 3600, 86399, 987654321] {
        p.time_played_secs = secs;
        let minutes = secs / 60;
        let hours = minutes / 60;
        let expected = format!("{:02}:{:02}:{:02}", hours, minutes % 60, secs % 60);
        assert_eq!(time_played_text(Some(&p)), expected);
    }
}

#[test]
fn menu_navigation() {
    assert_eq!(navigation_action(NavigationAction::Play), Navigation::Page(MenuState::Data));
    assert_eq!(navigation_action(NavigationAction::Settings), Navigation::Page(MenuState::Settings));
    assert_eq!(navigation_action(NavigationAction::MainMenu), Navigation::Page(MenuState::Main));
    assert_eq!(navigation_action(NavigationAction::Quit), Navigation::Exit);
}

#[test]
fn button_colors() {
    assert_eq!(update_button_color(ButtonInteraction::Pressed, false), ButtonColor::Pressed);
    assert_eq!(update_button_color(ButtonInteraction::Untouched, true), ButtonColor::Pressed);
    assert_eq!(update_button_color(ButtonInteraction::Hovered, true), ButtonColor::HoveredPressed);
    assert_eq!(update_button_color(ButtonInteraction::Hovered, false), ButtonColor::Hovered);
    assert_eq!(update_button_color(ButtonInteraction::Untouched, false), ButtonColor::Normal);
}

#[test]
fn radio_buttons_move_the_selection() {
    let mut selection = RadioSelection { sound: Some(10), music: None };
    assert_eq!(update_radio_buttons(&mut selection, RadioSetting::Sound, 4), Some(10));
    assert_eq!(selection, RadioSelection { sound: Some(4), music: None });
    assert_eq!(update_radio_buttons(&mut selection, RadioSetting::Sound, 4), None);
    assert_eq!(selection, RadioSelection { sound: Some(4), music: None });
    assert_eq!(update_radio_buttons(&mut selection, RadioSetting::Music, 7), None);
    assert_eq!(selection, RadioSelection { sound: Some(4), music: None });
}

#[test]
fn updates_move_only_playing_animations_whose_timer_ran_out() {
    let a = SpriteAnimation::new(2, 4, 12);
    assert_eq!(a.update(3, true), FrameStep { index: 4, finished: false, reset_timer: true });
    assert_eq!(a.update(3, false), FrameStep { index: 3, finished: false, reset_timer: false });
    assert_eq!(a.paused().update(3, true), FrameStep { index: 3, finished: false, reset_timer: false });
    assert_eq!(a.looping().update(4, true), FrameStep { index: 2, finished: true, reset_timer: true });
}
