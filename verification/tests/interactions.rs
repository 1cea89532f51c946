use monkebucko::game::interactions::dialogue::{
    advance_dialogue, element_animation, post_dialogue, wait_for_loaded_and_bars, DialogueId,
    DialoguePreload, DialogueStep, PostDialogue,
};
use monkebucko::game::interactions::monologue::{Monologue, MonologueId, MonologueServer};
use monkebucko::game::interactions::script::{
    add_new_dialogue, Dialogue, DialogueElement, DialogueLine, DialogueStorage,
};
use monkebucko::game::interactions::text::text_lines;
use monkebucko::game::interactions::{
    advance_interaction_text, get_topdown_interactions, out_interactables, over_interactables,
    play_interactions, setup_interactables, Character, EntityInteraction, InteractTarget,
    InteractionAction, TextAdvance,
};

fn lines(s: &str) -> Vec<String> {
    text_lines(s)
}

#[test]
fn text_lines_match_str_lines() {
    for s in ["", "\n", "a", "a\n", "a\nb", "a\r\nb\r\n", "x\r", "\n\nq", "one\r\r\ntwo"] {
        let expected: Vec<String> = s.lines().map(|l| l.to_string()).collect();
        assert_eq!(lines(s), expected, "lines of {:?}", s);
    }
}

#[test]
fn monologue_lines() {
    let m = Monologue::new(1, "a\nb\nc".to_string());
    assert_eq!(m.len(), 3);
    assert_eq!(m.get(0), Some("a".to_string()));
    assert_eq!(m.get(2), Some("c".to_string()));
    assert_eq!(m.get(3), None);
}

#[test]
fn monologue_line_counts() {
    let mut server = MonologueServer::new();
    assert_eq!(server.line_count(&MonologueId::Empty), 0);
    assert_eq!(server.line_count(&MonologueId::Test), 4);
    server.next_line(&MonologueId::Test);
    assert_eq!(server.line_count(&MonologueId::Test), 4);
}

#[test]
fn monologue_loops_back_to_third_line() {
    let mut server = MonologueServer::new();
    let said: Vec<String> = (0..7).map(|_| server.next_line(&MonologueId::Test)).collect();
    assert_eq!(
        said,
        vec![
            "First line",
            "Second line",
            "Third Line",
            "Last line, go back to third",
            "Third Line",
            "Last line, go back to third",
            "Third Line",
        ]
    );
}

#[test]
fn play_text_and_monologue() {
    let mut server = MonologueServer::new();
    match play_interactions::<u32>(Some(EntityInteraction::Text("hello".to_string())), &mut server) {
        InteractionAction::ShowText(t) => assert_eq!(t, "hello"),
        other => panic!("unexpected {:?}", other),
    }
    match play_interactions::<u32>(Some(EntityInteraction::Monologue(MonologueId::Test)), &mut server) {
        InteractionAction::ShowText(t) => assert_eq!(t, "First line"),
        other => panic!("unexpected {:?}", other),
    }
    match play_interactions::<u32>(Some(EntityInteraction::Monologue(MonologueId::Test)), &mut server) {
        InteractionAction::ShowText(t) => assert_eq!(t, "Second line"),
        other => panic!("unexpected {:?}", other),
    }
}

#[test]
fn play_dialogue_special_and_nothing() {
    let mut server = MonologueServer::new();
    assert!(matches!(play_interactions::<u32>(None, &mut server), InteractionAction::Nothing));
    assert!(matches!(
        play_interactions::<u32>(Some(EntityInteraction::Dialogue(DialogueId::Empty)), &mut server),
        InteractionAction::Nothing
    ));
    assert!(matches!(
        play_interactions::<u32>(Some(EntityInteraction::Dialogue(DialogueId::UckoIntro)), &mut server),
        InteractionAction::StartDialogue(DialogueId::UckoIntro)
    ));
    assert!(matches!(
        play_interactions::<u32>(Some(EntityInteraction::Special(42)), &mut server),
        InteractionAction::RunSpecial(42)
    ));
}

#[test]
fn topdown_dialogue_plays_once() {
    let mut server = MonologueServer::new();
    let mut on_entity: EntityInteraction<u32> = EntityInteraction::Dialogue(DialogueId::NinjuckoIntro);
    let first = get_topdown_interactions(&mut on_entity);
    assert!(matches!(first, EntityInteraction::Dialogue(DialogueId::NinjuckoIntro)));
    assert!(matches!(on_entity, EntityInteraction::Dialogue(DialogueId::Empty)));
    let second = get_topdown_interactions(&mut on_entity);
    assert!(matches!(play_interactions(Some(second), &mut server), InteractionAction::Nothing));
    let mut text: EntityInteraction<u32> = EntityInteraction::Text("sign".to_string());
    let copy = get_topdown_interactions(&mut text);
    assert!(matches!(copy, EntityInteraction::Text(ref t) if t == "sign"));
    assert!(matches!(text, EntityInteraction::Text(ref t) if t == "sign"));
}

#[test]
fn interact_target_focus() {
    let mut target: InteractTarget<u32> = InteractTarget::new();
    assert_eq!(target.get(), None);
    target.set(5);
    assert_eq!(target.get(), Some(&5));
    over_interactables(&mut target, true, Some(9));
    assert_eq!(target.get(), Some(&5));
    over_interactables(&mut target, false, Some(9));
    assert_eq!(target.get(), Some(&9));
    out_interactables(&mut target, true, true);
    assert_eq!(target.get(), Some(&9));
    out_interactables(&mut target, false, false);
    assert_eq!(target.get(), Some(&9));
    out_interactables(&mut target, false, true);
    assert_eq!(target.get(), None);
    target.set(1);
    target.clear();
    assert_eq!(target.get(), None);
}

#[test]
fn character_names() {
    assert_eq!(Character::Unknown.to_display_string(), "???");
    assert_eq!(Character::Brock.to_display_string(), "Bane \"The Brock\" Bronson");
    assert_eq!(Character::Bucko.to_display_string(), "Bucko");
    assert_eq!(Character::Nobody.to_display_string(), "None");
    assert_eq!(Character::default_character(), Character::Nobody);
}

#[test]
fn advance_text_skips_then_advances() {
    assert_eq!(advance_interaction_text(true, false), TextAdvance::SkipAnimation);
    assert_eq!(advance_interaction_text(false, true), TextAdvance::SkipAnimation);
    assert_eq!(advance_interaction_text(false, false), TextAdvance::Advance);
}

#[test]
fn dialogue_advances_and_ends() {
    let mut line = 0usize;
    assert_eq!(advance_dialogue(&mut line, 3, true), DialogueStep::PlayLine(1));
    assert_eq!(advance_dialogue(&mut line, 3, false), DialogueStep::SpeedUp);
    assert_eq!(line, 2);
    assert_eq!(advance_dialogue(&mut line, 3, true), DialogueStep::Finish);
    assert_eq!(line, 0);
    let mut single = 0usize;
    assert_eq!(advance_dialogue(&mut single, 1, false), DialogueStep::Finish);
    assert_eq!(single, 0);
}

#[test]
fn what_follows_dialogues() {
    assert_eq!(post_dialogue(DialogueId::UckoIntro), PostDialogue::StartBones);
    assert_eq!(post_dialogue(DialogueId::WizuckoWin), PostDialogue::Continue(DialogueId::WizuckoIntro));
    assert_eq!(post_dialogue(DialogueId::NinjuckoIntro), PostDialogue::Nothing);
    assert_eq!(post_dialogue(DialogueId::Empty), PostDialogue::Nothing);
}

#[test]
fn dialogue_waits_for_bars_and_images() {
    let mut bars = false;
    assert!(!wait_for_loaded_and_bars(&mut bars, false, true));
    assert!(!wait_for_loaded_and_bars(&mut bars, true, false));
    assert!(bars);
    assert!(wait_for_loaded_and_bars(&mut bars, false, true));
    assert!(!bars);
}

#[test]
fn preload_queue() {
    let mut preload = DialoguePreload::new();
    preload.push(DialogueId::NinjuckoIntro);
    setup_interactables(&EntityInteraction::<u32>::Dialogue(DialogueId::WizuckoWin), &mut preload);
    setup_interactables(&EntityInteraction::<u32>::Special(3), &mut preload);
    assert_eq!(preload.drain(), vec![DialogueId::NinjuckoIntro, DialogueId::WizuckoWin]);
    assert!(preload.drain().is_empty());
}

#[test]
fn dialogue_element_animation() {
    let a = element_animation(16, 16, true);
    assert_eq!((a.first_index, a.last_index, a.looping, a.playing), (0, 15, true, false));
    let b = element_animation(1, 12, false);
    assert_eq!((b.first_index, b.last_index, b.looping, b.playing), (0, 0, false, false));
}

#[test]
fn ids_index_in_order() {
    assert_eq!(DialogueId::Empty.index(), 0);
    assert_eq!(DialogueId::WizuckoIntro.index(), 4);
    assert_eq!(MonologueId::Test.index(), 1);
    assert_eq!(DialogueId::default_id(), DialogueId::Empty);
    assert_eq!(MonologueId::default_id(), MonologueId::Empty);
}

#[test]
fn new_dialogues_are_added() {
    let mut storage = DialogueStorage::new();
    let wizucko = Dialogue {
        elements: vec![DialogueElement::new("w.png".to_string())],
        lines: vec![],
    };
    storage.insert(DialogueId::WizuckoWin, wizucko);
    add_new_dialogue(&mut storage);
    assert_eq!(storage.get(DialogueId::WizuckoWin).unwrap().elements[0].path, "w.png");
    let ucko = storage.get(DialogueId::UckoIntro).unwrap();
    assert!(ucko.is_valid());
    assert_eq!(ucko.elements.len(), 6);
    assert_eq!(ucko.lines.len(), 4);
    assert_eq!(ucko.lines[0].actions, vec![0, 0, 0, 1]);
    assert_eq!(ucko.lines[3].text, "AAAAAAIIIIEEEEEE!!");
    let animations = ucko.element_animations();
    assert_eq!(animations[0], element_animation(16, 16, true));
    assert_eq!(animations[1], element_animation(18, 16, false));
    assert_eq!(animations[2], element_animation(1, 12, false));
    let ninjucko = storage.get(DialogueId::NinjuckoIntro).unwrap();
    assert_eq!(ninjucko.element_animations(), vec![element_animation(4, 8, true)]);
    assert_eq!(ninjucko.elements[0].path, "sprites/ninjucko/idle.png");
    assert!(ninjucko.lines.is_empty());
    assert_eq!(ucko.elements[5].path, "sprites/bucko/escape.png");
    assert_eq!(ucko.lines[0].text, "Pardon me. Did I miss something? What's going on?");
    assert!(ucko.lines[1].actions.is_empty());
    assert!(storage.get(DialogueId::Empty).is_none());
    assert!(storage.get(DialogueId::WizuckoIntro).is_none());
}

#[test]
fn invalid_dialogues_are_refused() {
    let zero_frames = Dialogue {
        elements: vec![DialogueElement::new("a.png".to_string()).frames(0)],
        lines: vec![],
    };
    assert!(!zero_frames.is_valid());
    let zero_fps = Dialogue {
        elements: vec![DialogueElement::new("a.png".to_string()).fps(0)],
        lines: vec![],
    };
    assert!(!zero_fps.is_valid());
    let bad_action = Dialogue {
        elements: vec![DialogueElement::new("a.png".to_string())],
        lines: vec![DialogueLine::new("hi".to_string()).add_action(0).add_action(1)],
    };
    assert!(!bad_action.is_valid());
    let good = Dialogue {
        elements: vec![DialogueElement::new("a.png".to_string())],
        lines: vec![DialogueLine::new("hi".to_string()).add_action(0)],
    };
    assert!(good.is_valid());
    let mut storage = DialogueStorage::new();
    assert!(storage.get(DialogueId::WizuckoWin).is_none());
    storage.insert(DialogueId::WizuckoWin, good);
    assert_eq!(storage.get(DialogueId::WizuckoWin).unwrap().lines[0].actions, vec![0]);
    storage.insert(DialogueId::WizuckoWin, bad_action);
    assert_eq!(storage.get(DialogueId::WizuckoWin).unwrap().lines[0].actions, vec![0, 1]);
    assert!(storage.get(DialogueId::UckoIntro).is_none());
}
