use vstd::prelude::*;

use crate::animation::{SpriteAnimation, animation_spec, looped};

verus! {

/// The dialogue scenes of the game.
#[derive(Debug, Clone, Copy, PartialEq, Eq, Hash, Structural)]
pub enum DialogueId {
    Empty,
    UckoIntro,
    NinjuckoIntro,
    WizuckoWin,
    WizuckoIntro,
}

impl DialogueId {
    /// Position of the id in tables indexed by dialogue.
    pub open spec fn spec_index(self) -> nat {
        match self {
            DialogueId::Empty => 0,
            DialogueId::UckoIntro => 1,
            DialogueId::NinjuckoIntro => 2,
            DialogueId::WizuckoWin => 3,
            DialogueId::WizuckoIntro => 4,
        }
    }

    /// Position of the id in tables indexed by dialogue; also the value it is hashed as.
    pub fn index(&self) -> (i: usize)
        ensures
            i == self.spec_index(),
    {
        match self {
            DialogueId::Empty => 0,
            DialogueId::UckoIntro => 1,
            DialogueId::NinjuckoIntro => 2,
            DialogueId::WizuckoWin => 3,
            DialogueId::WizuckoIntro => 4,
        }
    }

    /// The id that is used when none is given, and that a played dialogue is replaced by.
    pub fn default_id() -> (id: DialogueId)
        ensures
            id == DialogueId::Empty,
    {
        DialogueId::Empty
    }
}

/// The dialogue that is playing.
#[derive(Debug, Clone, Copy)]
pub struct DialogueCurrentId(pub DialogueId);

/// Dialogues whose scenes are to be loaded ahead of time.
#[derive(Debug)]
pub struct DialoguePreload(pub Vec<DialogueId>);

impl DialoguePreload {
    /// An empty list.
    pub fn new() -> (p: DialoguePreload)
        ensures
            p.0@ == Seq::<DialogueId>::empty(),
    {
        DialoguePreload(Vec::new())
    }

    /// Queues a dialogue for loading.
    pub fn push(&mut self, id: DialogueId)
        ensures
            final(self).0@ == old(self).0@.push(id),
    {
        self.0.push(id);
    }

    /// Hands out every queued dialogue, in the order queued, and empties the list.
    pub fn drain(&mut self) -> (ids: Vec<DialogueId>)
        ensures
            ids@ == old(self).0@,
            final(self).0@ == Seq::<DialogueId>::empty(),
    {
        let mut ids: Vec<DialogueId> = Vec::new();
        std::mem::swap(&mut ids, &mut self.0);
        ids
    }
}

/// The phases of a dialogue scene.
#[derive(Debug, Clone, Copy, PartialEq, Eq, Hash, Structural)]
pub enum DialogueState {
    Loading,
    Playing,
    Ending,
}

/// Waits for the cinematic bars and the scene's images. Remembers that the bars arrived;
/// once both are done, forgets it and answers that the scene is to start playing.
pub fn wait_for_loaded_and_bars(bar_animation_done: &mut bool, bars_arrived: bool, loaded: bool) -> (start: bool)
    ensures
        start == ((*old(bar_animation_done) || bars_arrived) && loaded),
        *final(bar_animation_done) == ((*old(bar_animation_done) || bars_arrived) && !loaded),
{
    if bars_arrived {
        *bar_animation_done = true;
    }
    if *bar_animation_done && loaded {
        *bar_animation_done = false;
        true
    } else {
        false
    }
}

/// What an advance of a playing dialogue does.
#[derive(Debug, Clone, Copy, PartialEq, Eq, Structural)]
pub enum DialogueStep {
    /// The last line was passed: clear the text and end the scene.
    Finish,
    /// The current line's animations still run: speed them up.
    SpeedUp,
    /// Play the animations and text of this line.
    PlayLine(usize),
}

/// What advancing from line `index` of a dialogue of `count` lines does.
pub open spec fn dialogue_step(index: nat, count: nat, animations_finished: bool) -> DialogueStep {
    if index + 1 == count {
        DialogueStep::Finish
    } else if !animations_finished {
        DialogueStep::SpeedUp
    } else {
        DialogueStep::PlayLine((index + 1) as usize)
    }
}

/// The line index after advancing from line `index` of a dialogue of `count` lines.
pub open spec fn dialogue_index_after(index: nat, count: nat) -> nat {
    if index + 1 == count {
        0
    } else {
        index + 1
    }
}

/// Advances a playing dialogue of `line_count` lines. The line counter moves on in every
/// case; past the last line it goes back to the start and the scene ends.
pub fn advance_dialogue(line_index: &mut usize, line_count: usize, animations_finished: bool) -> (step: DialogueStep)
    requires
        *old(line_index) < line_count,
    ensures
        step == dialogue_step(*old(line_index) as nat, line_count as nat, animations_finished),
        *final(line_index) == dialogue_index_after(*old(line_index) as nat, line_count as nat),
        *final(line_index) < line_count,
{
    *line_index = *line_index + 1;
    if *line_index == line_count {
        *line_index = 0;
        return DialogueStep::Finish;
    }
    if !animations_finished {
        return DialogueStep::SpeedUp;
    }
    DialogueStep::PlayLine(*line_index)
}

/// What follows the end of a dialogue.
#[derive(Debug, Clone, Copy, PartialEq, Eq, Structural)]
pub enum PostDialogue {
    /// Nothing more happens.
    Nothing,
    /// The chase scene starts, with the player placed at the bones spawn point.
    StartBones,
    /// The dialogue scene is loaded again with this dialogue.
    Continue(DialogueId),
}

/// What follows the end of each dialogue.
pub open spec fn post_dialogue_spec(id: DialogueId) -> PostDialogue {
    match id {
        DialogueId::UckoIntro => PostDialogue::StartBones,
        DialogueId::WizuckoWin => PostDialogue::Continue(DialogueId::WizuckoIntro),
        _ => PostDialogue::Nothing,
    }
}

/// What follows the end of dialogue `id`: the intro leads to the chase, Wizucko's win to
/// his intro.
pub fn post_dialogue(id: DialogueId) -> (p: PostDialogue)
    ensures
        p == post_dialogue_spec(id),
{
    match id {
        DialogueId::UckoIntro => PostDialogue::StartBones,
        DialogueId::WizuckoWin => PostDialogue::Continue(DialogueId::WizuckoIntro),
        _ => PostDialogue::Nothing,
    }
}

/// A dialogue's line counter stays below its line count through any advance, and the
/// scene ends exactly when the counter goes back to the first line.
pub proof fn lemma_dialogue_counter(index: nat, count: nat, animations_finished: bool)
    requires
        index < count <= usize::MAX,
    ensures
        dialogue_index_after(index, count) < count,
        (dialogue_step(index, count, animations_finished) == DialogueStep::Finish) <==> (
        dialogue_index_after(index, count) == 0 && index + 1 == count),
        dialogue_step(index, count, animations_finished) matches DialogueStep::PlayLine(l) ==> l
            == dialogue_index_after(index, count),
{
}


/// The animation of an element of a dialogue scene: all its frames at its rate, paused
/// until its clip starts, looping if the element loops.
pub fn element_animation(frames: usize, fps: u8, looping: bool) -> (a: SpriteAnimation)
    requires
        frames >= 1,
        fps > 0,
    ensures
        a == (if looping {
            looped(SpriteAnimation { playing: false, ..animation_spec(0, (frames - 1) as usize, fps) })
        } else {
            SpriteAnimation { playing: false, ..animation_spec(0, (frames - 1) as usize, fps) }
        }),
{
    let a = SpriteAnimation::new(0, frames - 1, fps).paused();
    if looping {
        a.looping()
    } else {
        a
    }
}

} // verus!
