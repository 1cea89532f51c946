use vstd::prelude::*;
use vstd::string::*;

use crate::animation::{SpriteAnimation, animation_spec, looped};
use super::dialogue::{DialogueId, element_animation};

verus! {

/// Frames per second of an element that does not say otherwise.
pub const DEFAULT_ELEMENT_FPS: u8 = 12;

/// Number of dialogue ids.
pub const DIALOGUE_COUNT: usize = 5;

/// An image of a dialogue scene, shown as a sprite-sheet animation of `frames` frames.
#[derive(Debug)]
pub struct DialogueElement {
    pub path: String,
    pub frames: usize,
    pub fps: u8,
    pub looping: bool,
}

impl DialogueElement {
    /// An element of one frame at the default rate, not looping.
    pub fn new(path: String) -> (e: DialogueElement)
        ensures
            e.path@ == path@,
            e.frames == 1,
            e.fps == DEFAULT_ELEMENT_FPS,
            !e.looping,
    {
        DialogueElement { path, frames: 1, fps: DEFAULT_ELEMENT_FPS, looping: false }
    }

    /// The same element with `frames` frames.
    pub fn frames(self, frames: usize) -> (e: DialogueElement)
        ensures
            e == (DialogueElement { frames, ..self }),
    {
        DialogueElement { frames, ..self }
    }

    /// The same element at `fps` frames per second.
    pub fn fps(self, fps: u8) -> (e: DialogueElement)
        ensures
            e == (DialogueElement { fps, ..self }),
    {
        DialogueElement { fps, ..self }
    }

    /// The same element, looping.
    pub fn looping(self) -> (e: DialogueElement)
        ensures
            e == (DialogueElement { looping: true, ..self }),
    {
        DialogueElement { looping: true, ..self }
    }

    /// The plain-value picture of the element.
    pub open spec fn view(&self) -> ElementView {
        ElementView { path: self.path@, frames: self.frames, fps: self.fps, looping: self.looping }
    }

    /// An element can be shown: it has a frame and a frame rate.
    pub open spec fn valid(&self) -> bool {
        self.view().valid()
    }
}

/// The plain-value picture of a dialogue element.
pub struct ElementView {
    pub path: Seq<char>,
    pub frames: usize,
    pub fps: u8,
    pub looping: bool,
}

impl ElementView {
    /// An element can be shown: it has a frame and a frame rate.
    pub open spec fn valid(self) -> bool {
        self.frames >= 1 && self.fps > 0
    }
}

/// The plain-value picture of a dialogue line: its text, and the element each of its
/// actions moves.
pub struct LineView {
    pub text: Seq<char>,
    pub actions: Seq<usize>,
}

/// The plain-value picture of a dialogue.
pub struct DialogueView {
    pub elements: Seq<ElementView>,
    pub lines: Seq<LineView>,
}

impl DialogueView {
    /// Every element can be shown, and every action moves one of the elements.
    pub open spec fn valid(self) -> bool {
        &&& forall|i: int| 0 <= i < self.elements.len() ==> (#[trigger] self.elements[i]).valid()
        &&& forall|l: int, k: int|
            0 <= l < self.lines.len() && 0 <= k < self.lines[l].actions.len()
                ==> #[trigger] self.lines[l].actions[k] < self.elements.len()
    }
}

/// A line of a dialogue: its text, and the element each of its actions moves, in order.
#[derive(Debug)]
pub struct DialogueLine {
    pub text: String,
    pub actions: Vec<usize>,
}

impl DialogueLine {
    /// The plain-value picture of the line.
    pub open spec fn view(&self) -> LineView {
        LineView { text: self.text@, actions: self.actions@ }
    }

    /// A line with no action.
    pub fn new(text: String) -> (l: DialogueLine)
        ensures
            l.text@ == text@,
            l.actions@ == Seq::<usize>::empty(),
    {
        DialogueLine { text, actions: Vec::new() }
    }

    /// The same line with one more action, on the element `element`.
    pub fn add_action(self, element: usize) -> (l: DialogueLine)
        ensures
            l.text@ == self.text@,
            l.actions@ == self.actions@.push(element),
    {
        let mut l = self;
        l.actions.push(element);
        l
    }
}

/// A dialogue scene: its elements, and its lines with the actions they play on them.
#[derive(Debug)]
pub struct Dialogue {
    pub elements: Vec<DialogueElement>,
    pub lines: Vec<DialogueLine>,
}

impl Dialogue {
    /// The plain-value picture of the dialogue.
    pub open spec fn view(&self) -> DialogueView {
        DialogueView {
            elements: self.elements@.map_values(|e: DialogueElement| e.view()),
            lines: self.lines@.map_values(|l: DialogueLine| l.view()),
        }
    }

    /// Every element can be shown, and every action moves one of the elements.
    pub open spec fn valid(&self) -> bool {
        self.view().valid()
    }

    /// The validity of a dialogue, read off its fields.
    proof fn lemma_valid_fields(&self)
        ensures
            self.valid() <==> {
                &&& forall|i: int| 0 <= i < self.elements@.len() ==> (#[trigger] self.elements@[i]).valid()
                &&& forall|l: int, k: int|
                    0 <= l < self.lines@.len() && 0 <= k < self.lines@[l].actions@.len()
                        ==> #[trigger] self.lines@[l].actions@[k] < self.elements@.len()
            },
    {
        let v = self.view();
        let fields_valid = {
            &&& forall|i: int| 0 <= i < self.elements@.len() ==> (#[trigger] self.elements@[i]).valid()
            &&& forall|l: int, k: int|
                0 <= l < self.lines@.len() && 0 <= k < self.lines@[l].actions@.len()
                    ==> #[trigger] self.lines@[l].actions@[k] < self.elements@.len()
        };
        if v.valid() {
            assert forall|i: int| 0 <= i < self.elements@.len() implies (#[trigger] self.elements@[i]).valid() by {
                assert(v.elements[i] == self.elements@[i].view());
            }
            assert forall|l: int, k: int|
                0 <= l < self.lines@.len() && 0 <= k < self.lines@[l].actions@.len()
                    implies #[trigger] self.lines@[l].actions@[k] < self.elements@.len() by {
                assert(v.lines[l] == self.lines@[l].view());
                assert(v.lines[l].actions[k] == self.lines@[l].actions@[k]);
            }
        }
        if fields_valid {
            assert forall|i: int| 0 <= i < v.elements.len() implies (#[trigger] v.elements[i]).valid() by {
                assert(v.elements[i] == self.elements@[i].view());
                assert(self.elements@[i].valid());
            }
            assert forall|l: int, k: int|
                0 <= l < v.lines.len() && 0 <= k < v.lines[l].actions.len()
                    implies #[trigger] v.lines[l].actions[k] < v.elements.len() by {
                assert(v.lines[l] == self.lines@[l].view());
                assert(self.lines@[l].actions@[k] < self.elements@.len());
            }
        }
    }

    /// Whether the dialogue can be played (see `valid`).
    pub fn is_valid(&self) -> (r: bool)
        ensures
            r == self.valid(),
    {
        proof {
            self.lemma_valid_fields();
        }
        let mut i: usize = 0;
        while i < self.elements.len()
            invariant
                i <= self.elements@.len(),
                forall|j: int| 0 <= j < i ==> (#[trigger] self.elements@[j]).valid(),
            decreases self.elements@.len() - i,
        {
            if self.elements[i].frames < 1 || self.elements[i].fps == 0 {
                proof {
                    self.lemma_valid_fields();
                }
                return false;
            }
            i = i + 1;
        }
        let mut l: usize = 0;
        while l < self.lines.len()
            invariant
                l <= self.lines@.len(),
                forall|m: int, k: int|
                    0 <= m < l && 0 <= k < self.lines@[m].actions@.len()
                        ==> #[trigger] self.lines@[m].actions@[k] < self.elements@.len(),
            decreases self.lines@.len() - l,
        {
            let actions = &self.lines[l].actions;
            let mut k: usize = 0;
            while k < actions.len()
                invariant
                    l < self.lines@.len(),
                    actions@ == self.lines@[l as int].actions@,
                    k <= actions@.len(),
                    forall|j: int| 0 <= j < k ==> #[trigger] actions@[j] < self.elements@.len(),
                decreases actions@.len() - k,
            {
                if actions[k] >= self.elements.len() {
                    proof {
                        self.lemma_valid_fields();
                    }
                    return false;
                }
                k = k + 1;
            }
            l = l + 1;
        }
        true
    }

    /// The animations of the elements, in order: each element's frames at its rate, paused
    /// until its clip starts, looping if the element loops.
    pub fn element_animations(&self) -> (v: Vec<SpriteAnimation>)
        requires
            self.valid(),
        ensures
            v@.len() == self.elements@.len(),
            forall|i: int| 0 <= i < v@.len() ==> #[trigger] v@[i] == element_animation_spec(&self.elements@[i]),
    {
        let mut v: Vec<SpriteAnimation> = Vec::new();
        let mut i: usize = 0;
        while i < self.elements.len()
            invariant
                self.valid(),
                i <= self.elements@.len(),
                v@.len() == i,
                forall|j: int| 0 <= j < i ==> #[trigger] v@[j] == element_animation_spec(&self.elements@[j]),
            decreases self.elements@.len() - i,
        {
            let e = &self.elements[i];
            proof {
                self.lemma_valid_fields();
            }
            assert(self.elements@[i as int].valid());
            v.push(element_animation(e.frames, e.fps, e.looping));
            i = i + 1;
        }
        v
    }
}

/// The animation of an element: all its frames at its rate, paused, looping if it loops.
pub open spec fn element_animation_spec(e: &DialogueElement) -> SpriteAnimation {
    let a = SpriteAnimation { playing: false, ..animation_spec(0, (e.frames - 1) as usize, e.fps) };
    if e.looping { looped(a) } else { a }
}

/// The dialogues of the game, by id.
#[derive(Debug)]
pub struct DialogueStorage {
    dialogues: Vec<Option<Dialogue>>,
}

/// The plain-value picture of a stored entry.
pub open spec fn entry_view(d: Option<Dialogue>) -> Option<DialogueView> {
    match d {
        Some(x) => Some(x.view()),
        None => None,
    }
}

impl DialogueStorage {
    /// What is stored under each dialogue id, by its index.
    pub closed spec fn dialogues(&self) -> Seq<Option<DialogueView>> {
        self.dialogues@.map_values(|d: Option<Dialogue>| entry_view(d))
    }

    /// One entry per dialogue id.
    pub closed spec fn wf(&self) -> bool {
        self.dialogues@.len() == DIALOGUE_COUNT
    }

    /// A well-formed storage has one entry per dialogue id.
    pub proof fn lemma_one_entry_per_id(&self)
        requires
            self.wf(),
        ensures
            self.dialogues().len() == DIALOGUE_COUNT,
    {
    }

    /// No dialogue stored.
    pub fn new() -> (s: DialogueStorage)
        ensures
            s.wf(),
            s.dialogues() == Seq::new(DIALOGUE_COUNT as nat, |i: int| None::<DialogueView>),
    {
        let mut dialogues: Vec<Option<Dialogue>> = Vec::new();
        let mut i: usize = 0;
        while i < DIALOGUE_COUNT
            invariant
                i <= DIALOGUE_COUNT,
                dialogues@.len() == i,
                forall|j: int| 0 <= j < i ==> #[trigger] dialogues@[j] is None,
            decreases DIALOGUE_COUNT - i,
        {
            dialogues.push(None);
            i = i + 1;
        }
        let s = DialogueStorage { dialogues };
        assert(s.dialogues() =~= Seq::new(DIALOGUE_COUNT as nat, |i: int| None::<DialogueView>));
        s
    }

    /// Stores `dialogue` under `id`, replacing what was stored there; the other entries
    /// stay as they were.
    pub fn insert(&mut self, id: DialogueId, dialogue: Dialogue)
        requires
            old(self).wf(),
        ensures
            final(self).wf(),
            final(self).dialogues() == old(self).dialogues().update(id.spec_index() as int, Some(dialogue.view())),
    {
        let i = id.index();
        let ghost v = dialogue.view();
        self.dialogues.set(i, Some(dialogue));
        assert(self.dialogues() =~= old(self).dialogues().update(i as int, Some(v)));
    }

    /// The dialogue stored under `id`, if any: what was last inserted there.
    pub fn get(&self, id: DialogueId) -> (d: Option<&Dialogue>)
        requires
            self.wf(),
        ensures
            self.dialogues().len() == DIALOGUE_COUNT,
            entry_view(match d { Some(x) => Some(*x), None => None }) == self.dialogues()[id.spec_index() as int],
    {
        match &self.dialogues[id.index()] {
            Some(d) => Some(d),
            None => None,
        }
    }
}

/// The ucko intro: six elements (the growing Bucko animations and four stills) and four
/// lines, the first of which moves the first element three times and the second once.
pub open spec fn ucko_intro() -> DialogueView {
    DialogueView {
        elements: seq![
            ElementView { path: "sprites/bucko/intro.png"@, frames: 16, fps: 16, looping: true },
            ElementView { path: "sprites/bucko/grow.png"@, frames: 18, fps: 16, looping: false },
            ElementView { path: "sprites/ucko/group.png"@, frames: 1, fps: DEFAULT_ELEMENT_FPS, looping: false },
            ElementView { path: "sprites/bucko/bones_1.png"@, frames: 1, fps: DEFAULT_ELEMENT_FPS, looping: false },
            ElementView { path: "sprites/bucko/bones_2.png"@, frames: 1, fps: DEFAULT_ELEMENT_FPS, looping: false },
            ElementView { path: "sprites/bucko/escape.png"@, frames: 1, fps: DEFAULT_ELEMENT_FPS, looping: false },
        ],
        lines: seq![
            LineView { text: "Pardon me. Did I miss something? What's going on?"@, actions: seq![0usize, 0, 0, 1] },
            LineView { text: "..."@, actions: Seq::<usize>::empty() },
            LineView { text: "Uh oh..."@, actions: Seq::<usize>::empty() },
            LineView { text: "AAAAAAIIIIEEEEEE!!"@, actions: Seq::<usize>::empty() },
        ],
    }
}

/// The ninjucko intro: one looping element and no line.
pub open spec fn ninjucko_intro() -> DialogueView {
    DialogueView {
        elements: seq![ElementView { path: "sprites/ninjucko/idle.png"@, frames: 4, fps: 8, looping: true }],
        lines: Seq::<LineView>::empty(),
    }
}

/// The dialogues the game is built with can be played.
pub proof fn lemma_built_in_dialogues_valid()
    ensures
        ucko_intro().valid(),
        ninjucko_intro().valid(),
{
    let u = ucko_intro();
    assert forall|l: int, k: int| 0 <= l < u.lines.len() && 0 <= k < u.lines[l].actions.len()
        implies #[trigger] u.lines[l].actions[k] < u.elements.len() by {
        assert(l == 0);
    }
}

/// Adds the dialogues the game is built with: the ucko intro and the ninjucko intro. The
/// other entries stay as they were.
pub fn add_new_dialogue(storage: &mut DialogueStorage)
    requires
        old(storage).wf(),
    ensures
        final(storage).wf(),
        final(storage).dialogues() == old(storage).dialogues()
            .update(DialogueId::UckoIntro.spec_index() as int, Some(ucko_intro()))
            .update(DialogueId::NinjuckoIntro.spec_index() as int, Some(ninjucko_intro())),
{
    let mut elements: Vec<DialogueElement> = Vec::new();
    elements.push(DialogueElement::new(String::from_str("sprites/bucko/intro.png")).frames(16).fps(16).looping());
    elements.push(DialogueElement::new(String::from_str("sprites/bucko/grow.png")).frames(18).fps(16));
    elements.push(DialogueElement::new(String::from_str("sprites/ucko/group.png")));
    elements.push(DialogueElement::new(String::from_str("sprites/bucko/bones_1.png")));
    elements.push(DialogueElement::new(String::from_str("sprites/bucko/bones_2.png")));
    elements.push(DialogueElement::new(String::from_str("sprites/bucko/escape.png")));
    let mut lines: Vec<DialogueLine> = Vec::new();
    lines.push(
        DialogueLine::new(String::from_str("Pardon me. Did I miss something? What's going on?"))
            .add_action(0)
            .add_action(0)
            .add_action(0)
            .add_action(1),
    );
    lines.push(DialogueLine::new(String::from_str("...")));
    lines.push(DialogueLine::new(String::from_str("Uh oh...")));
    lines.push(DialogueLine::new(String::from_str("AAAAAAIIIIEEEEEE!!")));
    let ucko = Dialogue { elements, lines };
    proof {
        let v = ucko.view();
        assert(v.elements =~= ucko_intro().elements);
        assert(v.lines[0].actions =~= seq![0usize, 0, 0, 1]);
        assert(v.lines[1].actions =~= Seq::<usize>::empty());
        assert(v.lines =~= ucko_intro().lines);
    }
    storage.insert(DialogueId::UckoIntro, ucko);

    let mut elements: Vec<DialogueElement> = Vec::new();
    elements.push(DialogueElement::new(String::from_str("sprites/ninjucko/idle.png")).frames(4).fps(8).looping());
    let ninjucko = Dialogue { elements, lines: Vec::new() };
    proof {
        let v = ninjucko.view();
        assert(v.elements =~= ninjucko_intro().elements);
        assert(v.lines =~= ninjucko_intro().lines);
    }
    storage.insert(DialogueId::NinjuckoIntro, ninjucko);
}

} // verus!
