pub mod dialogue;
pub mod monologue;
pub mod script;
pub mod text;

use vstd::prelude::*;
use vstd::string::*;

use dialogue::{DialogueId, DialoguePreload};
use monologue::{MonologueId, MonologueServer};

verus! {

/// What kind of interaction is on screen.
#[derive(Debug, Clone, Copy, PartialEq, Eq, Hash, Structural)]
pub enum InteractionState {
    Idle,
    Text,
    Dialogue,
}

/// The entity with an interaction that is in focus, if any.
#[derive(Debug, Clone, Copy)]
pub struct InteractTarget<E>(pub Option<E>);

impl<E: Copy> InteractTarget<E> {
    /// No entity in focus.
    pub fn new() -> (t: InteractTarget<E>)
        ensures
            t.0 is None,
    {
        InteractTarget(None)
    }

    /// Puts `entity` in focus.
    pub fn set(&mut self, entity: E)
        ensures
            final(self).0 == Some(entity),
    {
        self.0 = Some(entity);
    }

    /// Puts nothing in focus.
    pub fn clear(&mut self)
        ensures
            final(self).0 is None,
    {
        self.0 = None;
    }

    /// The entity in focus.
    pub fn get(&self) -> (e: Option<&E>)
        ensures
            e == match self.0 {
                Some(x) => Some(&x),
                None => None::<&E>,
            },
    {
        match &self.0 {
            Some(x) => Some(x),
            None => None,
        }
    }
}

/// The crosshair moved over an entity: unless the pointer is the mouse, an entity with an
/// interaction comes into focus.
pub fn over_interactables<E: Copy>(target: &mut InteractTarget<E>, pointer_is_mouse: bool, interactable: Option<E>)
    ensures
        final(target).0 == (if !pointer_is_mouse && interactable is Some { interactable } else { old(target).0 }),
{
    if pointer_is_mouse {
        return;
    }
    if let Some(entity) = interactable {
        target.set(entity);
    }
}

/// The crosshair left an entity: unless the pointer is the mouse, leaving an entity with an
/// interaction takes the focus away.
pub fn out_interactables<E: Copy>(target: &mut InteractTarget<E>, pointer_is_mouse: bool, left_interactable: bool)
    ensures
        final(target).0 == (if !pointer_is_mouse && left_interactable { None } else { old(target).0 }),
{
    if pointer_is_mouse {
        return;
    }
    if left_interactable {
        target.clear();
    }
}

/// What interacting with an entity does.
#[derive(Debug)]
pub enum EntityInteraction<E> {
    /// Show a fixed text.
    Text(String),
    /// Show the next line of a monologue.
    Monologue(MonologueId),
    /// Play a dialogue scene.
    Dialogue(DialogueId),
    /// Run the special interaction attached to an entity.
    Special(E),
}

/// The plain-value picture of an interaction: texts taken as character sequences.
pub enum InteractionView<E> {
    Text(Seq<char>),
    Monologue(MonologueId),
    Dialogue(DialogueId),
    Special(E),
}

impl<E: Copy> EntityInteraction<E> {
    pub open spec fn view(&self) -> InteractionView<E> {
        match self {
            EntityInteraction::Text(t) => InteractionView::Text(t@),
            EntityInteraction::Monologue(id) => InteractionView::Monologue(*id),
            EntityInteraction::Dialogue(id) => InteractionView::Dialogue(*id),
            EntityInteraction::Special(e) => InteractionView::Special(*e),
        }
    }

    /// A copy of the interaction.
    pub fn duplicate(&self) -> (c: EntityInteraction<E>)
        ensures
            c.view() == self.view(),
    {
        match self {
            EntityInteraction::Text(t) => EntityInteraction::Text(t.clone()),
            EntityInteraction::Monologue(id) => EntityInteraction::Monologue(*id),
            EntityInteraction::Dialogue(id) => EntityInteraction::Dialogue(*id),
            EntityInteraction::Special(e) => EntityInteraction::Special(*e),
        }
    }
}

/// The interaction handed out when an entity is interacted with, and what stays on the
/// entity: a dialogue is handed out once and replaced by the empty dialogue; anything else
/// stays as it is.
pub open spec fn taken_interaction<E>(i: InteractionView<E>) -> (InteractionView<E>, InteractionView<E>) {
    match i {
        InteractionView::Dialogue(id) => (InteractionView::Dialogue(id), InteractionView::Dialogue(DialogueId::Empty)),
        _ => (i, i),
    }
}

/// Takes the interaction of the entity in focus (the core of the top-down scene's lookup):
/// a dialogue is handed out and left empty on the entity, so that it plays only once.
pub fn get_topdown_interactions<E: Copy>(interaction: &mut EntityInteraction<E>) -> (handed: EntityInteraction<E>)
    ensures
        (handed.view(), final(interaction).view()) == taken_interaction(old(interaction).view()),
{
    match interaction {
        EntityInteraction::Dialogue(id) => {
            let taken = *id;
            *id = DialogueId::Empty;
            EntityInteraction::Dialogue(taken)
        },
        _ => interaction.duplicate(),
    }
}

/// When an object of a map is created, a dialogue attached to it is queued for loading.
pub fn setup_interactables<E: Copy>(interaction: &EntityInteraction<E>, preload: &mut DialoguePreload)
    ensures
        final(preload).0@ == match interaction.view() {
            InteractionView::Dialogue(id) => old(preload).0@.push(id),
            _ => old(preload).0@,
        },
{
    if let EntityInteraction::Dialogue(id) = interaction {
        preload.push(*id);
    }
}

/// What the game does in answer to an interaction.
#[derive(Debug)]
pub enum InteractionAction<E> {
    /// Nothing happens.
    Nothing,
    /// Enter the text state and show this text on a dimmed panel.
    ShowText(String),
    /// Enter the dialogue state and play this dialogue on a clear panel.
    StartDialogue(DialogueId),
    /// Run the special interaction attached to this entity.
    RunSpecial(E),
}

/// The plain-value picture of an action.
pub enum ActionView<E> {
    Nothing,
    ShowText(Seq<char>),
    StartDialogue(DialogueId),
    RunSpecial(E),
}

impl<E: Copy> InteractionAction<E> {
    pub open spec fn view(&self) -> ActionView<E> {
        match self {
            InteractionAction::Nothing => ActionView::Nothing,
            InteractionAction::ShowText(t) => ActionView::ShowText(t@),
            InteractionAction::StartDialogue(id) => ActionView::StartDialogue(*id),
            InteractionAction::RunSpecial(e) => ActionView::RunSpecial(*e),
        }
    }
}

/// The action for an interaction, given the line a monologue would say next.
pub open spec fn interaction_action<E>(input: Option<InteractionView<E>>, monologue_line: Seq<char>) -> ActionView<E> {
    match input {
        None => ActionView::Nothing,
        Some(InteractionView::Text(t)) => ActionView::ShowText(t),
        Some(InteractionView::Monologue(_)) => ActionView::ShowText(monologue_line),
        Some(InteractionView::Dialogue(id)) => if id == DialogueId::Empty {
            ActionView::Nothing
        } else {
            ActionView::StartDialogue(id)
        },
        Some(InteractionView::Special(e)) => ActionView::RunSpecial(e),
    }
}

/// Decides what an interaction does. A monologue says its next line, which moves the
/// monologue on; the empty dialogue does nothing.
pub fn play_interactions<E: Copy>(input: Option<EntityInteraction<E>>, monologue_server: &mut MonologueServer) -> (action: InteractionAction<E>)
    requires
        old(monologue_server).wf(),
        input matches Some(EntityInteraction::Monologue(id)) ==> old(monologue_server).lines(id).len() > 0,
    ensures
        final(monologue_server).wf(),
        match input {
            Some(EntityInteraction::Monologue(id)) => {
                &&& action.view() == interaction_action(
                    Some(InteractionView::<E>::Monologue(id)),
                    old(monologue_server).lines(id)[old(monologue_server).position(id) as int],
                )
                &&& final(monologue_server).position(id) == monologue::next_position(
                    old(monologue_server).position(id),
                    old(monologue_server).lines(id).len(),
                    old(monologue_server).loop_index(id),
                )
                &&& forall|other: MonologueId| other != id ==> final(monologue_server).position(other) == old(monologue_server).position(other)
            },
            _ => {
                &&& action.view() == interaction_action(
                    match input { Some(i) => Some(i.view()), None => None },
                    Seq::empty(),
                )
                &&& forall|any: MonologueId| final(monologue_server).position(any) == old(monologue_server).position(any)
            },
        },
        forall|any: MonologueId| final(monologue_server).lines(any) == old(monologue_server).lines(any)
            && final(monologue_server).loop_index(any) == old(monologue_server).loop_index(any),
{
    match input {
        None => InteractionAction::Nothing,
        Some(EntityInteraction::Text(text)) => InteractionAction::ShowText(text),
        Some(EntityInteraction::Monologue(id)) => {
            let line = monologue_server.next_line(&id);
            InteractionAction::ShowText(line)
        },
        Some(EntityInteraction::Dialogue(id)) => {
            if id == DialogueId::Empty {
                InteractionAction::Nothing
            } else {
                InteractionAction::StartDialogue(id)
            }
        },
        Some(EntityInteraction::Special(entity)) => InteractionAction::RunSpecial(entity),
    }
}

/// A dialogue attached to an entity plays only once: the interaction left on the entity
/// after it was handed out does nothing when played.
pub proof fn lemma_dialogue_plays_once<E>(id: DialogueId, line: Seq<char>)
    ensures
        interaction_action(Some(taken_interaction::<E>(InteractionView::Dialogue(id)).0), line)
            == (if id == DialogueId::Empty { ActionView::<E>::Nothing } else { ActionView::<E>::StartDialogue(id) }),
        interaction_action(Some(taken_interaction::<E>(InteractionView::Dialogue(id)).1), line)
            == ActionView::<E>::Nothing,
{
}

/// The characters that speak in dialogues.
#[derive(Debug, Clone, Copy, PartialEq, Eq, Structural)]
pub enum Character {
    Nobody,
    Unknown,
    Bucko,
    Ninjucko,
    Wizucko,
    Bartucko,
    Brock,
    Maducko,
    Cowbucko,
}

/// The name a character is shown with.
pub open spec fn character_name(c: Character) -> Seq<char> {
    match c {
        Character::Nobody => "None"@,
        Character::Unknown => "???"@,
        Character::Bucko => "Bucko"@,
        Character::Ninjucko => "Ninjucko"@,
        Character::Wizucko => "Wizucko"@,
        Character::Bartucko => "Bartucko"@,
        Character::Brock => "Bane \"The Brock\" Bronson"@,
        Character::Maducko => "Maducko"@,
        Character::Cowbucko => "Cowbucko"@,
    }
}

impl Character {
    /// The name the character is shown with: an unknown speaker is "???", Brock goes by
    /// his full name, the others by their own.
    pub fn to_display_string(&self) -> (s: String)
        ensures
            s@ == character_name(*self),
    {
        match self {
            Character::Nobody => String::from_str("None"),
            Character::Unknown => String::from_str("???"),
            Character::Bucko => String::from_str("Bucko"),
            Character::Ninjucko => String::from_str("Ninjucko"),
            Character::Wizucko => String::from_str("Wizucko"),
            Character::Bartucko => String::from_str("Bartucko"),
            Character::Brock => String::from_str("Bane \"The Brock\" Bronson"),
            Character::Maducko => String::from_str("Maducko"),
            Character::Cowbucko => String::from_str("Cowbucko"),
        }
    }

    /// The character used when none is given.
    pub fn default_character() -> (c: Character)
        ensures
            c == Character::Nobody,
    {
        Character::Nobody
    }
}

/// What pressing the advance key does to the interaction text.
#[derive(Debug, Clone, Copy, PartialEq, Eq, Structural)]
pub enum TextAdvance {
    /// The text is still being typed out: show all of it at once.
    SkipAnimation,
    /// The text is complete: move on.
    Advance,
}

/// Pressing the advance key first completes a text still being typed out (or waiting to
/// start), and only then moves on.
pub fn advance_interaction_text(animator_playing: bool, animator_waiting: bool) -> (a: TextAdvance)
    ensures
        a == (if animator_playing || animator_waiting { TextAdvance::SkipAnimation } else { TextAdvance::Advance }),
{
    if animator_playing || animator_waiting {
        TextAdvance::SkipAnimation
    } else {
        TextAdvance::Advance
    }
}

} // verus!
