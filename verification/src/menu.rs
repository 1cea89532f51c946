use vstd::prelude::*;
use vstd::string::*;

use crate::app_state::AppState;
use crate::progress::{Progress, ProgressStorage, ProgressView, SaveSlot, slot_view};

verus! {

/// The pages of the main menu.
#[derive(Debug, Clone, Copy, PartialEq, Eq, Hash, Structural)]
pub enum MenuState {
    Main,
    Settings,
    Data,
    Fading,
}

/// What a navigation button does.
#[derive(Debug, Clone, Copy, PartialEq, Eq, Structural)]
pub enum NavigationAction {
    Play,
    Settings,
    Quit,
    MainMenu,
}

/// Where a pressed navigation button leads.
#[derive(Debug, Clone, Copy, PartialEq, Eq, Structural)]
pub enum Navigation {
    /// Show this menu page.
    Page(MenuState),
    /// Quit the application.
    Exit,
}

/// Play leads to the save slots, Settings to the settings, Back to the main page, and Quit
/// out of the application.
pub fn navigation_action(action: NavigationAction) -> (n: Navigation)
    ensures
        n == match action {
            NavigationAction::Play => Navigation::Page(MenuState::Data),
            NavigationAction::Settings => Navigation::Page(MenuState::Settings),
            NavigationAction::Quit => Navigation::Exit,
            NavigationAction::MainMenu => Navigation::Page(MenuState::Main),
        },
{
    match action {
        NavigationAction::Play => Navigation::Page(MenuState::Data),
        NavigationAction::Settings => Navigation::Page(MenuState::Settings),
        NavigationAction::Quit => Navigation::Exit,
        NavigationAction::MainMenu => Navigation::Page(MenuState::Main),
    }
}

/// The pointer's relation to a button.
#[derive(Debug, Clone, Copy, PartialEq, Eq, Structural)]
pub enum ButtonInteraction {
    Pressed,
    Hovered,
    Untouched,
}

/// The colours of a menu button.
#[derive(Debug, Clone, Copy, PartialEq, Eq, Structural)]
pub enum ButtonColor {
    Normal,
    Hovered,
    HoveredPressed,
    Pressed,
}

/// A pressed button, or an untouched selected one, looks pressed; a hovered one looks
/// hovered, with the pressed tint when it is selected; an untouched unselected one looks
/// normal.
pub fn update_button_color(interaction: ButtonInteraction, selected: bool) -> (c: ButtonColor)
    ensures
        c == match (interaction, selected) {
            (ButtonInteraction::Pressed, _) => ButtonColor::Pressed,
            (ButtonInteraction::Untouched, true) => ButtonColor::Pressed,
            (ButtonInteraction::Hovered, true) => ButtonColor::HoveredPressed,
            (ButtonInteraction::Hovered, false) => ButtonColor::Hovered,
            (ButtonInteraction::Untouched, false) => ButtonColor::Normal,
        },
{
    match (interaction, selected) {
        (ButtonInteraction::Pressed, _) | (ButtonInteraction::Untouched, true) => ButtonColor::Pressed,
        (ButtonInteraction::Hovered, true) => ButtonColor::HoveredPressed,
        (ButtonInteraction::Hovered, false) => ButtonColor::Hovered,
        (ButtonInteraction::Untouched, false) => ButtonColor::Normal,
    }
}

/// The settings chosen with a row of radio buttons.
#[derive(Debug, Clone, Copy, PartialEq, Eq, Structural)]
pub enum RadioSetting {
    Sound,
    Music,
}

/// Highest volume step of a radio row; the steps run from 0 to this, in tenths.
pub const VOLUME_STEPS: u32 = 10;

/// The selected button of each radio row, by its step, where one is selected.
#[derive(Debug, Clone, Copy, PartialEq, Eq, Structural)]
pub struct RadioSelection {
    pub sound: Option<u32>,
    pub music: Option<u32>,
}

impl RadioSelection {
    /// The selected step of a row.
    pub open spec fn selected(self, setting: RadioSetting) -> Option<u32> {
        match setting {
            RadioSetting::Sound => self.sound,
            RadioSetting::Music => self.music,
        }
    }

    /// The same selection with `step` selected in the row of `setting`.
    pub open spec fn with(self, setting: RadioSetting, step: u32) -> RadioSelection {
        match setting {
            RadioSetting::Sound => RadioSelection { sound: Some(step), ..self },
            RadioSetting::Music => RadioSelection { music: Some(step), ..self },
        }
    }
}

/// A pressed radio button takes the selection of its row from the button selected before,
/// which is answered so that it can be shown unselected. Pressing the selected button, or
/// a button of a row with no selection, changes nothing.
pub fn update_radio_buttons(selection: &mut RadioSelection, setting: RadioSetting, step: u32) -> (deselected: Option<u32>)
    ensures
        match old(selection).selected(setting) {
            Some(previous) => if previous != step {
                &&& deselected == Some(previous)
                &&& *final(selection) == old(selection).with(setting, step)
            } else {
                &&& deselected is None
                &&& *final(selection) == *old(selection)
            },
            None => deselected is None && *final(selection) == *old(selection),
        },
{
    let previous = match setting {
        RadioSetting::Sound => selection.sound,
        RadioSetting::Music => selection.music,
    };
    match previous {
        Some(p) => {
            if p != step {
                match setting {
                    RadioSetting::Sound => selection.sound = Some(step),
                    RadioSetting::Music => selection.music = Some(step),
                }
                Some(p)
            } else {
                None
            }
        },
        None => None,
    }
}

/// The playthrough a save slot starts: the saved one, or a fresh one for an empty slot.
pub fn setup_progress(storage: &ProgressStorage, slot: SaveSlot) -> (p: Progress)
    requires
        storage.wf(),
    ensures
        p.wf(),
        storage.view()[slot.spec_index() as int] matches Some(saved) ==> p.view() == saved,
        storage.view()[slot.spec_index() as int] is None ==> p.view() == Progress::new_view(),
{
    match storage.get_slot(slot) {
        Some(progress) => progress.duplicate(),
        None => Progress::new(),
    }
}

/// The state the game starts in once the menu faded out.
pub fn start_game() -> (s: AppState)
    ensures
        s == (AppState::Game { paused: false, can_move: false }),
{
    crate::app_state::start_game()
}

/// The decimal digits, in order.
pub open spec fn digits() -> Seq<char> {
    "0123456789"@
}

/// The decimal representation of `n`, without leading zeros.
pub open spec fn decimal(n: nat) -> Seq<char>
    decreases n,
{
    if n < 10 {
        seq![digits()[n as int]]
    } else {
        decimal(n / 10) + seq![digits()[(n % 10) as int]]
    }
}

/// The decimal representation of `n`, padded with a zero to at least two digits.
pub open spec fn two_digits(n: nat) -> Seq<char> {
    if n < 10 {
        seq![digits()[0], digits()[n as int]]
    } else {
        decimal(n)
    }
}

/// The time played as shown on a save slot: hours, minutes and seconds, each at least two
/// digits, separated by colons.
pub open spec fn time_text(seconds: nat) -> Seq<char> {
    let minutes = seconds / 60;
    let hours = minutes / 60;
    two_digits(hours) + ":"@ + two_digits(minutes % 60) + ":"@ + two_digits(seconds % 60)
}

fn push_digit(s: &mut String, d: u64)
    requires
        d < 10,
    ensures
        final(s)@ == old(s)@ + seq![digits()[d as int]],
{
    let table = "0123456789";
    proof {
        reveal_strlit("0123456789");
    }
    let piece = table.substring_char(d as usize, (d + 1) as usize);
    s.append(piece);
    proof {
        assert(piece@ =~= seq![digits()[d as int]]);
    }
}

fn push_decimal(s: &mut String, n: u64)
    ensures
        final(s)@ == old(s)@ + decimal(n as nat),
    decreases n,
{
    if n >= 10 {
        push_decimal(s, n / 10);
    }
    push_digit(s, n % 10);
    assert(final(s)@ =~= old(s)@ + decimal(n as nat));
}

fn push_two_digits(s: &mut String, n: u64)
    ensures
        final(s)@ == old(s)@ + two_digits(n as nat),
{
    if n < 10 {
        push_digit(s, 0);
        push_digit(s, n);
        assert(final(s)@ =~= old(s)@ + two_digits(n as nat));
    } else {
        push_decimal(s, n);
    }
}

/// The text shown on a save slot: its time played, or "Empty" when nothing is saved.
pub fn time_played_text(progress: Option<&Progress>) -> (s: String)
    ensures
        progress matches Some(p) ==> s@ == time_text(p.view().time_played_secs as nat),
        progress is None ==> s@ == "Empty"@,
{
    match progress {
        Some(p) => {
            let seconds = p.time_played_secs();
            let minutes = seconds / 60;
            let hours = minutes / 60;
            let mut s = String::new();
            push_two_digits(&mut s, hours);
            s.append(":");
            push_two_digits(&mut s, minutes % 60);
            s.append(":");
            push_two_digits(&mut s, seconds % 60);
            proof {
                assert(s@ =~= time_text(seconds as nat));
            }
            s
        },
        None => String::from_str("Empty"),
    }
}


/// Selecting a step in one row selects exactly that step there and leaves the other row's
/// selection as it was.
pub proof fn lemma_selection_stays_in_its_row(selection: RadioSelection, setting: RadioSetting, step: u32)
    ensures
        setting == RadioSetting::Music ==> selection.with(setting, step).music == Some(step)
            && selection.with(setting, step).sound == selection.sound,
        setting == RadioSetting::Sound ==> selection.with(setting, step).sound == Some(step)
            && selection.with(setting, step).music == selection.music,
        selection.selected(RadioSetting::Music) == selection.music,
        selection.selected(RadioSetting::Sound) == selection.sound,
{
}

} // verus!
