pub mod bones;
pub mod egg;
pub mod interactions;
pub mod topdown;

use vstd::prelude::*;

verus! {

/// The scenes of the game.
#[derive(Debug, Clone, Copy, PartialEq, Eq, Hash, Structural)]
pub enum GameState {
    Egg,
    TopDown,
    Bones,
}

/// The state of a key on this frame.
#[derive(Debug, Clone, Copy, PartialEq, Eq, Structural)]
pub enum KeyState {
    Press,
    Hold,
    Release,
    Off,
}

/// The state of a key from what the input reports: a fresh press wins over a held key,
/// which wins over a release.
pub fn key_state(just_pressed: bool, pressed: bool, just_released: bool) -> (k: KeyState)
    ensures
        k == (if just_pressed {
            KeyState::Press
        } else if pressed {
            KeyState::Hold
        } else if just_released {
            KeyState::Release
        } else {
            KeyState::Off
        }),
{
    if just_pressed {
        KeyState::Press
    } else if pressed {
        KeyState::Hold
    } else if just_released {
        KeyState::Release
    } else {
        KeyState::Off
    }
}

/// Whether the key went down on this frame.
pub fn just_pressed(k: KeyState) -> (r: bool)
    ensures
        r == (k == KeyState::Press),
{
    match k {
        KeyState::Press => true,
        _ => false,
    }
}

/// Whether the key is down on this frame.
pub fn pressing(k: KeyState) -> (r: bool)
    ensures
        r == (k == KeyState::Press || k == KeyState::Hold),
{
    match k {
        KeyState::Press | KeyState::Hold => true,
        _ => false,
    }
}

/// The eight directions the movement keys can point to.
#[derive(Debug, Clone, Copy, PartialEq, Eq, Structural)]
pub enum Direction {
    East,
    NorthEast,
    North,
    NorthWest,
    West,
    SouthWest,
    South,
    SouthEast,
}

/// The direction of a movement vector with components in -1..=1, if it is not zero.
pub open spec fn direction_of(x: int, y: int) -> Option<Direction> {
    if x > 0 && y == 0 {
        Some(Direction::East)
    } else if x > 0 && y > 0 {
        Some(Direction::NorthEast)
    } else if x == 0 && y > 0 {
        Some(Direction::North)
    } else if x < 0 && y > 0 {
        Some(Direction::NorthWest)
    } else if x < 0 && y == 0 {
        Some(Direction::West)
    } else if x < 0 && y < 0 {
        Some(Direction::SouthWest)
    } else if x == 0 && y < 0 {
        Some(Direction::South)
    } else if x > 0 && y < 0 {
        Some(Direction::SouthEast)
    } else {
        None
    }
}

/// Whether a direction has a component towards the east.
pub open spec fn points_east(d: Direction) -> bool {
    d == Direction::East || d == Direction::NorthEast || d == Direction::SouthEast
}

/// Whether a direction has a component towards the west.
pub open spec fn points_west(d: Direction) -> bool {
    d == Direction::West || d == Direction::NorthWest || d == Direction::SouthWest
}

/// The direction of a movement vector with components in -1..=1, if it is not zero.
pub fn direction(x: i8, y: i8) -> (d: Option<Direction>)
    ensures
        d == direction_of(x as int, y as int),
{
    if x > 0 && y == 0 {
        Some(Direction::East)
    } else if x > 0 && y > 0 {
        Some(Direction::NorthEast)
    } else if x == 0 && y > 0 {
        Some(Direction::North)
    } else if x < 0 && y > 0 {
        Some(Direction::NorthWest)
    } else if x < 0 && y == 0 {
        Some(Direction::West)
    } else if x < 0 && y < 0 {
        Some(Direction::SouthWest)
    } else if x == 0 && y < 0 {
        Some(Direction::South)
    } else if x > 0 && y < 0 {
        Some(Direction::SouthEast)
    } else {
        None
    }
}

/// The movement keys held on this frame.
#[derive(Debug, Clone, Copy, PartialEq, Eq, Structural)]
pub struct MovementKeys {
    pub up: bool,
    pub down: bool,
    pub left: bool,
    pub right: bool,
}

/// The player's input, read once per frame.
#[derive(Debug, Clone, Copy, PartialEq, Eq, Structural)]
pub struct UserInput {
    /// Horizontal movement: 1 right, -1 left, 0 neither or both.
    pub raw_x: i8,
    /// Vertical movement: 1 up, -1 down, 0 neither or both.
    pub raw_y: i8,
    /// The last direction moved in, kept while no movement key is held.
    pub last_valid_direction: Direction,
    pub jump: KeyState,
    pub swap: KeyState,
    pub interact: KeyState,
}

/// A held key counts as one step along its axis.
pub open spec fn axis(positive: bool, negative: bool) -> int {
    (if positive { 1int } else { 0int }) - (if negative { 1int } else { 0int })
}

impl UserInput {
    /// No movement, facing east, no key down.
    pub fn new() -> (u: UserInput)
        ensures
            u == (UserInput {
                raw_x: 0,
                raw_y: 0,
                last_valid_direction: Direction::East,
                jump: KeyState::Off,
                swap: KeyState::Off,
                interact: KeyState::Off,
            }),
    {
        UserInput {
            raw_x: 0,
            raw_y: 0,
            last_valid_direction: Direction::East,
            jump: KeyState::Off,
            swap: KeyState::Off,
            interact: KeyState::Off,
        }
    }

    /// Whether a movement key pushes the player this frame.
    pub fn moving(&self) -> (r: bool)
        ensures
            r == (self.raw_x != 0 || self.raw_y != 0),
    {
        self.raw_x != 0 || self.raw_y != 0
    }
}

/// Reads this frame's input: opposite movement keys cancel out, the direction is updated
/// only while the movement is not zero, and the action keys take their new states.
pub fn get_user_input(user_input: &mut UserInput, keys: MovementKeys, jump: KeyState, swap: KeyState, interact: KeyState)
    ensures
        final(user_input).raw_x == axis(keys.right, keys.left),
        final(user_input).raw_y == axis(keys.up, keys.down),
        final(user_input).last_valid_direction == match direction_of(
            axis(keys.right, keys.left),
            axis(keys.up, keys.down),
        ) {
            Some(d) => d,
            None => old(user_input).last_valid_direction,
        },
        final(user_input).jump == jump,
        final(user_input).swap == swap,
        final(user_input).interact == interact,
{
    let mut x: i8 = 0;
    let mut y: i8 = 0;
    if keys.up {
        y = y + 1;
    }
    if keys.down {
        y = y - 1;
    }
    if keys.right {
        x = x + 1;
    }
    if keys.left {
        x = x - 1;
    }
    user_input.raw_x = x;
    user_input.raw_y = y;
    if let Some(d) = direction(x, y) {
        user_input.last_valid_direction = d;
    }
    user_input.jump = jump;
    user_input.swap = swap;
    user_input.interact = interact;
}

/// Number of consecutive empty frames the asset tracker waits before reporting ready.
pub const CONFIRMATION_FRAMES: u8 = 4;

/// The assets kept when the loaded ones are dropped.
pub open spec fn still_loading<H>(assets: Seq<H>, loaded: Seq<bool>) -> Seq<H>
    decreases assets.len(),
{
    if assets.len() == 0 {
        seq![]
    } else {
        (if loaded[0] { seq![] } else { seq![assets[0]] }) + still_loading(assets.drop_first(), loaded.drop_first())
    }
}

/// Assets that a scene waits for before it starts.
#[derive(Debug)]
pub struct AssetTracker<H> {
    assets: Vec<H>,
    count: u8,
}

impl<H> AssetTracker<H> {
    /// The assets still waited for.
    pub closed spec fn pending(&self) -> Seq<H> {
        self.assets@
    }

    /// Consecutive frames seen with nothing left to wait for.
    pub closed spec fn empty_frames(&self) -> nat {
        self.count as nat
    }

    /// The count of empty frames stays below the confirmation threshold.
    pub closed spec fn wf(&self) -> bool {
        self.count < CONFIRMATION_FRAMES
    }

    /// A tracker waiting for nothing.
    pub fn new() -> (t: AssetTracker<H>)
        ensures
            t.wf(),
            t.pending() == Seq::<H>::empty(),
            t.empty_frames() == 0,
    {
        AssetTracker { assets: Vec::new(), count: 0 }
    }

    /// Waits for one more asset.
    pub fn push(&mut self, asset: H)
        requires
            old(self).wf(),
        ensures
            final(self).wf(),
            final(self).pending() == old(self).pending().push(asset),
            final(self).empty_frames() == old(self).empty_frames(),
    {
        self.assets.push(asset);
    }

    /// The assets still waited for.
    pub fn assets(&self) -> (a: &Vec<H>)
        ensures
            a@ == self.pending(),
    {
        &self.assets
    }

    /// Checks the tracker once per frame, given which pending assets finished loading.
    /// While anything is pending, the loaded ones are dropped and the answer is no. Once
    /// nothing is pending, the answer is yes on every fourth consecutive frame.
    pub fn is_ready(&mut self, loaded: &Vec<bool>) -> (ready: bool)
        requires
            old(self).wf(),
            loaded@.len() == old(self).pending().len(),
        ensures
            final(self).wf(),
            old(self).pending().len() > 0 ==> !ready && final(self).empty_frames() == 0
                && final(self).pending() == still_loading(old(self).pending(), loaded@),
            old(self).pending().len() == 0 ==> final(self).pending() == old(self).pending()
                && (ready, final(self).empty_frames()) == empty_frame(old(self).empty_frames()),
    {
        if self.assets.len() > 0 {
            self.count = 0;
            let ghost a = self.assets@;
            let mut i = self.assets.len();
            assert(a.skip(i as int) =~= Seq::<H>::empty());
            assert(self.assets@ =~= a.take(i as int) + still_loading(a.skip(i as int), loaded@.skip(i as int)));
            while i > 0
                invariant
                    i <= a.len(),
                    a.len() == loaded@.len(),
                    self.assets@ == a.take(i as int) + still_loading(a.skip(i as int), loaded@.skip(i as int)),
                    self.count == 0,
                decreases i,
            {
                i = i - 1;
                proof {
                    assert(a.skip(i as int).drop_first() =~= a.skip(i + 1));
                    assert(loaded@.skip(i as int).drop_first() =~= loaded@.skip(i + 1));
                    assert(a.skip(i as int)[0] == a[i as int]);
                    assert(loaded@.skip(i as int)[0] == loaded@[i as int]);
                }
                if loaded[i] {
                    let _ = self.assets.remove(i);
                    proof {
                        assert(self.assets@ =~= a.take(i as int) + still_loading(a.skip(i as int), loaded@.skip(i as int)));
                    }
                } else {
                    proof {
                        assert(a.take(i + 1) =~= a.take(i as int).push(a[i as int]));
                        assert(self.assets@ =~= a.take(i as int) + still_loading(a.skip(i as int), loaded@.skip(i as int)));
                    }
                }
            }
            assert(a.skip(0) =~= a);
            assert(loaded@.skip(0) =~= loaded@);
            assert(a.take(0) =~= Seq::<H>::empty());
            assert(self.assets@ =~= still_loading(a, loaded@));
            false
        } else {
            self.count = self.count + 1;
            if self.count == CONFIRMATION_FRAMES {
                self.count = 0;
                true
            } else {
                false
            }
        }
    }
}

/// One check of a tracker with nothing pending that has seen `count` empty frames: whether
/// it reports ready, and the new count.
pub open spec fn empty_frame(count: nat) -> (bool, nat) {
    if count + 1 == CONFIRMATION_FRAMES {
        (true, 0)
    } else {
        (false, count + 1)
    }
}

/// With nothing to wait for, a tracker that starts counting reports ready on the fourth
/// check and not before, and then starts counting again.
pub proof fn lemma_ready_after_confirmation()
    ensures
        empty_frame(0) == (false, 1nat),
        empty_frame(1) == (false, 2nat),
        empty_frame(2) == (false, 3nat),
        empty_frame(3) == (true, 0nat),
{
}

} // verus!
