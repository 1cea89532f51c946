use vstd::prelude::*;

use crate::animation::{SpriteAnimation, animation_spec, frame_spec, looped};
use crate::game::{Direction, direction_of, points_east, points_west};

verus! {

/// Number of top-down maps.
pub const TOTAL_TOPDOWN_MAPS: usize = 7;

/// The top-down maps, in the order of the map table.
#[derive(Debug, Clone, Copy, PartialEq, Eq, Structural)]
pub enum TopdownMapIndex {
    Mountain,
    Backyard,
    Fields,
    Forest,
    Buckotown,
    Farm,
    Beach,
}

impl TopdownMapIndex {
    /// Position of the map in the map table.
    pub open spec fn spec_index(self) -> nat {
        match self {
            TopdownMapIndex::Mountain => 0,
            TopdownMapIndex::Backyard => 1,
            TopdownMapIndex::Fields => 2,
            TopdownMapIndex::Forest => 3,
            TopdownMapIndex::Buckotown => 4,
            TopdownMapIndex::Farm => 5,
            TopdownMapIndex::Beach => 6,
        }
    }

    /// Position of the map in the map table.
    pub fn index(&self) -> (i: usize)
        ensures
            i == self.spec_index(),
            i < TOTAL_TOPDOWN_MAPS,
    {
        match self {
            TopdownMapIndex::Mountain => 0,
            TopdownMapIndex::Backyard => 1,
            TopdownMapIndex::Fields => 2,
            TopdownMapIndex::Forest => 3,
            TopdownMapIndex::Buckotown => 4,
            TopdownMapIndex::Farm => 5,
            TopdownMapIndex::Beach => 6,
        }
    }

    /// The map the game starts on.
    pub fn default_map() -> (m: TopdownMapIndex)
        ensures
            m == TopdownMapIndex::Mountain,
    {
        TopdownMapIndex::Mountain
    }
}


/// Whether a tile lies within a map, by `TilePos::within_map_bounds` of bevy_ecs_tilemap,
/// whose source compares each coordinate with the map size in that direction.
#[verifier::external_body]
fn within_map_bounds(tile_x: u32, tile_y: u32, map_width: u32, map_height: u32) -> (r: bool)
    ensures
        r == (tile_x < map_width && tile_y < map_height),
{
    bevy_ecs_tilemap::tiles::TilePos::new(tile_x, tile_y).within_map_bounds(
        &bevy_ecs_tilemap::map::TilemapSize { x: map_width, y: map_height },
    )
}

/// The tile under the player, given the tile the player's position falls on counted from
/// the map's corner: that tile if it lies within the map, none otherwise.
pub fn get_tile_pos(tile_x: u32, tile_y: u32, map_width: u32, map_height: u32) -> (t: Option<(u32, u32)>)
    ensures
        t == (if tile_x < map_width && tile_y < map_height { Some((tile_x, tile_y)) } else { None }),
{
    if within_map_bounds(tile_x, tile_y, map_width, map_height) {
        Some((tile_x, tile_y))
    } else {
        None
    }
}

/// The phases of the top-down scene.
#[derive(Debug, Clone, Copy, PartialEq, Eq, Hash, Structural)]
pub enum TopDownState {
    Loading,
    Ready,
    Warping,
}

/// The map is ready once it was created; then the scene starts and movement is allowed.
pub fn wait_for_ready(map_ready: bool) -> (next: Option<TopDownState>)
    ensures
        next == (if map_ready { Some(TopDownState::Ready) } else { None }),
{
    if map_ready {
        Some(TopDownState::Ready)
    } else {
        None
    }
}

/// The stages of a hop.
#[derive(Debug, Clone, Copy, PartialEq, Eq, Structural)]
pub enum HopState {
    Ready,
    Charging,
    Airborne,
    Landing,
    Landed,
    Idle,
}

/// The stage that follows each stage of a hop; an idle player stays idle.
pub open spec fn next_hop(h: HopState) -> HopState {
    match h {
        HopState::Ready => HopState::Charging,
        HopState::Charging => HopState::Airborne,
        HopState::Airborne => HopState::Landing,
        HopState::Landing => HopState::Landed,
        HopState::Landed => HopState::Idle,
        HopState::Idle => HopState::Idle,
    }
}

/// The stage after `k` steps.
pub open spec fn hop_after(h: HopState, k: nat) -> HopState
    decreases k,
{
    if k == 0 {
        h
    } else {
        hop_after(next_hop(h), (k - 1) as nat)
    }
}

impl HopState {
    /// Moves on to the next stage of the hop.
    pub fn cycle_state(&mut self)
        ensures
            *final(self) == next_hop(*old(self)),
    {
        *self = match *self {
            HopState::Ready => HopState::Charging,
            HopState::Charging => HopState::Airborne,
            HopState::Airborne => HopState::Landing,
            HopState::Landing => HopState::Landed,
            HopState::Landed => HopState::Idle,
            HopState::Idle => HopState::Idle,
        };
    }
}

/// Every hop ends: from any stage, five steps reach the idle stage, and an idle player
/// stays idle.
pub proof fn lemma_hop_ends(h: HopState, k: nat)
    ensures
        hop_after(h, 5 + k) == HopState::Idle,
    decreases k,
{
    reveal_with_fuel(hop_after, 6);
    if k > 0 {
        assert(hop_after(h, 5 + k) == hop_after(next_hop(h), (4 + k) as nat));
        lemma_hop_ends(next_hop(h), (k - 1) as nat);
        assert((4 + k) as nat == 5 + (k - 1) as nat);
    }
}

/// An idle player starts a hop when a movement key is held.
pub fn player_hop(hop_state: &mut HopState, moving: bool) -> (started: bool)
    ensures
        started == (*old(hop_state) == HopState::Idle && moving),
        *final(hop_state) == (if started { HopState::Ready } else { *old(hop_state) }),
{
    if *hop_state == HopState::Idle && moving {
        *hop_state = HopState::Ready;
        true
    } else {
        false
    }
}

/// When an animation of the player ends: entering or leaving water cuts the hop short
/// (and splashes), and the hop moves on a stage.
pub fn update_player_animations(hop_state: &mut HopState, submerged_changed: bool) -> (splash: bool)
    ensures
        splash == submerged_changed,
        *final(hop_state) == next_hop(if submerged_changed { HopState::Idle } else { *old(hop_state) }),
{
    if submerged_changed {
        *hop_state = HopState::Idle;
    }
    hop_state.cycle_state();
    submerged_changed
}

/// Frames per row of the hop sprite sheet.
pub const HOP_SPRITES_PER_ROW: usize = 8;

/// What a stage of the hop shows and does.
#[derive(Debug, Clone, Copy, PartialEq, Eq, Structural)]
pub struct HopFrames {
    pub animation: SpriteAnimation,
    /// Whether the player is pushed along the facing direction.
    pub impulse: bool,
}

/// The sprite-sheet row offset for the direction of a hop: east-facing on the first row,
/// west-facing on the second, straight up or down keeps the row.
pub open spec fn hop_row_offset(previous: usize, d: Direction) -> usize {
    if points_east(d) {
        0
    } else if points_west(d) {
        HOP_SPRITES_PER_ROW
    } else {
        previous
    }
}

/// The animation of each stage of a hop on the row of its direction: a still frame to
/// get ready, two frames of charging, three in the air with a push, two of landing, and a
/// still frame once landed. The row is chosen when the hop gets ready.
pub fn update_player_hop(hop_state: HopState, direction: Direction, index_offset: &mut usize) -> (r: Option<HopFrames>)
    requires
        *old(index_offset) == 0 || *old(index_offset) == HOP_SPRITES_PER_ROW,
    ensures
        *final(index_offset) == 0 || *final(index_offset) == HOP_SPRITES_PER_ROW,
        *final(index_offset) == (if hop_state == HopState::Ready { hop_row_offset(*old(index_offset), direction) } else { *old(index_offset) }),
        r == match hop_state {
            HopState::Ready => Some(HopFrames { animation: frame_spec(*final(index_offset)), impulse: false }),
            HopState::Charging => Some(HopFrames { animation: animation_spec((1 + *final(index_offset)) as usize, (2 + *final(index_offset)) as usize, 12), impulse: false }),
            HopState::Airborne => Some(HopFrames { animation: animation_spec((3 + *final(index_offset)) as usize, (5 + *final(index_offset)) as usize, 12), impulse: true }),
            HopState::Landing => Some(HopFrames { animation: animation_spec((6 + *final(index_offset)) as usize, (7 + *final(index_offset)) as usize, 12), impulse: false }),
            HopState::Landed => Some(HopFrames { animation: frame_spec(*final(index_offset)), impulse: false }),
            HopState::Idle => None,
        },
{
    match hop_state {
        HopState::Ready => {
            match direction {
                Direction::East | Direction::NorthEast | Direction::SouthEast => { *index_offset = 0; },
                Direction::West | Direction::NorthWest | Direction::SouthWest => { *index_offset = HOP_SPRITES_PER_ROW; },
                _ => {},
            }
            Some(HopFrames { animation: SpriteAnimation::set_frame(*index_offset), impulse: false })
        },
        HopState::Charging => Some(HopFrames { animation: SpriteAnimation::new(1 + *index_offset, 2 + *index_offset, 12), impulse: false }),
        HopState::Airborne => Some(HopFrames { animation: SpriteAnimation::new(3 + *index_offset, 5 + *index_offset, 12), impulse: true }),
        HopState::Landing => Some(HopFrames { animation: SpriteAnimation::new(6 + *index_offset, 7 + *index_offset, 12), impulse: false }),
        HopState::Landed => Some(HopFrames { animation: SpriteAnimation::set_frame(*index_offset), impulse: false }),
        HopState::Idle => None,
    }
}

/// First frame of the east-facing swim animation.
pub const SWIM_EAST_OFFSET: usize = 16;
/// First frame of the west-facing swim animation.
pub const SWIM_WEST_OFFSET: usize = 20;

/// The swim animation's first frame for a direction: east-facing, west-facing, or the
/// previous one for straight up or down.
pub open spec fn swim_offset(previous: usize, d: Direction) -> usize {
    if points_east(d) {
        SWIM_EAST_OFFSET
    } else if points_west(d) {
        SWIM_WEST_OFFSET
    } else {
        previous
    }
}

/// While submerged, the player swims: the looping four-frame swim animation of the facing
/// side restarts when the side changes or the player just entered the water. Before the
/// first swim the side is east.
pub fn player_swim(index_offset: &mut usize, direction: Direction, submerged_changed: bool) -> (a: Option<SpriteAnimation>)
    requires
        *old(index_offset) == 0 || *old(index_offset) == SWIM_EAST_OFFSET || *old(index_offset) == SWIM_WEST_OFFSET,
    ensures
        ({
            let previous = if *old(index_offset) == 0 { SWIM_EAST_OFFSET } else { *old(index_offset) };
            let new_offset = swim_offset(previous, direction);
            &&& *final(index_offset) == new_offset
            &&& a == (if new_offset != previous || submerged_changed {
                Some(looped(animation_spec(new_offset, (new_offset + 3) as usize, 8)))
            } else {
                None
            })
        }),
{
    if *index_offset == 0 {
        *index_offset = SWIM_EAST_OFFSET;
    }
    let new_offset = match direction {
        Direction::East | Direction::NorthEast | Direction::SouthEast => SWIM_EAST_OFFSET,
        Direction::West | Direction::NorthWest | Direction::SouthWest => SWIM_WEST_OFFSET,
        _ => *index_offset,
    };
    if new_offset != *index_offset || submerged_changed {
        *index_offset = new_offset;
        Some(SpriteAnimation::new(new_offset, new_offset + 3, 8).looping())
    } else {
        None
    }
}


/// The hop and swim rows follow the horizontal part of the movement: a movement with an
/// eastward component (east, north-east, south-east) uses the east-facing row, one with a
/// westward component the west-facing row, and straight up or down keeps the previous row.
pub proof fn lemma_rows_follow_movement(previous: usize, x: int, y: int)
    requires
        -1 <= x <= 1,
        -1 <= y <= 1,
        !(x == 0 && y == 0),
    ensures
        direction_of(x, y) is Some,
        x > 0 ==> hop_row_offset(previous, direction_of(x, y)->0) == 0
            && swim_offset(previous, direction_of(x, y)->0) == SWIM_EAST_OFFSET,
        x < 0 ==> hop_row_offset(previous, direction_of(x, y)->0) == HOP_SPRITES_PER_ROW
            && swim_offset(previous, direction_of(x, y)->0) == SWIM_WEST_OFFSET,
        x == 0 ==> hop_row_offset(previous, direction_of(x, y)->0) == previous
            && swim_offset(previous, direction_of(x, y)->0) == previous,
{
}

/// The same, by direction: every direction with an eastward component gives the east row,
/// every one with a westward component the west row, and north and south keep the row.
pub proof fn lemma_rows_by_direction(previous: usize, d: Direction)
    ensures
        (d == Direction::East || d == Direction::NorthEast || d == Direction::SouthEast)
            ==> hop_row_offset(previous, d) == 0 && swim_offset(previous, d) == SWIM_EAST_OFFSET,
        (d == Direction::West || d == Direction::NorthWest || d == Direction::SouthWest)
            ==> hop_row_offset(previous, d) == HOP_SPRITES_PER_ROW && swim_offset(previous, d) == SWIM_WEST_OFFSET,
        (d == Direction::North || d == Direction::South)
            ==> hop_row_offset(previous, d) == previous && swim_offset(previous, d) == previous,
{
}

} // verus!
