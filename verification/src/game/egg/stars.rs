use vstd::prelude::*;

verus! {

/// Stars in the sky around the egg.
pub const MAX_STAR_AMOUNT: usize = 1024;
/// Stars that stay put; the others drift by.
pub const BACK_STAR_AMOUNT: usize = 768;
/// Brightness levels of the stars.
pub const LUMINANCE_LEVELS: usize = 4;

/// How a star is made.
#[derive(Debug, Clone, Copy, PartialEq, Eq, Structural)]
pub struct StarKind {
    /// Whether the star stays put; otherwise it drifts at a random speed.
    pub is_static: bool,
    /// Whether the star starts at a random height; otherwise it starts at the top.
    pub random_height: bool,
    /// Its brightness level.
    pub luminance_level: usize,
}

/// The `count`-th star made, given the random number drawn for its brightness: the first
/// stars are fixed, the others drift; the stars of the first sky start anywhere, the ones
/// that replace fallen stars start at the top; the brightness is the random number modulo
/// the number of levels.
pub fn generate_star(count: usize, random: u32) -> (k: StarKind)
    ensures
        k.is_static == (count < BACK_STAR_AMOUNT),
        k.random_height == (count < MAX_STAR_AMOUNT),
        k.luminance_level == random as usize % LUMINANCE_LEVELS,
        k.luminance_level < LUMINANCE_LEVELS,
{
    StarKind {
        is_static: count < BACK_STAR_AMOUNT,
        random_height: count < MAX_STAR_AMOUNT,
        luminance_level: random as usize % LUMINANCE_LEVELS,
    }
}

} // verus!
