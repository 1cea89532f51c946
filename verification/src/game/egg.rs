pub mod cracking;
pub mod stars;

use vstd::prelude::*;

verus! {

/// The phases of the egg scene.
#[derive(Debug, Clone, Copy, PartialEq, Eq, Hash, Structural)]
pub enum EggState {
    Loading,
    Ready,
    Cracking,
}

} // verus!
