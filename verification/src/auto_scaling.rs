use vstd::prelude::*;

verus! {

/// Scales the view of the cameras that have a fixed aspect ratio to fit the window, and
/// the user interface to its logical size when one is given. The scaling itself works on
/// window sizes in floating point and is done by the application around this library.
#[derive(Debug, Clone, Copy, PartialEq, Eq)]
pub struct ScalePlugin;

} // verus!
