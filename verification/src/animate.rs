//! How an animation runs from its start to its end.

use vstd::prelude::*;

verus! {

/// The curve along which an animated value travels while its timer runs.
///
/// The curves themselves are drawn by the front end, which has the arithmetic
/// for them; the rules only carry the choice.
#[derive(Clone, Copy, PartialEq, Eq, Structural, Debug)]
pub enum Ease {
    /// At a steady pace.
    Linear,
    /// Slow, then fast, then slow, along two quarter circles.
    InOutCirc,
    /// Past the end and back to it.
    OutBack,
}

} // verus!
