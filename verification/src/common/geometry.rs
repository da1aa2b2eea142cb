//! Arc direction of circular moves.

use vstd::prelude::*;

verus! {

/// Direction of a circular move (G2 clockwise, G3 counter-clockwise).
#[derive(Debug, Clone, Copy, PartialEq, Eq, Structural)]
pub enum ArcDirection {
    Clockwise,
    CounterClockwise,
}

/// Arc interpolation (the subdivision itself works on real numbers, outside this library).
#[derive(Debug, Clone, Copy)]
pub struct ArcGeometry;

} // verus!
