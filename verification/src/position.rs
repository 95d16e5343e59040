//! A trait handing out a default position through associated constants.

use vstd::prelude::*;
use crate::point::Point;

verus! {

/// Gives a type a default position. The associated constants default
/// to the origin; `default_pos` returns them as a pair.
pub trait DefaultPosition {
    const DEFAULT_X: i32 = 0;
    const DEFAULT_Y: i32 = 0;

    /// The default position as a pair: the two associated constants.
    fn default_pos() -> (p: (i32, i32))
        ensures
            p.0 == Self::DEFAULT_X,
            p.1 == Self::DEFAULT_Y,
    {
        (Self::DEFAULT_X, Self::DEFAULT_Y)
    }
}

impl DefaultPosition for Point {
}

} // verus!
