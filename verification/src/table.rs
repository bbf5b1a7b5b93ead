//! Data types of the lookup chip.

use vstd::prelude::*;

verus! {

/// One canonical `(x, y)` pair stored in the fixed table.
#[derive(Copy, Clone, Debug, PartialEq, Eq, Structural)]
pub struct TableRow {
    pub x: u8,
    pub y: u8,
}

impl TableRow {
    pub fn new(x: u8, y: u8) -> (r: Self)
        ensures
            r.x == x,
            r.y == y,
    {
        TableRow { x, y }
    }
}

/// One witnessed pair to be looked up. A component is `None` while the
/// verification key is being generated and no witness values exist yet.
#[derive(Clone, Debug, PartialEq, Eq)]
pub struct InputRow {
    pub x: Option<u8>,
    pub y: Option<u8>,
}

} // verus!
