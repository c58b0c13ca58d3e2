//! Typed domain values: pure value objects the call catalogue takes and
//! returns. They carry no behaviour of their own.

use vstd::prelude::*;
use vstd::string::StringExecFns;

verus! {

/// A screen coordinate.
#[derive(Debug, Clone, Copy, PartialEq, Eq, Structural)]
pub struct Point {
    pub x: i64,
    pub y: i64,
}

/// A rectangle given by two corners.
#[derive(Debug, Clone, Copy, PartialEq, Eq, Structural)]
pub struct Rect {
    pub x1: i64,
    pub y1: i64,
    pub x2: i64,
    pub y2: i64,
}

/// The extra options of a picture search. The similarity threshold runs from
/// zero to one and is held in thousandths, so that the bridge stays free of
/// floating point; one thousand means a threshold of one.
#[derive(Debug, Clone, PartialEq)]
pub struct FindPicOptions {
    pub delta_color: String,
    pub sim_milli: u32,
    pub dir: u8,
}

impl Default for FindPicOptions {
    /// No colour tolerance, a similarity threshold of nine tenths, and the
    /// default search direction.
    fn default() -> (r: Self)
        ensures
            r.delta_color@ == "000000"@,
            r.sim_milli == 900,
            r.dir == 0,
    {
        FindPicOptions { delta_color: String::from_str("000000"), sim_milli: 900, dir: 0 }
    }
}

} // verus!
