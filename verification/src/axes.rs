//! Palm coordinates and the mappings of their axes: which stretch of each
//! axis a hand plays on, and what resolution it is mapped to.
//!
//! All lengths are in thousandths of the sensor's unit.

use crate::range::{remap, remap_spec};
use crate::sample::{thousandths, thousandths_spec};
use vstd::prelude::*;

verus! {

/// The resolution of a continuous parameter: fourteen bits.
pub const PARAM_MAX: i32 = 16383;

/// The number of notes above the lowest that a hand can reach.
pub const NOTE_MAX: i32 = 95;

/// The lowest note.
pub const NOTE_BASE: i32 = 32;

/// The number of velocities above the softest.
pub const VELOCITY_MAX: i32 = 126;

/// The softest velocity: 0 is kept for note-off.
pub const VELOCITY_BASE: i32 = 1;

/// The position of a palm in the sensor's space.
#[derive(Clone, Copy, Debug, PartialEq, Eq, Structural)]
pub struct Coordinate {
    pub x: i64,
    pub y: i64,
    pub z: i64,
}

impl Coordinate {
    /// The position whose three samples have the bits `x`, `y` and `z`.
    pub fn from_bits(x: u32, y: u32, z: u32) -> (palm: Coordinate)
        ensures
            palm.x == thousandths_spec(x),
            palm.y == thousandths_spec(y),
            palm.z == thousandths_spec(z),
    {
        Coordinate { x: thousandths(x), y: thousandths(y), z: thousandths(z) }
    }

    /// The coordinate along axis 0 (x), 1 (y) or, for any other number, z.
    pub open spec fn axis_spec(self, axis: int) -> i64 {
        if axis == 0 {
            self.x
        } else if axis == 1 {
            self.y
        } else {
            self.z
        }
    }

    /// The coordinate along axis 0 (x), 1 (y) or, for any other number, z.
    pub fn axis(&self, axis: usize) -> (c: i64)
        ensures
            c == self.axis_spec(axis as int),
    {
        if axis == 0 {
            self.x
        } else if axis == 1 {
            self.y
        } else {
            self.z
        }
    }
}

/// Why a mapping was turned down.
#[derive(Clone, Copy, Debug, PartialEq, Eq, Structural)]
pub enum ConfigError {
    /// The two bounds are equal, so the range has no width to scale by.
    ZeroWidth,
    /// The resolution is not positive.
    NoResolution,
}

/// The mapping of one axis: source bounds, in either order, and the largest
/// control value. The bounds differ and the resolution is positive.
#[derive(Clone, Copy, Debug)]
pub struct AxisMapping {
    low: i64,
    high: i64,
    max: i32,
}

/// The source bounds `(low, high)` of the continuous parameter of `axis` on
/// channel `chan`. The hands play on opposite sides of the sensor, so the
/// channels differ along x; channel 0 is the left hand.
pub open spec fn param_bounds(chan: int, axis: int) -> (int, int) {
    if axis == 0 {
        if chan == 0 {
            (-50_000, -150_000)
        } else {
            (50_000, 150_000)
        }
    } else if axis == 1 {
        (70_000, 200_000)
    } else {
        (100_000, -100_000)
    }
}

/// The source bounds of the note, along y.
pub open spec fn note_bounds() -> (int, int) {
    (20_000, 800_000)
}

/// The source bounds of the velocity of channel `chan`, along x: the further
/// out the hand, the louder.
pub open spec fn velocity_bounds(chan: int) -> (int, int) {
    if chan == 0 {
        (-50_000, -200_000)
    } else {
        (50_000, 200_000)
    }
}

impl AxisMapping {
    #[verifier::type_invariant]
    spec fn valid(self) -> bool {
        self.low != self.high && self.max > 0
    }

    /// The source bounds, as given.
    pub closed spec fn bounds(self) -> (int, int) {
        (self.low as int, self.high as int)
    }

    /// The largest control value.
    pub closed spec fn max(self) -> int {
        self.max as int
    }

    /// The control value of the coordinate `x`.
    pub open spec fn remap_spec(self, x: int) -> int {
        remap_spec(x, self.bounds().0, self.bounds().1, self.max())
    }

    /// Makes a mapping, unless the range is degenerate or there is nothing to
    /// map to.
    pub fn new(low: i64, high: i64, max: i32) -> (made: Result<AxisMapping, ConfigError>)
        ensures
            low == high ==> made == Err::<AxisMapping, ConfigError>(ConfigError::ZeroWidth),
            low != high && max <= 0 ==> made == Err::<AxisMapping, ConfigError>(
                ConfigError::NoResolution,
            ),
            low != high && max > 0 ==> made is Ok && made->Ok_0.bounds() == (low as int, high as int)
                && made->Ok_0.max() == max,
    {
        if low == high {
            Err(ConfigError::ZeroWidth)
        } else if max <= 0 {
            Err(ConfigError::NoResolution)
        } else {
            Ok(AxisMapping { low, high, max })
        }
    }

    /// The source bounds `(low, high)`: never equal.
    pub fn source(&self) -> (b: (i64, i64))
        ensures
            (b.0 as int, b.1 as int) == self.bounds(),
            b.0 != b.1,
    {
        proof {
            use_type_invariant(self);
        }
        (self.low, self.high)
    }

    /// The largest control value: positive.
    pub fn resolution(&self) -> (max: i32)
        ensures
            max == self.max(),
            max > 0,
    {
        proof {
            use_type_invariant(self);
        }
        self.max
    }

    /// Maps the coordinate `x` to its control value.
    pub fn remap(&self, x: i64) -> (out: i32)
        ensures
            out == self.remap_spec(x as int),
            0 <= out <= self.max(),
    {
        proof {
            use_type_invariant(self);
        }
        remap(x, self.low, self.high, self.max)
    }

    /// The mapping of the continuous parameter of `axis` on channel `chan`.
    pub fn param(chan: usize, axis: usize) -> (m: AxisMapping)
        ensures
            m.bounds() == param_bounds(chan as int, axis as int),
            m.max() == PARAM_MAX,
    {
        if axis == 0 {
            if chan == 0 {
                AxisMapping { low: -50_000, high: -150_000, max: PARAM_MAX }
            } else {
                AxisMapping { low: 50_000, high: 150_000, max: PARAM_MAX }
            }
        } else if axis == 1 {
            AxisMapping { low: 70_000, high: 200_000, max: PARAM_MAX }
        } else {
            AxisMapping { low: 100_000, high: -100_000, max: PARAM_MAX }
        }
    }

    /// The mapping of the height of a hand to the steps above the lowest note.
    pub fn note() -> (m: AxisMapping)
        ensures
            m.bounds() == note_bounds(),
            m.max() == NOTE_MAX,
    {
        AxisMapping { low: 20_000, high: 800_000, max: NOTE_MAX }
    }

    /// The mapping of the sideways reach of a hand on channel `chan` to the
    /// steps above the softest velocity.
    pub fn velocity(chan: usize) -> (m: AxisMapping)
        ensures
            m.bounds() == velocity_bounds(chan as int),
            m.max() == VELOCITY_MAX,
    {
        if chan == 0 {
            AxisMapping { low: -50_000, high: -200_000, max: VELOCITY_MAX }
        } else {
            AxisMapping { low: 50_000, high: 200_000, max: VELOCITY_MAX }
        }
    }
}

} // verus!
