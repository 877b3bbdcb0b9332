//! Locations and the distance-from-home magnitude.
//!
//! The translation of real paths into these values belongs to the
//! surrounding layer; the core only compares distances and reads their
//! integer length.

use vstd::prelude::*;

verus! {

/// Largest distance length the engine accepts; far beyond any real
/// directory depth, it keeps the level arithmetic inside `i64`.
pub const MAX_DISTANCE: i64 = 1_000_000_000;

/// An opaque, totally ordered, non-negative remoteness from home,
/// measured as a number of directory steps.
#[derive(Clone, Copy, Debug, PartialEq, Eq, Structural)]
pub struct Distance {
    pub len: i64,
}

impl Distance {
    /// A distance is valid when its length lies in `[0, MAX_DISTANCE]`.
    pub open spec fn wf(self) -> bool {
        0 <= self.len <= MAX_DISTANCE
    }

    /// The integer length of the distance.
    pub fn len(&self) -> (r: i64)
        ensures
            r == self.len,
    {
        self.len
    }
}

impl Distance {
    /// What building a distance from a raw step count yields: the count
    /// clamped into the valid range.
    pub open spec fn clamped(n: i64) -> Distance {
        Distance {
            len: if n < 0 {
                0
            } else if n > MAX_DISTANCE {
                MAX_DISTANCE
            } else {
                n as i64
            },
        }
    }
}

impl From<i64> for Distance {
    /// Builds a distance from a raw step count, clamping it into the
    /// valid range so that the result is always well formed.
    fn from(n: i64) -> (r: Distance)
        ensures
            r == Distance::clamped(n),
            r.wf(),
    {
        let len: i64 = if n < 0 {
            0
        } else if n > MAX_DISTANCE {
            MAX_DISTANCE
        } else {
            n
        };
        Distance { len }
    }
}

impl vstd::std_specs::convert::FromSpecImpl<i64> for Distance {
    open spec fn obeys_from_spec() -> bool {
        true
    }

    open spec fn from_spec(n: i64) -> Distance {
        Distance::clamped(n)
    }
}

/// A place in the world: an external identifier chosen by the location
/// layer, its distance from home, and whether it is the game's own data
/// directory.  Home is exactly the place at distance zero.
#[derive(Clone, Copy, Debug, PartialEq, Eq, Structural)]
pub struct Location {
    /// Stable identity assigned by the surrounding location layer; two
    /// values denote the same place exactly when the whole struct is equal.
    pub id: u64,
    pub distance: Distance,
    /// Whether this is the engine's own data directory.
    pub rpg_dir: bool,
}

impl Location {
    pub open spec fn wf(self) -> bool {
        self.distance.wf()
    }

    /// The home location, at distance zero.
    pub fn home() -> (r: Location)
        ensures
            r == (Location { id: 0u64, distance: Distance { len: 0i64 }, rpg_dir: false }),
            r.wf(),
    {
        Location { id: 0, distance: Distance { len: 0 }, rpg_dir: false }
    }

    pub fn new(id: u64, distance: Distance, rpg_dir: bool) -> (r: Location)
        requires
            distance.wf(),
        ensures
            r == (Location { id, distance, rpg_dir }),
            r.wf(),
    {
        Location { id, distance, rpg_dir }
    }

    pub open spec fn spec_is_home(self) -> bool {
        self.distance.len == 0
    }

    /// Whether this location is the home directory.
    pub fn is_home(&self) -> (r: bool)
        ensures
            r == self.spec_is_home(),
    {
        self.distance.len == 0
    }

    pub open spec fn spec_is_rpg_dir(self) -> bool {
        self.rpg_dir
    }

    /// Whether this location is the engine's own data directory.
    pub fn is_rpg_dir(&self) -> (r: bool)
        ensures
            r == self.spec_is_rpg_dir(),
    {
        self.rpg_dir
    }

    pub fn distance_from_home(&self) -> (r: Distance)
        ensures
            r == self.distance,
    {
        self.distance
    }
}

} // verus!
