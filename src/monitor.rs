//! The text scale of a monitor: a multiple of one half, from one half to five.
use vstd::prelude::*;

verus! {

/// The least scale, in halves.
pub const MIN_HALVES: u64 = 1;

/// The greatest scale, in halves.
pub const MAX_HALVES: u64 = 10;

/// A text scale, held as a whole number of halves.
#[derive(Debug)]
pub struct MonitorScale {
    halves: u64,
}

/// Why a number is no text scale.
#[derive(Debug, PartialEq, Eq, Structural)]
pub enum TryParseMonitorScaleError {
    MustBeMultipleOfOneHalf,
    OutOfRange,
}

impl MonitorScale {
    pub closed spec fn spec_halves(&self) -> u64 {
        self.halves
    }

    /// The scale of `halves` halves, if it is within range.
    pub fn from_halves(halves: u64) -> (r: Result<MonitorScale, TryParseMonitorScaleError>)
        ensures
            MIN_HALVES <= halves <= MAX_HALVES ==> r is Ok && r->Ok_0.spec_halves() == halves,
            !(MIN_HALVES <= halves <= MAX_HALVES) ==> r == Err::<MonitorScale, TryParseMonitorScaleError>(
                TryParseMonitorScaleError::OutOfRange,
            ),
    {
        if MIN_HALVES <= halves && halves <= MAX_HALVES {
            Ok(MonitorScale { halves })
        } else {
            Err(TryParseMonitorScaleError::OutOfRange)
        }
    }

    /// The scale in halves.
    pub fn halves(&self) -> (r: u64)
        ensures
            r == self.spec_halves(),
    {
        self.halves
    }

    pub fn min() -> (r: MonitorScale)
        ensures
            r.spec_halves() == MIN_HALVES,
    {
        MonitorScale { halves: MIN_HALVES }
    }

    pub fn max() -> (r: MonitorScale)
        ensures
            r.spec_halves() == MAX_HALVES,
    {
        MonitorScale { halves: MAX_HALVES }
    }
}

} // verus!
