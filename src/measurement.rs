use vstd::prelude::*;

use crate::formatter::CyclesPerByteFormatter;

verus! {

/// Measures elapsed processor clock cycles, read from the hardware cycle
/// counter. `cpb` (cycles per byte) is the preferred figure for
/// cryptographic algorithms.
///
/// The type holds no state: every method is a pure function of its
/// arguments, so one value may be shared by any number of benchmark threads.
pub struct CyclesPerByte;

/// Cycles elapsed between two counter readings: the difference, or zero when
/// the later reading is below the earlier one.
pub open spec fn elapsed_cycles(start: u64, reading: u64) -> nat {
    if start <= reading {
        (reading - start) as nat
    } else {
        0
    }
}

/// Two accumulated cycle counts combined.
pub open spec fn sum_cycles(a: u64, b: u64) -> int {
    a + b
}

/// The accumulated cycle count before any iteration has run.
pub open spec fn zero_cycles() -> u64 {
    0
}

impl CyclesPerByte {
    /// The cycles elapsed from the reading `start` to the later reading
    /// `reading`, saturating at zero if the counter appears to have gone back
    /// (a reset, or a move to a core whose counter lags).
    pub fn end(&self, start: u64, reading: u64) -> (r: u64)
        ensures
            r == elapsed_cycles(start, reading),
            start <= reading ==> r == reading - start,
            reading < start ==> r == 0,
    {
        reading.saturating_sub(start)
    }

    /// Combines two accumulated cycle counts by plain addition. The caller
    /// keeps the sum within 64 bits.
    pub fn add(&self, v1: &u64, v2: &u64) -> (r: u64)
        requires
            *v1 + *v2 <= u64::MAX,
        ensures
            r == sum_cycles(*v1, *v2),
    {
        *v1 + *v2
    }

    /// The additive identity that accumulation starts from.
    pub fn zero(&self) -> (r: u64)
        ensures
            r == zero_cycles(),
            r == 0,
    {
        0
    }

    /// The formatter that renders cycle counts of this measurement.
    pub fn formatter(&self) -> (r: CyclesPerByteFormatter) {
        CyclesPerByteFormatter
    }
}

/// Accumulation is commutative, and adding the zero value leaves a count as
/// it was.
pub proof fn lemma_add_commutative_with_identity(a: u64, b: u64)
    requires
        a + b <= u64::MAX,
    ensures
        sum_cycles(a, b) == sum_cycles(b, a),
        sum_cycles(a, zero_cycles()) == a,
{
}

} // verus!
