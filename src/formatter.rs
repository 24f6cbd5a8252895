use vstd::prelude::*;

use crate::decimal::{decimal_chars, decimal_string};

verus! {

/// How much work one iteration of a benchmark does, as declared by its
/// author; it only decides the unit in which cycle counts are shown.
#[derive(Clone, Copy, Debug, PartialEq, Eq, Structural)]
pub enum ThroughputHint {
    /// A number of bytes.
    Bytes(u64),
    /// A number of bytes, reported in 1000-based rather than 1024-based units.
    BytesDecimal(u64),
    /// A number of logical elements.
    Elements(u64),
}

/// The magnitude that a hint carries, whatever its kind.
pub open spec fn hint_count(t: ThroughputHint) -> u64 {
    match t {
        ThroughputHint::Bytes(n) => n,
        ThroughputHint::BytesDecimal(n) => n,
        ThroughputHint::Elements(n) => n,
    }
}

/// What a single rendered value is divided by: the byte count for the two
/// byte kinds; nothing for elements, whose value is shown as measured.
pub open spec fn value_divisor(t: ThroughputHint) -> Option<u64> {
    match t {
        ThroughputHint::Bytes(n) => Some(n),
        ThroughputHint::BytesDecimal(n) => Some(n),
        ThroughputHint::Elements(_) => None,
    }
}

/// The unit written after a single value rendered under a hint.
pub open spec fn throughput_unit_chars(t: ThroughputHint) -> Seq<char> {
    match t {
        ThroughputHint::Bytes(_) => "cpb"@,
        ThroughputHint::BytesDecimal(_) => "cpb (decimal)"@,
        ThroughputHint::Elements(n) => "cycles/"@ + decimal_chars(n as nat),
    }
}

/// The short unit of a summary whose values were divided by the hint's count.
pub open spec fn scale_label_chars(t: ThroughputHint) -> Seq<char> {
    match t {
        ThroughputHint::Bytes(_) => "cpb"@,
        ThroughputHint::BytesDecimal(_) => "cpb (decimal)"@,
        ThroughputHint::Elements(_) => "c/e"@,
    }
}

/// Renders cycle counts and picks the unit of a summary.
///
/// A value is shown with four decimal places followed by a space and the
/// unit; the methods here decide the unit and what the value is divided by.
pub struct CyclesPerByteFormatter;

impl CyclesPerByteFormatter {
    /// The unit of a raw cycle count, and of a summary that is not scaled.
    pub fn value_unit(&self) -> (r: &'static str)
        ensures
            r@ == "cycles"@,
    {
        "cycles"
    }

    /// The unit of machine-readable output: always raw cycles, whatever the
    /// throughput, so that every exported figure has the same dimension.
    pub fn machine_unit(&self) -> (r: &'static str)
        ensures
            r@ == "cycles"@,
    {
        "cycles"
    }

    /// What a single value rendered under `throughput` is divided by, if
    /// anything.
    pub fn throughput_divisor(&self, throughput: &ThroughputHint) -> (r: Option<u64>)
        ensures
            r == value_divisor(*throughput),
    {
        match throughput {
            ThroughputHint::Bytes(n) => Some(*n),
            ThroughputHint::BytesDecimal(n) => Some(*n),
            ThroughputHint::Elements(_) => None,
        }
    }

    /// The unit written after a single value rendered under `throughput`:
    /// `cpb`, `cpb (decimal)`, or `cycles/` and the element count.
    pub fn throughput_unit(&self, throughput: &ThroughputHint) -> (r: String)
        ensures
            r@ == throughput_unit_chars(*throughput),
    {
        match throughput {
            ThroughputHint::Bytes(_) => String::from_str("cpb"),
            ThroughputHint::BytesDecimal(_) => String::from_str("cpb (decimal)"),
            ThroughputHint::Elements(n) => {
                let mut s = String::from_str("cycles/");
                let digits = decimal_string(*n);
                s.append(digits.as_str());
                s
            },
        }
    }

    /// What every value of a summary is divided by under `throughput`: its
    /// count, whatever its kind.
    pub fn scale_divisor(&self, throughput: &ThroughputHint) -> (r: u64)
        ensures
            r == hint_count(*throughput),
    {
        match throughput {
            ThroughputHint::Bytes(n) => *n,
            ThroughputHint::BytesDecimal(n) => *n,
            ThroughputHint::Elements(n) => *n,
        }
    }

    /// The unit of a summary whose values were divided by the count of
    /// `throughput`: `cpb`, `cpb (decimal)` or `c/e`.
    pub fn scale_label(&self, throughput: &ThroughputHint) -> (r: &'static str)
        ensures
            r@ == scale_label_chars(*throughput),
    {
        match throughput {
            ThroughputHint::Bytes(_) => "cpb",
            ThroughputHint::BytesDecimal(_) => "cpb (decimal)",
            ThroughputHint::Elements(_) => "c/e",
        }
    }
}

} // verus!
