//! Spans of time, as seconds and nanoseconds.
use vstd::prelude::*;

verus! {

/// A span of time: `secs` seconds and `nanos` nanoseconds.
#[derive(Clone, Copy, PartialEq, Eq, Debug, Structural)]
pub struct Period {
    pub secs: u64,
    pub nanos: u32,
}

impl Period {
    /// The span in nanoseconds.
    pub open spec fn total_nanos(self) -> int {
        self.secs * 1_000_000_000 + self.nanos
    }

    /// A span of `secs` seconds and `nanos` nanoseconds.
    pub fn new(secs: u64, nanos: u32) -> (r: Period)
        ensures
            r.secs == secs,
            r.nanos == nanos,
    {
        Period { secs, nanos }
    }

    /// A span of `ns` nanoseconds.
    pub fn from_nanos(ns: u64) -> (r: Period)
        ensures
            r.total_nanos() == ns,
            r.nanos < 1_000_000_000,
    {
        Period { secs: ns / 1_000_000_000, nanos: (ns % 1_000_000_000) as u32 }
    }

    /// The span in nanoseconds.
    pub fn as_nanos(&self) -> (r: u128)
        ensures
            r == self.total_nanos(),
    {
        assert(self.secs * 1_000_000_000 <= 0xFFFF_FFFF_FFFF_FFFFu128 * 1_000_000_000)
            by (nonlinear_arith);
        (self.secs as u128) * 1_000_000_000 + (self.nanos as u128)
    }
}

} // verus!
