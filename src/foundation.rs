//! Plain records of the object framework.
use vstd::prelude::*;

verus! {

/// The framework's signed integer: as wide as a pointer.
pub type NSInteger = isize;

/// The framework's unsigned integer: as wide as a pointer.
pub type NSUInteger = usize;

/// A UTF-16 code unit.
pub type UniChar = u16;

/// A run of `length` items from `location` on.
#[derive(Debug, Clone, Copy, PartialEq, Eq, Structural, PartialOrd, Ord)]
pub struct NSRange {
    pub location: NSUInteger,
    pub length: NSUInteger,
}

/// The length of the half-open run from `start` to `end`: none when `end`
/// does not lie after `start`.
pub open spec fn run_length(start: int, end: int) -> int {
    if end > start {
        end - start
    } else {
        0
    }
}

impl From<core::ops::Range<NSUInteger>> for NSRange {
    /// The run that `r` covers; a range whose end does not lie after its
    /// start is empty.
    fn from(r: core::ops::Range<NSUInteger>) -> (s: Self)
        ensures
            s.location == r.start,
            s.length == run_length(r.start as int, r.end as int),
    {
        let length = if r.end > r.start {
            r.end - r.start
        } else {
            0
        };
        NSRange { location: r.start, length }
    }
}

impl vstd::std_specs::convert::FromSpecImpl<core::ops::Range<NSUInteger>> for NSRange {
    open spec fn obeys_from_spec() -> bool {
        true
    }

    open spec fn from_spec(r: core::ops::Range<NSUInteger>) -> Self {
        NSRange { location: r.start, length: run_length(r.start as int, r.end as int) as NSUInteger }
    }
}

} // verus!
