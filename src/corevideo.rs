//! Plain records of the display timing interface.
use vstd::prelude::*;

verus! {

/// The result code of a display timing call; zero is success.
pub type CVReturn = i32;

#[allow(non_upper_case_globals)]
pub const kCVReturnSuccess: CVReturn = 0;

/// The flags handed to a display link's output callback.
pub type CVOptionFlags = u64;

/// An SMPTE time, as the display timing interface lays it out.
#[allow(non_snake_case)]
pub struct CVSMPTETime {
    pub subframes: i16,
    pub subframeDivisor: i16,
    pub counter: u32,
    pub type_: u32,
    pub flags: u32,
    pub hours: i16,
    pub minutes: i16,
    pub seconds: i16,
    pub frames: i16,
}

} // verus!
