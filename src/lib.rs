//! Owning handles for objects that a foreign runtime counts references to.
//!
//! Two reference-counting universes are covered: objects that answer the
//! `retain` and `release` messages themselves, and objects whose count is kept
//! by a pair of plain functions. Each handle owns exactly one count: wrapping a
//! pointer that is already retained takes it over, cloning retains once more,
//! and dropping releases once. Beside the handles stand the plain records and
//! codes that the frameworks pass by value.
pub mod audiotoolbox;
pub mod bridge;
pub mod cocoa;
pub mod corefoundation;
pub mod coretext;
pub mod corevideo;
pub mod external_rc;
pub mod foundation;
pub mod ptr;

pub use audiotoolbox::{
    fourcc, AudioBuffer, AudioBufferList, AudioComponentDescription, AudioFormatFlags,
    AudioFormatID, AudioUnitElement, AudioUnitPropertyID, AudioUnitScope, OSStatus, OSType,
    SMPTETime, SMPTETimeFlags, SMPTETimeType,
};
pub use bridge::{bridge, bridge_back, TollFreeBridge};
pub use cocoa::{CocoaMutableObject, CocoaObject, ObjcObject};
pub use corefoundation::{
    CFIndex, CFRange, CoreObject, CoreRetainedMutableObject, CoreRetainedObject,
};
pub use coretext::{CTFontOrientation, CTFontSymbolicTraits};
pub use corevideo::{kCVReturnSuccess, CVOptionFlags, CVReturn, CVSMPTETime};
pub use external_rc::{ExternalRc, RefCountFns};
pub use foundation::{NSInteger, NSRange, NSUInteger, UniChar};
pub use ptr::{check_retained, opt_pointer, opt_pointer_mut, HandleError, Id, Object, Ptr};
