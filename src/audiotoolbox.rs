//! Plain records and codes of the audio unit interface.
#![allow(non_upper_case_globals)]
use crate::ptr::Ptr;
use vstd::prelude::*;

verus! {

/// A four-character code as the 32-bit value it is passed as: the first
/// character in the lowest byte.
pub open spec fn spec_fourcc(b0: u8, b1: u8, b2: u8, b3: u8) -> int {
    b0 + 256 * b1 + 65536 * b2 + 16777216 * b3
}

/// Packs a four-character code into its 32-bit value.
pub fn fourcc(bytes: [u8; 4]) -> (r: u32)
    ensures
        r as int == spec_fourcc(bytes@[0], bytes@[1], bytes@[2], bytes@[3]),
{
    let b0 = bytes[0] as u32;
    let b1 = bytes[1] as u32;
    let b2 = bytes[2] as u32;
    let b3 = bytes[3] as u32;
    b0 + 256 * b1 + 65536 * b2 + 16777216 * b3
}

/// A four-character code.
pub type OSType = u32;

/// A status code; zero is success.
pub type OSStatus = i32;

/// The data type for audio unit property keys.
pub type AudioUnitPropertyID = u32;

/// The data type for audio unit scope identifiers.
pub type AudioUnitScope = u32;

/// The data type for an audio unit element identifier.
pub type AudioUnitElement = u32;

pub type AudioFormatID = u32;

pub type AudioFormatFlags = u32;

pub type SMPTETimeType = u32;

pub type SMPTETimeFlags = u32;

pub const kAudioUnitProperty_StreamFormat: AudioUnitPropertyID = 8;

pub const kAudioUnitProperty_SetRenderCallback: AudioUnitPropertyID = 23;

pub const kAudioUnitScope_Input: AudioUnitScope = 1;

pub const kAudioUnitScope_Output: AudioUnitScope = 2;

pub const kAudioFormatFlagIsFloat: AudioFormatFlags = 0x01;

pub const kAudioFormatFlagIsNonInterleaved: AudioFormatFlags = 0x20;

/// `auou`
pub const kAudioUnitType_Output: OSType = 0x756f7561;

/// `ahal`
pub const kAudioUnitSubType_HALOutput: OSType = 0x6c616861;

/// `def `
pub const kAudioUnitSubType_DefaultOutput: OSType = 0x20666564;

/// `sys `
pub const kAudioUnitSubType_SystemOutput: OSType = 0x20737973;

/// `appl`
pub const kAudioUnitManufacturer_Apple: OSType = 0x6c707061;

/// `lpcm`
pub const kAudioFormatLinearPCM: AudioFormatID = 0x6d63706c;

/// An SMPTE time.
#[derive(Debug, Clone, Copy)]
pub struct SMPTETime {
    pub subframes: i16,
    pub subframe_divisor: i16,
    pub counter: u32,
    pub type_: SMPTETimeType,
    pub flags: SMPTETimeFlags,
    pub hours: i16,
    pub minutes: i16,
    pub seconds: i16,
    pub frames: i16,
}

/// One buffer of audio data.
#[derive(Debug)]
pub struct AudioBuffer {
    pub number_channels: u32,
    pub data_byte_size: u32,
    pub data: Ptr<u8>,
}

/// A list of audio buffers; the foreign side may lay out more than the one
/// written here.
#[derive(Debug)]
pub struct AudioBufferList {
    pub number_buffers: u32,
    pub buffers: [AudioBuffer; 1],
}

/// What identifies an audio component.
#[derive(Debug, Clone, Copy)]
pub struct AudioComponentDescription {
    pub component_type: OSType,
    pub component_subtype: OSType,
    pub component_manufacturer: OSType,
    pub component_flags: u32,
    pub component_flags_mask: u32,
}

} // verus!
