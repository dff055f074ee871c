use appkit::audiotoolbox::{
    kAudioFormatLinearPCM, kAudioUnitManufacturer_Apple, kAudioUnitSubType_DefaultOutput,
    kAudioUnitSubType_HALOutput, kAudioUnitSubType_SystemOutput, kAudioUnitType_Output,
};
use appkit::{
    fourcc, opt_pointer, opt_pointer_mut, AudioBuffer, AudioBufferList, AudioComponentDescription,
    CFRange, CTFontOrientation, CTFontSymbolicTraits, NSRange, Ptr, SMPTETime,
};

#[test]
fn fourcc_puts_the_first_character_lowest() {
    assert_eq!(fourcc(*b"abcd"), 0x64636261);
    assert_eq!(fourcc([0, 0, 0, 0]), 0);
    assert_eq!(fourcc([255, 255, 255, 255]), u32::MAX);
    assert_eq!(fourcc([1, 0, 0, 0]), 1);
    assert_eq!(fourcc([0, 0, 0, 1]), 1 << 24);
}

#[test]
fn audio_codes_are_their_four_characters() {
    assert_eq!(fourcc(*b"auou"), kAudioUnitType_Output);
    assert_eq!(fourcc(*b"ahal"), kAudioUnitSubType_HALOutput);
    assert_eq!(fourcc(*b"def "), kAudioUnitSubType_DefaultOutput);
    assert_eq!(fourcc(*b"sys "), kAudioUnitSubType_SystemOutput);
    assert_eq!(fourcc(*b"appl"), kAudioUnitManufacturer_Apple);
    assert_eq!(fourcc(*b"lpcm"), kAudioFormatLinearPCM);
}

#[test]
fn ns_range_from_a_range() {
    let r: NSRange = (3usize..10).into();
    assert_eq!(r, NSRange { location: 3, length: 7 });
    let empty: NSRange = (5usize..5).into();
    assert_eq!(empty, NSRange { location: 5, length: 0 });
    let reversed: NSRange = (9usize..4).into();
    assert_eq!(reversed, NSRange { location: 9, length: 0 });
    assert!(NSRange { location: 1, length: 9 } < NSRange { location: 2, length: 0 });
}

#[test]
fn cf_range_from_a_range() {
    let r: CFRange = (-2isize..5).into();
    assert_eq!(r, CFRange { location: -2, length: 7 });
    let reversed: CFRange = (4isize..1).into();
    assert_eq!(reversed, CFRange { location: 4, length: 0 });
    let wide: CFRange = (isize::MIN..isize::MAX).into();
    assert_eq!(wide, CFRange { location: isize::MIN, length: isize::MAX });
}

#[test]
fn font_codes() {
    assert_eq!(CTFontSymbolicTraits::ItalicTrait.bits(), 1);
    assert_eq!(CTFontSymbolicTraits::BoldTrait.bits(), 2);
    assert_eq!(CTFontOrientation::Default.value(), 0);
    assert_eq!(CTFontOrientation::Horizontal.value(), 1);
    assert_eq!(CTFontOrientation::Vertical.value(), 2);
}

#[test]
fn optional_arguments_lower_to_null() {
    let p = Ptr::<u8>::from_addr(0x2000);
    assert_eq!(opt_pointer(Some(p)).addr(), 0x2000);
    assert!(opt_pointer::<u8>(None).is_null());
    assert_eq!(opt_pointer_mut(Some(p)).addr(), 0x2000);
    assert!(opt_pointer_mut::<u8>(None).is_null());
}

#[test]
fn pointers_keep_their_address() {
    let p = Ptr::<u8>::from_addr(0x30);
    assert!(!p.is_null());
    assert!(Ptr::<u8>::null().is_null());
    assert_eq!(p.cast::<u16>().addr(), 0x30);
    let q = p;
    assert_eq!(q.clone().addr(), p.addr());
}

#[test]
fn records_hold_their_fields() {
    let d = AudioComponentDescription {
        component_type: kAudioUnitType_Output,
        component_subtype: kAudioUnitSubType_DefaultOutput,
        component_manufacturer: kAudioUnitManufacturer_Apple,
        component_flags: 0,
        component_flags_mask: 0,
    };
    assert_eq!(d.clone().component_subtype, 0x20666564);
    let t = SMPTETime {
        subframes: 0,
        subframe_divisor: 80,
        counter: 0,
        type_: 0,
        flags: 0,
        hours: 1,
        minutes: 2,
        seconds: 3,
        frames: 4,
    };
    assert_eq!(t.clone().seconds, 3);
    let list = AudioBufferList {
        number_buffers: 1,
        buffers: [AudioBuffer { number_channels: 2, data_byte_size: 512, data: Ptr::null() }],
    };
    assert_eq!(list.buffers[0].data_byte_size, 512);
    assert!(list.buffers[0].data.is_null());
}
