use trace_recorder_parser::types::{
    Endianness, FloatEncoding, Heap, InvalidKernelVersion, KernelPortIdentity, KernelVersion,
    ObjectClass, ObjectHandle, TimerCounter, TrimmedString, UserEventChannel,
};

#[test]
fn kernel_version_endianess_identity() {
    let kv = KernelVersion([0xA1, 0x1A]);
    assert_eq!(kv.port_identity(), Ok(KernelPortIdentity::FreeRtos));
    assert_eq!(kv.endianness(), Ok(Endianness::Little));
    let kv = KernelVersion([0x1A, 0xA1]);
    assert_eq!(kv.port_identity(), Ok(KernelPortIdentity::FreeRtos));
    assert_eq!(kv.endianness(), Ok(Endianness::Big));
    let kv = KernelVersion([0xAE, 0xEA]);
    assert_eq!(kv.port_identity(), Ok(KernelPortIdentity::ThreadX));
    assert_eq!(kv.endianness(), Ok(Endianness::Little));
    let kv = KernelVersion([0xEA, 0xAE]);
    assert_eq!(kv.port_identity(), Ok(KernelPortIdentity::ThreadX));
    assert_eq!(kv.endianness(), Ok(Endianness::Big));
    let kv = KernelVersion([0xA9, 0x9A]);
    assert_eq!(kv.port_identity(), Ok(KernelPortIdentity::Zephyr));
    assert_eq!(kv.endianness(), Ok(Endianness::Little));
    let kv = KernelVersion([0x9A, 0xA9]);
    assert_eq!(kv.port_identity(), Ok(KernelPortIdentity::Zephyr));
    assert_eq!(kv.endianness(), Ok(Endianness::Big));

    let kv = KernelVersion([0x9B, 0xB9]);
    assert_eq!(kv.port_identity(), Err(InvalidKernelVersion([0x9B, 0xB9])));
    assert_eq!(kv.endianness(), Err(InvalidKernelVersion([0x9B, 0xB9])));
}

#[test]
fn kernel_version_marker_without_port() {
    // The byte-order marker is there, but the identity byte names no port.
    let kv = KernelVersion([0xA2, 0x2A]);
    assert_eq!(kv.endianness(), Err(InvalidKernelVersion([0xA2, 0x2A])));
    assert_eq!(kv.port_identity(), Err(InvalidKernelVersion([0xA2, 0x2A])));
}

#[test]
fn float_encoding() {
    assert_eq!(FloatEncoding::from_bits(0), FloatEncoding::Unsupported);
    assert_eq!(
        FloatEncoding::from_bits(1.0_f32.to_bits().to_le()),
        FloatEncoding::LittleEndian
    );
    assert_eq!(
        FloatEncoding::from_bits(1.0_f32.to_bits().to_be()),
        FloatEncoding::BigEndian
    );
}

#[test]
fn float_encoding_unknown_pattern() {
    assert_eq!(FloatEncoding::from_bits(2.0_f32.to_bits()), FloatEncoding::Unsupported);
}

#[test]
fn trimmed_string() {
    assert_eq!(TrimmedString::from_raw(b"foo bar").0.as_str(), "foo bar");
    assert_eq!(TrimmedString::from_raw(b"foo bar\0\0\0").0.as_str(), "foo bar");
    assert_eq!(TrimmedString::from_raw(b"foo\0\0\0bar").0.as_str(), "foo");
    assert_eq!(TrimmedString::from_raw(b"\0foo\0\0\0bar").0.as_str(), "");
    assert_eq!(TrimmedString::from_raw(b"").0.as_str(), "");
}

#[test]
fn trimmed_string_lossy() {
    // An invalid byte becomes the replacement character.
    assert_eq!(TrimmedString::from_raw(b"a\xFFb\0c").0.as_str(), "a\u{FFFD}b");
}

#[test]
fn object_handle_rejects_zero() {
    assert!(ObjectHandle::new(0).is_none());
    assert_eq!(ObjectHandle::new(7).unwrap().get(), 7);
    assert_eq!(ObjectHandle::no_task().get(), 2);
}

#[test]
fn object_class_parsing() {
    assert_eq!("Queue".parse::<ObjectClass>(), Ok(ObjectClass::Queue));
    assert_eq!("  EventGroup ".parse::<ObjectClass>(), Ok(ObjectClass::EventGroup));
    assert_eq!(ObjectClass::parse_name("MESSAGEBUFFER"), Ok(ObjectClass::MessageBuffer));
    assert!("queues".parse::<ObjectClass>().is_err());
}

#[test]
fn object_class_sizes_and_order() {
    let classes = ObjectClass::enumerate();
    assert_eq!(classes.len(), 9);
    let sizes: Vec<usize> = classes.iter().map(|c| c.properties_size()).collect();
    assert_eq!(sizes, vec![1, 1, 1, 4, 2, 1, 4, 4, 4]);
    for (i, c) in classes.iter().enumerate() {
        assert_eq!(c.into_usize(), i);
    }
}

#[test]
fn timer_counter_types() {
    assert_eq!(TimerCounter::from_hwtc_type(1), Some(TimerCounter::FreeRunning32Incr));
    assert_eq!(TimerCounter::from_hwtc_type(6), Some(TimerCounter::CustomDecr));
    assert_eq!(TimerCounter::from_hwtc_type(0), None);
    assert_eq!(TimerCounter::from_hwtc_type(7), None);
    assert!(TimerCounter::OsIncr.is_increment());
    assert!(!TimerCounter::OsDecr.is_increment());
}

#[test]
fn heap_accounting_sequence() {
    let mut h = Heap { current: 0, high_water_mark: 0, max: 100 };
    h.handle_alloc(10);
    h.handle_alloc(20);
    h.handle_free(5);
    h.handle_alloc(1);
    assert_eq!(h.current, 26);
    assert_eq!(h.high_water_mark, 30);
    assert_eq!(h.max, 100);
}

#[test]
fn heap_saturates() {
    let mut h = Heap { current: 5, high_water_mark: 5, max: 0 };
    h.handle_free(10);
    assert_eq!(h.current, 0);
    h.handle_alloc(u32::MAX);
    h.handle_alloc(3);
    assert_eq!(h.current, u32::MAX);
    assert_eq!(h.high_water_mark, u32::MAX);
}

#[test]
fn channel_names() {
    assert_eq!(UserEventChannel::Default.as_str(), "default");
    assert_eq!(UserEventChannel::Custom("ch".to_string()).as_str(), "ch");
}

#[test]
fn object_class_parsing_unicode_space() {
    assert_eq!("\u{3000}Timer\u{a0}\t".parse::<ObjectClass>(), Ok(ObjectClass::Timer));
    assert!("".parse::<ObjectClass>().is_err());
    assert!("  ".parse::<ObjectClass>().is_err());
}
