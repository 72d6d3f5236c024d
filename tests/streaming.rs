use trace_recorder_parser::streaming::error::Error;
use trace_recorder_parser::streaming::event::{EventCount, EventId, EventType};
use trace_recorder_parser::streaming::events::Event;
use trace_recorder_parser::streaming::header_info::HeaderInfo;
use trace_recorder_parser::streaming::recorder_data::RecorderData;
use trace_recorder_parser::streaming::object_data_table::ObjectDataTable;
use trace_recorder_parser::streaming::symbol_table::SymbolTable;
use trace_recorder_parser::types::{
    Endianness, FormattedStringError, KernelPortIdentity, ObjectClass, ObjectHandle, Priority,
};

fn u16le(v: u16) -> [u8; 2] {
    v.to_le_bytes()
}

fn u32le(v: u32) -> [u8; 4] {
    v.to_le_bytes()
}

/// A little-endian v10 trace start: header, timestamp block and an entry table with one
/// task named "IDLE" under handle 0x10 and the system heap under 0x20.
fn trace_start() -> Vec<u8> {
    let mut d = Vec::new();
    d.extend(u32le(0x50_53_46_00));
    d.extend(u16le(10));
    d.extend([0xA1, 0x1A]);
    d.extend(u32le(0));
    d.extend(u32le(1));
    d.extend(u32le(0));
    d.extend(b"FreeRTOS");
    d.extend(u16le(0));
    d.push(0);
    d.push(1);
    // Timestamp block.
    for w in [1_u32, 1_000_000, 1000, 0, 1000, 0, 0] {
        d.extend(u32le(w));
    }
    // Entry table: two entries, 8-byte symbols, 3 states.
    d.extend(u32le(2));
    d.extend(u32le(8));
    d.extend(u32le(3));
    d.extend(u32le(0x10));
    for w in [5_u32, 0, 0] {
        d.extend(u32le(w));
    }
    d.extend(u32le(0));
    d.extend(b"IDLE\0\0\0\0");
    d.extend(u32le(0x20));
    for w in [100_u32, 150, 1000] {
        d.extend(u32le(w));
    }
    d.extend(u32le(0));
    d.extend(b"System H");
    d
}

fn event(code: u16, count: u16, ts: u32, params: &[u32]) -> Vec<u8> {
    let mut d = Vec::new();
    d.extend(u16le(code));
    d.extend(u16le(count));
    d.extend(u32le(ts));
    for p in params {
        d.extend(u32le(*p));
    }
    d
}

#[test]
fn streaming_synthetic_trace() {
    let mut data = trace_start();
    let (mut rd, mut pos) = RecorderData::read(&data, 0).unwrap();
    assert_eq!(rd.header.endianness, Endianness::Little);
    assert_eq!(rd.header.format_version, 10);
    assert_eq!(rd.header.kernel_port, KernelPortIdentity::FreeRtos);
    assert_eq!(rd.header.platform_cfg, "FreeRTOS");
    assert_eq!(rd.header.platform_cfg_version.major, 1);
    assert_eq!(rd.timestamp_info.timer_frequency.get_raw(), 1_000_000);
    assert_eq!(rd.timestamp_info.timer_period, 1000);
    // "System H" is not the heap's symbol, so the heap starts empty.
    assert_eq!(rd.system_heap().current, 0);

    data.extend(event(0x1001, 1, 0, &[2]));
    data.extend(event(0x2010, 2, 1, &[0x10, 7]));
    data.extend(event(0x2038, 3, 2, &[0xABCD, 64]));
    data.extend(event(0x3FFF, 4, 3, &[1, 2, 3]));

    let (code, ev, next) = rd.read_event(&data, pos).unwrap().unwrap();
    assert_eq!(code.event_type(), EventType::TraceStart);
    assert_eq!(ev.event_count(), EventCount(1));
    assert_eq!(ev.timestamp().ticks(), 0);
    match ev {
        Event::TraceStart(e) => assert_eq!(e.current_task.0, "(startup)"),
        other => panic!("unexpected {other:?}"),
    }
    pos = next;

    let (code, ev, next) = rd.read_event(&data, pos).unwrap().unwrap();
    assert_eq!(code.event_type(), EventType::TaskCreate);
    match ev {
        Event::TaskCreate(e) => {
            assert_eq!(e.name.0, "IDLE");
            assert_eq!(e.priority.0, 7);
            assert_eq!(e.handle, ObjectHandle::new(0x10).unwrap());
        },
        other => panic!("unexpected {other:?}"),
    }
    pos = next;

    let (_, ev, next) = rd.read_event(&data, pos).unwrap().unwrap();
    match ev {
        Event::MemoryAlloc(e) => {
            assert_eq!(e.size, 64);
            assert_eq!(e.heap.current, 64);
            assert_eq!(e.heap.high_water_mark, 64);
        },
        other => panic!("unexpected {other:?}"),
    }
    assert_eq!(rd.system_heap().current, 64);
    pos = next;

    // An ID outside the mapping comes back as an untyped event.
    let (code, ev, next) = rd.read_event(&data, pos).unwrap().unwrap();
    assert_eq!(code.event_type(), EventType::Unknown(EventId(0xFFF)));
    match ev {
        Event::Unknown(b) => assert_eq!(b.parameters(), &[1, 2, 3]),
        other => panic!("unexpected {other:?}"),
    }
    pos = next;
    assert_eq!(pos, data.len());
    assert!(rd.read_event(&data, pos).unwrap().is_none());
}

#[test]
fn streaming_garbage_prefix_and_restart() {
    let mut data = vec![0xEE, 0x01, 0x02];
    data.extend(trace_start());
    data.extend(event(0x1001, 1, 0, &[2]));
    let restart = data.len();
    data.extend(trace_start());
    data.extend(event(0x1001, 91, 5, &[0x10]));

    let (header, at, _) = HeaderInfo::find(&data, 0).unwrap();
    assert_eq!(at, 3);
    assert_eq!(header.format_version, 10);

    let (mut rd, pos) = RecorderData::find(&data, 0).unwrap();
    let (_, _, pos) = rd.read_event(&data, pos).unwrap().unwrap();
    assert_eq!(pos, restart);
    match rd.read_event(&data, pos) {
        Err(Error::TraceRestarted(Endianness::Little)) => {},
        res => panic!("Expected TraceRestarted error. {res:?}"),
    }
    let (mut rd, pos) = RecorderData::read_with_endianness(Endianness::Little, &data, pos + 4).unwrap();
    let (code, ev, _) = rd.read_event(&data, pos).unwrap().unwrap();
    assert_eq!(code.event_type(), EventType::TraceStart);
    assert_eq!(ev.event_count(), EventCount(91));
}

#[test]
fn streaming_errors() {
    let mut data = trace_start();
    let (mut rd, pos) = RecorderData::read(&data, 0).unwrap();
    // TraceStart with two parameters instead of one.
    data.extend(event(0x2001, 1, 0, &[2, 0]));
    match rd.read_event(&data, pos) {
        Err(Error::InvalidEventParameterCount(id, 1, n)) => {
            assert_eq!(id, EventId(1));
            assert_eq!(n.0, 2);
        },
        res => panic!("unexpected {res:?}"),
    }
    // A zero handle.
    let mut data = trace_start();
    data.extend(event(0x1030, 1, 0, &[0]));
    assert_eq!(rd.read_event(&data, pos), Err(Error::InvalidObjectHandle(EventId(0x30))));
    // A handle without a symbol.
    let mut data = trace_start();
    data.extend(event(0x1030, 1, 0, &[0x99]));
    assert_eq!(
        rd.read_event(&data, pos),
        Err(Error::ObjectLookup(ObjectHandle::new(0x99).unwrap()))
    );
    // A record cut short.
    let mut data = trace_start();
    data.extend(&event(0x2038, 1, 0, &[1, 2])[..10]);
    assert_eq!(rd.read_event(&data, pos), Err(Error::Io));
    // Bad PSF word.
    assert_eq!(
        RecorderData::read(&[1, 2, 3, 4, 5], 0).err(),
        Some(Error::PSFEndiannessIdentifier(0x0403_0201))
    );
}

#[test]
fn streaming_create_records_class_and_record_end() {
    let mut data = trace_start();
    let (mut rd, pos) = RecorderData::read(&data, 0).unwrap();
    data.extend(event(0x2011, 1, 0, &[0x30, 8]));
    data.extend(event(0x2001, 2, 0, &[2, 0]));
    data.extend(event(0x1001, 3, 0, &[2]));
    let (_, ev, next) = rd.read_event(&data, pos).unwrap().unwrap();
    match ev {
        Event::QueueCreate(q) => {
            assert_eq!(q.queue_length, 8);
            assert!(q.name.is_none());
        },
        other => panic!("unexpected {other:?}"),
    }
    let h = ObjectHandle::new(0x30).unwrap();
    assert_eq!(rd.entry_table.class(h), Some(ObjectClass::Queue));
    // The next record fails; its end is where decoding resumes.
    assert!(rd.read_event(&data, next).is_err());
    let resume = rd.record_end(&data, next).unwrap();
    assert_eq!(resume, next + 16);
    let (code, _, _) = rd.read_event(&data, resume).unwrap().unwrap();
    assert_eq!(code.event_type(), EventType::TraceStart);
    assert_eq!(rd.entry_table.symbol_handle("IDLE", None), ObjectHandle::new(0x10));
    assert_eq!(rd.entry_table.symbol_handle("IDLE", Some(ObjectClass::Queue)), None);
}

#[test]
fn streaming_legacy_tables() {
    let mut d = Vec::new();
    d.extend(u32le(0x40));
    d.extend(b"abc\0");
    d.extend(u32le(0));
    d.extend(b"xyz\0");
    let (st, end) = SymbolTable::read(&d, 0, Endianness::Little, 8, 2).unwrap();
    assert_eq!(end, 16);
    assert_eq!(st.get(ObjectHandle::new(0x40).unwrap()).unwrap().symbol.0, "abc");
    assert_eq!(st.get(ObjectHandle::no_task()).unwrap().symbol.0, "(startup)");
    assert_eq!(
        SymbolTable::read(&d, 0, Endianness::Little, 4, 2).err(),
        Some(Error::InvalidSymbolTableSlotSize)
    );

    let mut d = Vec::new();
    d.extend(u32le(0x40));
    d.extend(u32le(9));
    let (mut ot, _) = ObjectDataTable::read(&d, 0, Endianness::Little, 8, 1).unwrap();
    let h = ObjectHandle::new(0x40).unwrap();
    assert_eq!(ot.get(h).unwrap().priority, Priority(9));
    assert_eq!(ot.class(ObjectHandle::no_task()), Some(ObjectClass::Task));
    ot.update_class(h, ObjectClass::Timer);
    assert_eq!(ot.class(h), Some(ObjectClass::Timer));
}

#[test]
fn streaming_object_name_then_create() {
    let mut data = trace_start();
    let (mut rd, pos) = RecorderData::read(&data, 0).unwrap();
    let mut named = event(0x3003, 1, 0, &[0x50]);
    named.extend(b"worker\0\0");
    data.extend(named);
    data.extend(event(0x2010, 2, 1, &[0x50, 3]));
    let (_, ev, next) = rd.read_event(&data, pos).unwrap().unwrap();
    match ev {
        Event::ObjectName(o) => assert_eq!(o.name.0, "worker"),
        other => panic!("unexpected {other:?}"),
    }
    let h = ObjectHandle::new(0x50).unwrap();
    assert_eq!(rd.entry_table.symbol(h).unwrap().0, "worker");
    let (_, ev, _) = rd.read_event(&data, next).unwrap().unwrap();
    match ev {
        Event::TaskCreate(t) => {
            assert_eq!(t.name.0, "worker");
            assert_eq!(t.priority, Priority(3));
        },
        other => panic!("unexpected {other:?}"),
    }
    assert_eq!(rd.entry_table.class(h), Some(ObjectClass::Task));
}

#[test]
fn streaming_user_event_symbol_errors_propagate() {
    let base = trace_start();
    let (mut rd, pos) = RecorderData::read(&base, 0).unwrap();

    let mut ok = base.clone();
    let mut rec = event(0x4092, 1, 0, &[0x10, 0x10]);
    rec.extend(b"x=%s\0\0\0\0");
    ok.extend(rec);
    let (_, ev, _) = rd.read_event(&ok, pos).unwrap().unwrap();
    match ev {
        Event::User(u) => {
            assert_eq!(u.format_string.0, "x=%s");
            assert_eq!(u.formatted_string.render(&u.args).unwrap(), "x=IDLE");
            assert_eq!(u.channel.as_str(), "IDLE");
        },
        other => panic!("unexpected {other:?}"),
    }

    let mut bad = base.clone();
    let mut rec = event(0x4092, 1, 0, &[0x10, 0x77]);
    rec.extend(b"x=%s\0\0\0\0");
    bad.extend(rec);
    assert_eq!(
        rd.read_event(&bad, pos),
        Err(Error::FormattedString(FormattedStringError::SymbolLookup(ObjectHandle::new(0x77).unwrap())))
    );
}
