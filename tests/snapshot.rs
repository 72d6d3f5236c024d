use trace_recorder_parser::snapshot::error::Error;
use trace_recorder_parser::snapshot::event::{EventRecord, EventType};
use trace_recorder_parser::snapshot::events::Event;
use trace_recorder_parser::snapshot::markers::{DebugMarker, MarkerBytes};
use trace_recorder_parser::snapshot::object_properties::ObjectPropertyTable;
use trace_recorder_parser::snapshot::parser::{EventParser, ParseError};
use trace_recorder_parser::snapshot::recorder_data::RecorderData;
use trace_recorder_parser::snapshot::symbol_table::{SymbolCrc6, SymbolTable};
use trace_recorder_parser::types::{Endianness, FloatEncoding, KernelPortIdentity, ObjectHandle};

fn u32le(v: u32) -> [u8; 4] {
    v.to_le_bytes()
}

/// A little-endian snapshot with no objects, one symbol ("hi" at offset 1) and a ring of
/// four records.
fn image(records: &[[u8; 4]; 4]) -> Vec<u8> {
    let mut d = vec![0x55, 0x66];
    d.extend(MarkerBytes::Start.as_bytes());
    d.extend([0xA1, 0x1A, 7, 0]);
    for w in [1000_u32, 4, 4, 0, 0, 1000, 0, 0, 1, 0, 0, 0] {
        d.extend(u32le(w));
    }
    d.extend(u32le(DebugMarker::Marker0.into_u32()));
    d.extend(u32le(0));
    d.extend(u32le(0));
    d.extend(u32le(0));
    d.extend(u32le(DebugMarker::Marker1.into_u32()));
    d.extend(u32le(12));
    d.extend(u32le(9));
    d.push(0);
    d.extend([0, 0, 0, 0]);
    d.extend(b"hi\0\0");
    d.extend([0, 0, 0]);
    d.extend([0; 128]);
    d.extend(u32le(1.0_f32.to_bits()));
    d.extend(u32le(0));
    d.extend(u32le(DebugMarker::Marker2.into_u32()));
    let mut info = [0_u8; 80];
    info[..4].copy_from_slice(b"info");
    d.extend(info);
    d.extend(u32le(DebugMarker::Marker3.into_u32()));
    for r in records {
        d.extend(r);
    }
    d.extend([0, 0, 0, 0]);
    d.extend(MarkerBytes::End.as_bytes());
    d
}

#[test]
fn snapshot_dts_xts16() {
    let props = ObjectPropertyTable::new();
    let syms = SymbolTable::new();
    let mut parser = EventParser::new(Endianness::Little);
    let (t, ev) = parser.parse(&props, &syms, EventRecord::new([0xAC, 0, 0x0F, 0])).unwrap().unwrap();
    assert_eq!(t, EventType::LowPowerBegin);
    assert_eq!(ev.timestamp().ticks(), 0x0F);
    assert!(parser.parse(&props, &syms, EventRecord::new([0xA9, 0, 0x03, 0x00])).unwrap().is_none());
    let (_, ev) = parser.parse(&props, &syms, EventRecord::new([0xAD, 0, 0xD5, 0x5F])).unwrap().unwrap();
    assert_eq!(ev.timestamp().ticks(), 0x00_03_5F_D5 + 0x0F);
}

#[test]
fn snapshot_kernel_call_errors() {
    let props = ObjectPropertyTable::new();
    let syms = SymbolTable::new();
    let mut parser = EventParser::new(Endianness::Little);
    // A send with a zero handle.
    assert_eq!(
        parser.parse(&props, &syms, EventRecord::new([0x20, 0, 4, 0])),
        Err(ParseError::InvalidObjectHandle)
    );
    // A task switch to a task the table lacks.
    assert_eq!(
        parser.parse(&props, &syms, EventRecord::new([0x06, 3, 1, 0])),
        Err(ParseError::ObjectLookup(ObjectHandle::new(3).unwrap()))
    );
    // A send with a handle: untyped, but the clock moves by its 8-bit fragment.
    let (_, ev) = parser.parse(&props, &syms, EventRecord::new([0x20, 1, 4, 0])).unwrap().unwrap();
    assert_eq!(ev, Event::Unknown(trace_recorder_parser::time::Timestamp(4), EventRecord::new([0x20, 1, 4, 0])));
}

#[test]
fn snapshot_image_decode() {
    let records = [[0xAC, 0, 0x0F, 0], [0xA9, 0, 3, 0], [0xAD, 0, 0xD5, 0x5F], [0x98, 5, 1, 0]];
    let data = image(&records);
    let rd = RecorderData::locate_and_parse(&data).unwrap();
    assert_eq!(rd.start_offset, 2);
    assert_eq!(rd.kernel_port, KernelPortIdentity::FreeRtos);
    assert_eq!(rd.endianness, Endianness::Little);
    assert_eq!(rd.minor_version, 7);
    assert_eq!(rd.num_events, 4);
    assert_eq!(rd.max_events, 4);
    assert!(rd.recorder_active);
    assert_eq!(rd.float_encoding, FloatEncoding::LittleEndian);
    assert_eq!(rd.system_info, "info");
    let entry = rd.symbol_table.get(ObjectHandle::new(1).unwrap()).unwrap();
    assert_eq!(entry.symbol.0, "hi");
    assert_eq!(entry.crc, SymbolCrc6::new(b"hi"));
    assert_eq!(entry.crc.0, ((b'h' as u32 + b'i' as u32) & 0x3F) as u8);

    let recs = rd.event_records(&data);
    assert_eq!(recs.len(), 4);
    assert_eq!(recs[3].0, [0x98, 5, 1, 0]);
    let events = rd.events(&data);
    assert_eq!(events.len(), 3);
    match &events[2] {
        Ok((EventType::UserEvent(_), Event::User(u))) => {
            assert_eq!(u.format_string.0, "hi");
            assert_eq!(u.timestamp.ticks(), 0x00_03_5F_E4 + 5);
        },
        other => panic!("unexpected {other:?}"),
    }
}

#[test]
fn snapshot_ring_wrapped_order() {
    let records = [[0xAC, 0, 1, 0], [0xAC, 0, 2, 0], [0xAC, 0, 3, 0], [0xAC, 0, 4, 0]];
    let mut data = image(&records);
    // num_events 6 with max 4 and next free index 2: the ring has wrapped.
    data[22..26].copy_from_slice(&u32le(6));
    data[30..34].copy_from_slice(&u32le(2));
    let rd = RecorderData::locate_and_parse(&data).unwrap();
    let order: Vec<u8> = rd.event_records(&data).iter().map(|r| r.0[2]).collect();
    assert_eq!(order, vec![3, 4, 1, 2]);
}

#[test]
fn snapshot_missing_markers() {
    assert_eq!(
        RecorderData::locate_and_parse(&[1, 2, 3]).err(),
        Some(Error::MarkerBytes(0, [1, 2, 3, 0, 0, 0, 0, 0, 0, 0, 0, 0], MarkerBytes::Start))
    );
    let data = [7_u8; 20];
    match RecorderData::locate_and_parse(&data) {
        Err(Error::MarkerBytes(_, _, MarkerBytes::Start)) => {},
        other => panic!("unexpected {other:?}"),
    }
    let records = [[0xAC, 0, 1, 0]; 4];
    let mut data = image(&records);
    let n = data.len();
    data[n - 1] = 0;
    match RecorderData::locate_and_parse(&data) {
        Err(Error::MarkerBytes(_, _, MarkerBytes::End)) => {},
        other => panic!("unexpected {other:?}"),
    }
    let mut data = image(&records);
    data[14] = 0x9B;
    assert_eq!(RecorderData::locate_and_parse(&data).err(), Some(Error::KernelVersion(14, [0x9B, 0x1A])));
}

#[test]
fn snapshot_new_time_then_xts16() {
    let props = ObjectPropertyTable::new();
    let syms = SymbolTable::new();
    let mut parser = EventParser::new(Endianness::Little);
    let (t, ev) = parser.parse(&props, &syms, EventRecord::new([0x03, 0x0F, 0, 0])).unwrap().unwrap();
    assert_eq!(t, EventType::NewTime);
    assert_eq!(ev.timestamp().ticks(), 0x0F);
    assert!(parser.parse(&props, &syms, EventRecord::new([0xA9, 0x00, 0x03, 0x00])).unwrap().is_none());
    let (t, ev) = parser.parse(&props, &syms, EventRecord::new([0xAC, 0x00, 0xD5, 0x5F])).unwrap().unwrap();
    assert_eq!(t, EventType::LowPowerBegin);
    assert_eq!(ev.timestamp().ticks(), 0x0003_5FE4);
}

#[test]
fn snapshot_user_event_missing_symbol_fails() {
    let props = ObjectPropertyTable::new();
    let syms = SymbolTable::new();
    let mut parser = EventParser::new(Endianness::Little);
    assert_eq!(
        parser.parse(&props, &syms, EventRecord::new([0x98, 1, 7, 0])),
        Err(ParseError::FormatSymbolLookup(ObjectHandle::new(7).unwrap()))
    );
    assert_eq!(
        parser.parse(&props, &syms, EventRecord::new([0x98, 1, 0, 0])),
        Err(ParseError::InvalidSymbolTableIndex)
    );
}
