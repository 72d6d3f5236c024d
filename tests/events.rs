use trace_recorder_parser::snapshot::event::{
    EventCode as SnapshotEventCode, EventRecord, EventType as SnapshotEventType, ObjectClassCode,
};
use trace_recorder_parser::streaming::event::{
    EventCode, EventCount, EventId, EventType, TrackingEventCounter,
};
use trace_recorder_parser::types::UserEventArgRecordCount;

#[test]
fn mod_event_type_roundtrip() {
    for raw in 0..=0xFF {
        let ec = SnapshotEventCode(raw);
        let et = SnapshotEventType::from(ec);
        assert_eq!(ec, SnapshotEventCode::from(et));
    }
    for raw in 0..=0xFF {
        let eid = EventId(raw);
        let et = EventType::from(eid);
        assert_eq!(eid, EventId::from(et));
    }
}

#[test]
fn streaming_event_id_roundtrip_all_u16() {
    for raw in 0..=u16::MAX {
        let eid = EventId(raw);
        assert_eq!(eid, EventId::from(EventType::from(eid)));
    }
}

#[test]
fn obj_class_code_roundtrip() {
    for raw in 0..=0x07 {
        let occ = ObjectClassCode(raw);
        let oc = occ.into_class();
        assert_eq!(raw as usize, oc.into_usize());
    }
}

#[test]
fn unknown_event_ids() {
    assert_eq!(EventType::from(EventId(0x08)), EventType::Unknown(EventId(0x08)));
    assert_eq!(EventType::from(EventId(0xFFF)), EventType::Unknown(EventId(0xFFF)));
    assert_eq!(
        SnapshotEventType::from(SnapshotEventCode(0xFF)),
        SnapshotEventType::Unknown(SnapshotEventCode(0xFF))
    );
}

#[test]
fn streaming_event_code_fields() {
    let code = EventCode(0x3035);
    assert_eq!(code.event_id(), EventId(0x035));
    assert_eq!(code.parameter_count().0, 3);
    assert_eq!(code.event_type(), EventType::TaskSwitchTaskBegin);
    assert_eq!(EventType::from(EventId(0x93)), EventType::UserEvent(UserEventArgRecordCount(3)));
    assert_eq!(EventType::QueueReceive.expected_parameter_count(), Some(3));
    assert_eq!(EventType::ObjectName.expected_parameter_count(), None);
}

#[test]
fn snapshot_event_code_fields() {
    let rec = EventRecord::new([0x1B, 1, 2, 3]);
    assert_eq!(rec.event_code(), SnapshotEventCode(0x1B));
    assert_eq!(rec.as_slice(), &[0x1B, 1, 2, 3]);
    assert_eq!(
        SnapshotEventType::from(rec.event_code()),
        SnapshotEventType::CreateObject(ObjectClassCode(3))
    );
    assert_eq!(ObjectClassCode::from_raw(0x1B).into_raw(), 3);
    assert_eq!(
        SnapshotEventType::from(SnapshotEventCode(0x9A)),
        SnapshotEventType::UserEvent(UserEventArgRecordCount(2))
    );
}

#[test]
fn event_counter_tracking() {
    let mut ec = TrackingEventCounter::zero();
    assert_eq!(ec.count(), 0);

    // Reset initial count works
    ec.set_initial_count(EventCount(u16::MAX));
    assert_eq!(ec.count(), u16::MAX.into());

    // Non-rollover discontinuities
    ec.set_initial_count(EventCount(0));
    assert_eq!(ec.count(), 0);
    assert_eq!(ec.update(EventCount(10)), Some(9)); // Missed events 1..=9
    assert_eq!(ec.count(), 10);
    assert_eq!(ec.update(EventCount(12)), Some(1)); // Missed event 11
    assert_eq!(ec.count(), 12);
    assert_eq!(ec.update(EventCount(13)), None);
    assert_eq!(ec.count(), 13);

    // Rollover discontinuities
    ec.set_initial_count(EventCount(10));
    assert_eq!(ec.count(), 10);
    assert_eq!(
        ec.update(EventCount(10_u16.wrapping_add(u16::MAX))), // 9
        Some(u64::from(u16::MAX - 1)) // Missed events 11..<wrap-around>..=8
    );
    assert_eq!(ec.count(), u64::from(u16::MAX) + 10);
    assert_eq!(ec.update(EventCount(10)), None);
    assert_eq!(ec.count(), u64::from(u16::MAX) + 11);
    assert_eq!(ec.update(EventCount(12)), Some(1));
    assert_eq!(ec.count(), u64::from(u16::MAX) + 13);

    // Similar, but show that updating with same event count means a rollover
    ec.set_initial_count(EventCount(10));
    assert_eq!(ec.count(), 10);
    assert_eq!(
        ec.update(EventCount(10)),
        Some(u64::from(u16::MAX)) // Missed events 11..<wrap-around>..=9
    );
    assert_eq!(ec.count(), u64::from(u16::MAX) + 11);
}

#[test]
fn event_counter_accounting() {
    let mut ec = TrackingEventCounter::zero();
    ec.set_initial_count(EventCount(65530));
    let initial = ec.count();
    let seq = [65531_u16, 65534, 2, 3, 3, 100];
    let mut dropped = 0;
    for c in seq {
        dropped += ec.update(EventCount(c)).unwrap_or(0);
    }
    assert_eq!(dropped + seq.len() as u64, ec.count() - initial);
}
