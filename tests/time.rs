use trace_recorder_parser::time::{DifferentialTimestamp, Dts16, Dts8, StreamingInstant, Timestamp};

#[test]
fn time_differential_time_xts16() {
    let mut accumulated_time = Timestamp::zero();
    accumulated_time.0 += 0x0F;
    assert_eq!(accumulated_time.ticks(), 0x0F);
    let xts_16 = 0x00_03;
    let mut dts_for_next_event = DifferentialTimestamp::from_xts16(xts_16);
    assert_eq!(dts_for_next_event.ticks(), 0x00_03_00_00);
    let dts = Dts16(0x5F_D5);
    dts_for_next_event.add_dts16(dts);
    assert_eq!(dts_for_next_event.ticks(), 0x00_03_5F_D5);
    accumulated_time.add_assign(dts_for_next_event);
    assert_eq!(accumulated_time.ticks(), 0x00_03_5F_D5 + 0x0F);
}

#[test]
fn differential_time_xts8() {
    let mut accumulated_time = Timestamp::zero();
    accumulated_time.0 += 0x0F;
    assert_eq!(accumulated_time.ticks(), 0x0F);
    let xts_16 = 0x11_22;
    let xts_8 = 0xE1;
    let mut dts_for_next_event = DifferentialTimestamp::from_xts8(xts_8, xts_16);
    assert_eq!(dts_for_next_event.ticks(), 0xE1_11_22_00);
    let dts = Dts8(0x33);
    dts_for_next_event.add_dts8(dts);
    assert_eq!(dts_for_next_event.ticks(), 0xE1_11_22_33);
    accumulated_time.add_assign(dts_for_next_event);
    assert_eq!(accumulated_time.ticks(), 0xE1_11_22_33 + 0x0F);
}

#[test]
fn streaming_instant_rollover() {
    // 5 ms before rollover
    let t0 = Timestamp(4_294_967_290);
    // 10 ms after rollover
    let t1 = Timestamp(10);
    let mut instant = StreamingInstant::zero();
    assert_eq!(instant.elapsed(t0), t0);
    let t2 = instant.elapsed(t1);
    assert_eq!(t0.ticks() + 16, t2.ticks());
}

#[test]
fn streaming_instant_monotonic() {
    let mut instant = StreamingInstant::zero();
    let mut last = 0;
    for raw in [5_u64, 5, 3, 0xFFFF_FFFF, 0, 7, 7, 2] {
        let now = instant.elapsed(Timestamp(raw)).ticks();
        assert!(now >= last);
        last = now;
    }
    assert_eq!(last, 3 * 0x1_0000_0000 + 2);
    assert_eq!(instant.to_timestamp().ticks(), last);
}

#[test]
fn differential_time_clear_and_add() {
    let mut d = DifferentialTimestamp::from_xts16(1);
    d.clear();
    assert_eq!(d, DifferentialTimestamp::zero());
    let t = Timestamp(10).add(DifferentialTimestamp(5));
    assert_eq!(t.get_raw(), 15);
}
