use keypoint::clock::MAX_TICKS;
use keypoint::pointer_speed::{
    cursor_mode, cursor_mult, go_cursor, go_scroll, is_scrolling, scroll_div, scroll_mode,
    set_cursor_tier, set_scroll_tier, set_scrolling, PointerSettings, NUB_ID, NUB_SPEED_TIERS,
    PAD_ID, SCROLL_TIERS, SPEED_TIERS,
};
use keypoint::pointing::{
    Axis, AxisValType, PointingEvent, PointingMode, PointingProcessorEvent, ScrollConfig,
    SniperConfig,
};
use keypoint::tp_diag;
use keypoint::tp_diag::TpStats;
use keypoint::trackpad;
use keypoint::trackpad::{err_kind, read_packet, BusError, MotionWait, PadAction, PadEvent, PadStats, A320};
use keypoint::trackpoint;
use keypoint::trackpoint::{NubAction, NubEvent, TrackPoint, NOTHING_SENT};

const SECOND: u64 = 32_768;

fn sniper(multiplier: u8, divisor: u8, invert_x: bool) -> PointingMode {
    PointingMode::Sniper(SniperConfig { multiplier, divisor, invert_x, invert_y: false })
}

fn wheel(divisor: u8) -> PointingMode {
    PointingMode::Scroll(ScrollConfig {
        multiplier_x: 1,
        divisor_x: divisor,
        multiplier_y: 1,
        divisor_y: divisor,
        invert_x: false,
        invert_y: false,
    })
}

fn displacement(e: &PointingEvent) -> (u8, i16, i16) {
    assert_eq!(e.axes.map(|a| a.axis), [Axis::X, Axis::Y, Axis::Z]);
    assert!(e.axes.iter().all(|a| a.typ == AxisValType::Rel));
    assert_eq!(e.axes[2].value, 0);
    (e.device_id, e.axes[0].value, e.axes[1].value)
}

#[test]
fn boot_settings() {
    let s = PointerSettings::new();
    assert_eq!((cursor_mult(&s, PAD_ID), scroll_div(&s, PAD_ID)), (2, 34));
    assert_eq!((cursor_mult(&s, NUB_ID), scroll_div(&s, NUB_ID)), (3, 17));
    assert!(!is_scrolling(&s, PAD_ID) && !is_scrolling(&s, NUB_ID));
    assert_eq!(cursor_mode(&s, PAD_ID), sniper(1, 3, true));
    assert_eq!(cursor_mode(&s, NUB_ID), sniper(2, 5, false));
    assert_eq!(scroll_mode(&s, PAD_ID), wheel(34));
    assert_eq!(scroll_mode(&s, NUB_ID), wheel(17));
}

#[test]
fn tiers_out_of_range_are_refused() {
    let mut s = PointerSettings::new();
    let before = s;
    for tier in [0u8, 9, 255] {
        assert!(!set_cursor_tier(&mut s, PAD_ID, tier));
        assert!(!set_scroll_tier(&mut s, NUB_ID, tier));
    }
    assert_eq!(s, before);
}

#[test]
fn tiers_reach_their_device_only() {
    let mut s = PointerSettings::new();
    assert!(set_cursor_tier(&mut s, PAD_ID, 8));
    assert!(set_scroll_tier(&mut s, PAD_ID, 1));
    assert_eq!(s.nub, PointerSettings::new().nub);
    assert_eq!((s.pad.cursor, s.pad.scroll), (8, 120));
    assert!(set_cursor_tier(&mut s, NUB_ID, 1));
    assert!(set_scroll_tier(&mut s, NUB_ID, 8));
    assert_eq!((s.nub.cursor, s.nub.scroll), (1, 9));
    assert_eq!(cursor_mode(&s, PAD_ID), sniper(2, 1, true));
    assert_eq!(cursor_mode(&s, NUB_ID), sniper(1, 5, false));
}

#[test]
fn every_id_but_the_pads_is_the_sticks() {
    let mut s = PointerSettings::new();
    set_scrolling(&mut s, 7, true);
    assert!(is_scrolling(&s, NUB_ID) && is_scrolling(&s, 200));
    assert!(!is_scrolling(&s, PAD_ID));
}

#[test]
fn unknown_tiers_pass_through() {
    let mut s = PointerSettings::new();
    s.pad.cursor = 9;
    s.nub.cursor = 255;
    assert_eq!(cursor_mode(&s, PAD_ID), sniper(1, 1, true));
    assert_eq!(cursor_mode(&s, NUB_ID), sniper(1, 1, false));
    s.pad.cursor = 0;
    s.nub.cursor = 0;
    assert_eq!(cursor_mode(&s, PAD_ID), sniper(1, 1, true));
    assert_eq!(cursor_mode(&s, NUB_ID), sniper(1, 1, false));
}

#[test]
fn tiers_ascend_and_the_stick_is_slower() {
    for i in 0..8 {
        let (pm, pd) = SPEED_TIERS[i];
        let (nm, nd) = NUB_SPEED_TIERS[i];
        assert!(nm as u32 * (pd as u32) < pm as u32 * nd as u32);
        if i > 0 {
            let (m, d) = SPEED_TIERS[i - 1];
            assert!(m as u32 * (pd as u32) < pm as u32 * d as u32);
            let (m, d) = NUB_SPEED_TIERS[i - 1];
            assert!(m as u32 * (nd as u32) < nm as u32 * d as u32);
            assert!(SCROLL_TIERS[i] < SCROLL_TIERS[i - 1]);
        }
    }
}

#[test]
fn modes_are_recorded_and_published() {
    let mut s = PointerSettings::new();
    let e = go_scroll(&mut s, NUB_ID);
    assert_eq!(e, PointingProcessorEvent { device_id: NUB_ID, mode: wheel(17) });
    assert!(is_scrolling(&s, NUB_ID));
    let e = go_cursor(&mut s, NUB_ID);
    assert_eq!(e, PointingProcessorEvent { device_id: NUB_ID, mode: sniper(2, 5, false) });
    assert_eq!(s, PointerSettings::new());
}

#[test]
fn bus_errors_have_codes() {
    let all = [
        BusError::NoAckAddress,
        BusError::NoAckData,
        BusError::Bus,
        BusError::ArbitrationLoss,
        BusError::Overrun,
        BusError::Other,
    ];
    for (i, e) in all.iter().enumerate() {
        assert_eq!(err_kind(*e), i as u32 + 1);
    }
}

#[test]
fn pad_packets_are_counted_and_signed() {
    let mut st = PadStats::new();
    assert_eq!(read_packet(&mut st, trackpad::PacketRead::Data([0, 5, 7])), Some((5, -7)));
    assert_eq!(read_packet(&mut st, trackpad::PacketRead::Data([0, 0xFB, 0xF9])), Some((-5, 7)));
    assert_eq!(read_packet(&mut st, trackpad::PacketRead::Data([9, 0, 0])), None);
    assert_eq!(read_packet(&mut st, trackpad::PacketRead::Data([0, 0x80, 0x80])), Some((-128, 128)));
    assert_eq!((trackpad::n_ok(&st), trackpad::n_err(&st), trackpad::n_lerr(&st)), (4, 0, 0));
    let failed = trackpad::PacketRead::Failed(BusError::ArbitrationLoss);
    assert_eq!(read_packet(&mut st, failed), None);
    assert_eq!((trackpad::n_err(&st), trackpad::n_lerr(&st)), (1, 4));
    assert_eq!(read_packet(&mut st, trackpad::PacketRead::TimedOut), None);
    assert_eq!((trackpad::n_err(&st), trackpad::n_lerr(&st)), (2, 9));
    assert_eq!((trackpad::n_motion(&st), trackpad::n_pub(&st)), (0, 0));
}

#[test]
fn pad_counters_wrap() {
    let mut st = PadStats::new();
    st.n_ok = u32::MAX;
    read_packet(&mut st, trackpad::PacketRead::Data([0, 1, 1]));
    assert_eq!(st.n_ok, 0);
}

#[test]
fn pad_displacements_are_scaled() {
    let pad = A320::new(0, 0);
    let mut s = PointerSettings::new();
    assert_eq!(pad.scaled(&s, 5, 7), (-5, 7));
    assert_eq!(pad.scaled(&s, 1, -1), (0, 0));
    assert_eq!(pad.scaled(&s, -2, 2), (2, 2));
    assert_eq!(pad.scaled(&s, i16::MIN, i16::MAX), (32768, 32767));
    assert_eq!(pad.scaled(&s, i16::MAX, i16::MIN), (-32767, -32768));
    s.pad.scrolling = true;
    assert_eq!(pad.scaled(&s, 5, 7), (-5, 7));
}

fn pad_step(pad: &mut A320, st: &mut PadStats, event: PadEvent) -> PadAction {
    pad.read_pointing_event(st, &PointerSettings::new(), event)
}

fn pad_packet(dx: u8, dy: u8) -> PadEvent {
    PadEvent::Packet(trackpad::PacketRead::Data([0, dx, dy]))
}

#[test]
fn a_stroke_is_drained_and_published() {
    let mut pad = A320::new(0, 0);
    let mut st = PadStats::new();
    let ready = PadEvent::Ready { sleeping: false };
    assert!(matches!(pad_step(&mut pad, &mut st, ready), PadAction::WaitMotion));
    let edge = PadEvent::Motion { wait: MotionWait::Edge, now: SECOND };
    assert!(matches!(pad_step(&mut pad, &mut st, edge), PadAction::Read));
    assert!(matches!(pad_step(&mut pad, &mut st, pad_packet(10, 3)), PadAction::Read));
    assert!(matches!(pad_step(&mut pad, &mut st, pad_packet(20, 4)), PadAction::Read));
    assert!(matches!(pad_step(&mut pad, &mut st, pad_packet(0, 0)), PadAction::Pause));
    match pad_step(&mut pad, &mut st, PadEvent::Paused) {
        PadAction::Publish(e) => assert_eq!(displacement(&e), (0, -30, -7)),
        _ => panic!("nothing published"),
    }
    assert_eq!((pad.residue_x, pad.residue_y), (0, 0));
    assert_eq!((pad.last_activity, pad.last_touch), (SECOND, SECOND));
    assert_eq!(
        (trackpad::n_motion(&st), trackpad::n_ok(&st), trackpad::n_pub(&st)),
        (1, 3, 1)
    );
}

#[test]
fn noise_is_not_published() {
    let mut pad = A320::new(0, 0);
    let mut st = PadStats::new();
    pad_step(&mut pad, &mut st, PadEvent::Ready { sleeping: false });
    pad_step(&mut pad, &mut st, PadEvent::Motion { wait: MotionWait::TimedOut, now: 5 });
    assert!(matches!(pad_step(&mut pad, &mut st, pad_packet(1, 0)), PadAction::Read));
    let failed = PadEvent::Packet(trackpad::PacketRead::TimedOut);
    assert!(matches!(pad_step(&mut pad, &mut st, failed), PadAction::Pause));
    assert!(matches!(pad_step(&mut pad, &mut st, PadEvent::Paused), PadAction::Again));
    assert_eq!((trackpad::n_motion(&st), trackpad::n_pub(&st)), (0, 0));
}

#[test]
fn a_sleeping_pad_is_left_alone() {
    let mut pad = A320::new(0, 0);
    let before = pad;
    let mut st = PadStats::new();
    let asleep = PadEvent::Ready { sleeping: true };
    assert!(matches!(pad_step(&mut pad, &mut st, asleep), PadAction::Sleep));
    assert_eq!(pad, before);
    assert_eq!(st, PadStats::new());
}

#[test]
fn silence_drops_the_residue() {
    let mut pad = A320::new(0, 0);
    let mut st = PadStats::new();
    // 200 ms are 6553.6 ticks: the first reading that counts 201 ms is 6587.
    for (now, kept) in [(6586u64, 3), (6587, 0)] {
        pad.residue_x = 3;
        pad.residue_y = 3;
        pad.last_activity = 0;
        pad.last_touch = now;
        pad_step(&mut pad, &mut st, PadEvent::Ready { sleeping: false });
        pad_step(&mut pad, &mut st, PadEvent::Motion { wait: MotionWait::Failed, now });
        assert_eq!((pad.residue_x, pad.residue_y), (kept, kept));
        assert!(matches!(pad_step(&mut pad, &mut st, pad_packet(0, 0)), PadAction::Again));
    }
    assert_eq!(pad.last_activity, 6587);
}

#[test]
fn an_untouched_pad_keeps_nothing() {
    let mut pad = A320::new(0, 0);
    let mut st = PadStats::new();
    // 51 ms are first counted at tick 1672.
    for (now, kept) in [(1671u64, 4), (1672, 0)] {
        pad.residue_x = 4;
        pad.residue_y = 4;
        pad_step(&mut pad, &mut st, PadEvent::Ready { sleeping: false });
        pad_step(&mut pad, &mut st, PadEvent::Motion { wait: MotionWait::TimedOut, now });
        assert!(matches!(pad_step(&mut pad, &mut st, pad_packet(0, 0)), PadAction::Again));
        assert_eq!((pad.residue_x, pad.residue_y), (kept, kept));
    }
}

#[test]
fn the_clock_may_run_for_ever() {
    let mut pad = A320::new(0, MAX_TICKS);
    let mut st = PadStats::new();
    pad.residue_x = 9;
    pad_step(&mut pad, &mut st, PadEvent::Ready { sleeping: false });
    // An edge stamped before the last activity is no silence.
    pad_step(&mut pad, &mut st, PadEvent::Motion { wait: MotionWait::Edge, now: 1 });
    assert_eq!(pad.residue_x, 9);
    let mut pad = A320::new(0, 0);
    pad.residue_x = 9;
    pad_step(&mut pad, &mut st, PadEvent::Ready { sleeping: false });
    pad_step(&mut pad, &mut st, PadEvent::Motion { wait: MotionWait::Edge, now: MAX_TICKS });
    assert_eq!(pad.residue_x, 0);
}

#[test]
fn long_bursts_saturate() {
    let mut pad = A320::new(0, 0);
    let mut st = PadStats::new();
    pad_step(&mut pad, &mut st, PadEvent::Ready { sleeping: false });
    pad_step(&mut pad, &mut st, PadEvent::Motion { wait: MotionWait::Edge, now: 0 });
    for _ in 0..300 {
        pad_step(&mut pad, &mut st, pad_packet(127, 129));
    }
    pad_step(&mut pad, &mut st, pad_packet(0, 0));
    match pad_step(&mut pad, &mut st, PadEvent::Paused) {
        PadAction::Publish(e) => assert_eq!(displacement(&e), (0, -32767, 32767)),
        _ => panic!("nothing published"),
    }
}

#[test]
fn the_longest_burst_is_reported() {
    let mut pad = A320::new(0, 0);
    let mut st = PadStats::new();
    pad_step(&mut pad, &mut st, PadEvent::Ready { sleeping: false });
    pad_step(&mut pad, &mut st, PadEvent::Motion { wait: MotionWait::Edge, now: 0 });
    for _ in 0..300 {
        pad_step(&mut pad, &mut st, pad_packet(128, 127));
    }
    pad_step(&mut pad, &mut st, pad_packet(0, 0));
    match pad_step(&mut pad, &mut st, PadEvent::Paused) {
        PadAction::Publish(e) => assert_eq!(displacement(&e), (0, 32767, -32768)),
        _ => panic!("nothing published"),
    }
    assert_eq!((pad.residue_x, pad.residue_y), (1, 0));
}

#[test]
fn a_carried_residue_is_reported_with_the_next_stroke() {
    let mut pad = A320::new(0, 0);
    let mut st = PadStats::new();
    pad.residue_x = 40_000;
    pad_step(&mut pad, &mut st, PadEvent::Ready { sleeping: false });
    pad_step(&mut pad, &mut st, PadEvent::Motion { wait: MotionWait::Edge, now: 0 });
    pad_step(&mut pad, &mut st, pad_packet(0, 246));
    pad_step(&mut pad, &mut st, pad_packet(0, 0));
    match pad_step(&mut pad, &mut st, PadEvent::Paused) {
        PadAction::Publish(e) => assert_eq!(displacement(&e), (0, 32767, 10)),
        _ => panic!("nothing published"),
    }
    assert_eq!((pad.residue_x, pad.residue_y), (40_000 - 32_767, 0));
}

fn nub_packet(b0: u8, dx: u8, dy: u8) -> trackpoint::PacketRead {
    trackpoint::PacketRead::Data([b0, 0x11, dx, dy, 0, 0, 0])
}

#[test]
fn nub_packets_are_checked() {
    let mut sent = NOTHING_SENT;
    let mut tp = TpStats::new();
    assert_eq!(TrackPoint::read_packet(&mut sent, &mut tp, nub_packet(0x50, 10, 0xF6)), Some((10, -10)));
    assert_eq!((tp_diag::last_dx(&tp), tp_diag::last_dy(&tp)), (10, -10));
    assert_eq!((tp_diag::last_b0(&tp), tp_diag::last_b1(&tp)), (0x50, 0x11));
    assert_eq!(TrackPoint::read_packet(&mut sent, &mut tp, nub_packet(0xFF, 1, 1)), None);
    assert_eq!((tp_diag::n_bad(&tp), tp_diag::last_bad_b0(&tp)), (1, 0xFF));
    assert_eq!(TrackPoint::read_packet(&mut sent, &mut tp, trackpoint::PacketRead::Failed), None);
    assert_eq!((tp_diag::n_read(&tp), tp_diag::n_err(&tp)), (2, 1));
    assert_eq!((tp_diag::n_irq(&tp), tp_diag::n_pub(&tp)), (0, 0));
}

#[test]
fn repeated_nub_packets_are_dropped() {
    let mut sent = NOTHING_SENT;
    let mut tp = TpStats::new();
    assert!(TrackPoint::read_packet(&mut sent, &mut tp, nub_packet(0x50, 9, 9)).is_some());
    assert!(TrackPoint::read_packet(&mut sent, &mut tp, nub_packet(0x50, 9, 9)).is_none());
    assert!(TrackPoint::read_packet(&mut sent, &mut tp, trackpoint::PacketRead::Failed).is_none());
    assert!(TrackPoint::read_packet(&mut sent, &mut tp, nub_packet(0x50, 9, 9)).is_none());
    assert!(TrackPoint::read_packet(&mut sent, &mut tp, nub_packet(0x50, 9, 8)).is_some());
    assert!(TrackPoint::read_packet(&mut sent, &mut tp, nub_packet(0x50, 9, 9)).is_some());
    assert_eq!(tp_diag::n_read(&tp), 5);
}

#[test]
fn the_first_nub_packet_counts_even_at_rest() {
    let mut sent = NOTHING_SENT;
    let mut tp = TpStats::new();
    assert_eq!(TrackPoint::read_packet(&mut sent, &mut tp, nub_packet(0x50, 0, 0)), Some((0, 0)));
    assert_eq!(TrackPoint::read_packet(&mut sent, &mut tp, nub_packet(0x50, 0, 0)), None);
}

#[test]
fn failed_reads_and_bad_packets_do_not_let_a_repeat_through() {
    let mut sent = NOTHING_SENT;
    let mut tp = TpStats::new();
    assert_eq!(TrackPoint::read_packet(&mut sent, &mut tp, nub_packet(0x50, 9, 8)), Some((9, 8)));
    assert_eq!(sent, 9 * 256 + 8);
    for read in [
        trackpoint::PacketRead::Failed,
        trackpoint::PacketRead::Failed,
        nub_packet(0x51, 7, 7),
        nub_packet(0x50, 9, 8),
        trackpoint::PacketRead::Failed,
        nub_packet(0xFF, 0, 0),
        nub_packet(0x50, 9, 8),
    ] {
        assert_eq!(TrackPoint::read_packet(&mut sent, &mut tp, read), None);
        assert_eq!(sent, 9 * 256 + 8);
    }
    assert_eq!(TrackPoint::read_packet(&mut sent, &mut tp, nub_packet(0x50, 8, 9)), Some((8, 9)));
    assert_eq!((tp_diag::n_read(&tp), tp_diag::n_err(&tp), tp_diag::n_bad(&tp)), (6, 3, 2));
}

#[test]
fn what_was_sent_outlives_a_driver() {
    let mut sent = NOTHING_SENT;
    let mut tp = TpStats::new();
    let mut first = TrackPoint::new(1, 0);
    let r = nub_to_acceleration(&mut first, &mut sent, &mut tp, 5, 9, 9);
    assert!(matches!(r, NubAction::Accelerate { .. }));
    let mut second = TrackPoint::new(1, 6);
    let r = nub_to_acceleration(&mut second, &mut sent, &mut tp, 7, 9, 9);
    assert!(matches!(r, NubAction::Again));
}

#[test]
fn drift_is_ignored() {
    let mut nub = TrackPoint::new(1, 0);
    let mut sent = NOTHING_SENT;
    let mut tp = TpStats::new();
    assert_eq!(TrackPoint::read_packet(&mut sent, &mut tp, nub_packet(0x50, 2, 0xFE)), Some((0, 0)));
    assert_eq!(TrackPoint::read_packet(&mut sent, &mut tp, nub_packet(0x50, 3, 0xFD)), Some((3, -3)));
    assert_eq!(TrackPoint::read_packet(&mut sent, &mut tp, nub_packet(0x50, 0x80, 0x7F)), Some((-128, 127)));
    assert_eq!(TrackPoint::read_packet(&mut sent, &mut tp, nub_packet(0x50, 0x80, 2)), Some((-128, 0)));
    assert_eq!((tp_diag::last_dx(&tp), tp_diag::last_dy(&tp)), (-128, 2));
}

fn nub_to_acceleration(
    nub: &mut TrackPoint,
    sent: &mut u32,
    tp: &mut TpStats,
    now: u64,
    dx: u8,
    dy: u8,
) -> NubAction {
    let ready = nub.read_pointing_event(sent, tp, NubEvent::Ready { sleeping: false });
    assert!(matches!(ready, NubAction::WaitEdge));
    let woken = nub.read_pointing_event(sent, tp, NubEvent::Woken { edge: true, now });
    assert!(matches!(woken, NubAction::Read));
    nub.read_pointing_event(sent, tp, NubEvent::Packet(nub_packet(0x50, dx, dy)))
}

#[test]
fn a_nub_stroke_is_accelerated_reversed_and_published() {
    let mut nub = TrackPoint::new(1, 0);
    let mut sent = NOTHING_SENT;
    let mut tp = TpStats::new();
    match nub_to_acceleration(&mut nub, &mut sent, &mut tp, SECOND / 2, 30, 0xEC) {
        NubAction::Accelerate { dx, dy, dist, gap_ms } => {
            assert_eq!((dx, dy, dist, gap_ms), (30, -20, 50, 500));
        }
        _ => panic!("no acceleration"),
    }
    assert_eq!(nub.last_packet, SECOND / 2);
    let pause = nub.read_pointing_event(&mut sent, &mut tp, NubEvent::Accelerated { fx: 40, fy: -27 });
    assert!(matches!(pause, NubAction::Pause));
    match nub.read_pointing_event(&mut sent, &mut tp, NubEvent::Paused) {
        NubAction::Publish(e) => assert_eq!(displacement(&e), (1, -40, 27)),
        _ => panic!("nothing published"),
    }
    assert_eq!((tp_diag::n_irq(&tp), tp_diag::n_pub(&tp)), (1, 1));
}

#[test]
fn only_edges_are_counted() {
    let mut nub = TrackPoint::new(1, 0);
    let mut sent = NOTHING_SENT;
    let mut tp = TpStats::new();
    for (edge, count) in [(false, 0), (false, 0), (true, 1), (false, 1), (true, 2)] {
        nub.read_pointing_event(&mut sent, &mut tp, NubEvent::Ready { sleeping: false });
        let r = nub.read_pointing_event(&mut sent, &mut tp, NubEvent::Woken { edge, now: 5 });
        assert!(matches!(r, NubAction::Read));
        nub.read_pointing_event(&mut sent, &mut tp, NubEvent::Packet(trackpoint::PacketRead::Failed));
        assert_eq!(tp_diag::n_irq(&tp), count);
    }
    assert_eq!(tp_diag::n_err(&tp), 5);
}

#[test]
fn the_hardest_shove_has_its_whole_distance() {
    let mut nub = TrackPoint::new(1, 0);
    let mut sent = NOTHING_SENT;
    let mut tp = TpStats::new();
    match nub_to_acceleration(&mut nub, &mut sent, &mut tp, SECOND, 0x80, 0x80) {
        NubAction::Accelerate { dx, dy, dist, gap_ms } => {
            assert_eq!((dx, dy, dist, gap_ms), (-128, -128, 256, 1000));
        }
        _ => panic!("no acceleration"),
    }
}

#[test]
fn a_gap_of_nothing_counts_as_a_millisecond() {
    let mut nub = TrackPoint::new(1, 77);
    let mut sent = NOTHING_SENT;
    let mut tp = TpStats::new();
    match nub_to_acceleration(&mut nub, &mut sent, &mut tp, 77, 5, 5) {
        NubAction::Accelerate { gap_ms, .. } => assert_eq!(gap_ms, 1),
        _ => panic!("no acceleration"),
    }
}

#[test]
fn hard_shoves_are_clamped_and_weak_ones_dropped() {
    let mut nub = TrackPoint::new(1, 0);
    let mut sent = NOTHING_SENT;
    let mut tp = TpStats::new();
    nub_to_acceleration(&mut nub, &mut sent, &mut tp, 1, 100, 100);
    nub.read_pointing_event(&mut sent, &mut tp, NubEvent::Accelerated { fx: 248, fy: -248 });
    match nub.read_pointing_event(&mut sent, &mut tp, NubEvent::Paused) {
        NubAction::Publish(e) => assert_eq!(displacement(&e), (1, -128, 127)),
        _ => panic!("nothing published"),
    }
    nub_to_acceleration(&mut nub, &mut sent, &mut tp, 2, 0, 0);
    nub.read_pointing_event(&mut sent, &mut tp, NubEvent::Accelerated { fx: 0, fy: 0 });
    assert!(matches!(nub.read_pointing_event(&mut sent, &mut tp, NubEvent::Paused), NubAction::Again));
    assert_eq!(tp_diag::n_pub(&tp), 1);
}

#[test]
fn extreme_accelerations_are_truncated() {
    for (fx, x) in [(i32::MIN, 0i16), (32_768, -32_768), (-32_768, -32_768), (65_537, -1), (i32::MAX, 1)] {
        assert_eq!(keypoint::bytes::negate_low16(fx), x);
        assert_eq!(fx.wrapping_neg() as i16, x);
    }
}

#[test]
fn a_bad_nub_packet_ends_the_round() {
    let mut nub = TrackPoint::new(1, 0);
    let mut sent = NOTHING_SENT;
    let mut tp = TpStats::new();
    nub.read_pointing_event(&mut sent, &mut tp, NubEvent::Ready { sleeping: false });
    nub.read_pointing_event(&mut sent, &mut tp, NubEvent::Woken { edge: false, now: 9 });
    let r = nub.read_pointing_event(&mut sent, &mut tp, NubEvent::Packet(trackpoint::PacketRead::Failed));
    assert!(matches!(r, NubAction::Again));
    assert_eq!(nub, TrackPoint::new(1, 0));
    let r = nub.read_pointing_event(&mut sent, &mut tp, NubEvent::Ready { sleeping: true });
    assert!(matches!(r, NubAction::Sleep));
}

#[test]
fn displacements_survive_storage() {
    let mut sent = NOTHING_SENT;
    let mut tp = TpStats::new();
    for b in 0..=255u8 {
        TrackPoint::read_packet(&mut sent, &mut tp, nub_packet(0x50, b, b));
        assert_eq!(tp_diag::last_dx(&tp), b as i8);
        assert_eq!(tp_diag::last_dy(&tp), b as i8);
        assert_eq!(tp.last_dx, b as i8 as i32 as u32);
    }
}
