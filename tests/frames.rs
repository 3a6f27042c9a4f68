use tilemap::frames::{FrameReport, FrameStats, REPORT_INTERVAL_NS};

#[test]
fn no_report_within_interval() {
    let mut s = FrameStats::new(1000);
    assert_eq!(s.end_frame(1000, 2000), None);
    assert_eq!(s.end_frame(2000, 3000), None);
    assert_eq!(s, FrameStats { frames: 2, last_report_ns: 1000 });
}

#[test]
fn report_after_interval_resets() {
    let mut s = FrameStats::new(0);
    assert_eq!(s.end_frame(0, 400_000_000), None);
    assert_eq!(s.end_frame(400_000_000, 800_000_000), None);
    let r = s.end_frame(800_000_000, REPORT_INTERVAL_NS + 5);
    assert_eq!(r, Some(FrameReport { frames: 3, last_frame_ns: 200_000_005 }));
    assert_eq!(s, FrameStats { frames: 0, last_report_ns: REPORT_INTERVAL_NS + 5 });
}

#[test]
fn clock_going_back_counts_as_no_time() {
    let mut s = FrameStats::new(5_000_000_000);
    assert_eq!(s.end_frame(5_000_000_000, 10), None);
    assert_eq!(s.frames, 1);
}

#[test]
fn frame_count_saturates() {
    let mut s = FrameStats { frames: u64::MAX, last_report_ns: 0 };
    let r = s.end_frame(0, REPORT_INTERVAL_NS);
    assert_eq!(r, Some(FrameReport { frames: u64::MAX, last_frame_ns: REPORT_INTERVAL_NS }));
}
