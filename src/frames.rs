use vstd::prelude::*;

verus! {

/// How long, in nanoseconds, frames are counted before they are reported.
pub const REPORT_INTERVAL_NS: u64 = 1_000_000_000;

/// Nanoseconds from `from` to `to`; zero when the clock did not advance.
pub open spec fn elapsed(from: u64, to: u64) -> u64 {
    if to >= from {
        (to - from) as u64
    } else {
        0
    }
}

/// What is shown once per report interval: the frames drawn since the last
/// report, and how long the latest frame took.
#[derive(Debug, Clone, Copy, PartialEq, Eq, Structural)]
pub struct FrameReport {
    pub frames: u64,
    pub last_frame_ns: u64,
}

/// Frames drawn since the last report, and when that report was made.
#[derive(Debug, Clone, Copy, PartialEq, Eq, Structural)]
pub struct FrameStats {
    pub frames: u64,
    pub last_report_ns: u64,
}

fn elapsed_ns(from: u64, to: u64) -> (r: u64)
    ensures
        r == elapsed(from, to),
{
    if to >= from {
        to - from
    } else {
        0
    }
}

impl FrameStats {
    /// No frames counted yet; the interval starts at `now_ns`.
    pub fn new(now_ns: u64) -> (s: FrameStats)
        ensures
            s == (FrameStats { frames: 0, last_report_ns: now_ns }),
    {
        FrameStats { frames: 0, last_report_ns: now_ns }
    }

    /// Counts a frame that started at `frame_start_ns` and ended at `now_ns`.
    /// Once a whole interval has passed since the last report, returns the
    /// report and starts a new interval at `now_ns`.
    pub fn end_frame(&mut self, frame_start_ns: u64, now_ns: u64) -> (r: Option<FrameReport>)
        ensures
            ({
                let frames = if old(self).frames < u64::MAX {
                    (old(self).frames + 1) as u64
                } else {
                    u64::MAX
                };
                if elapsed(old(self).last_report_ns, now_ns) >= REPORT_INTERVAL_NS {
                    &&& r == Some(
                        FrameReport { frames, last_frame_ns: elapsed(frame_start_ns, now_ns) },
                    )
                    &&& *final(self) == FrameStats { frames: 0, last_report_ns: now_ns }
                } else {
                    &&& r is None
                    &&& *final(self) == FrameStats {
                        frames,
                        last_report_ns: old(self).last_report_ns,
                    }
                }
            }),
    {
        if self.frames < u64::MAX {
            self.frames = self.frames + 1;
        }
        if elapsed_ns(self.last_report_ns, now_ns) >= REPORT_INTERVAL_NS {
            let report = FrameReport {
                frames: self.frames,
                last_frame_ns: elapsed_ns(frame_start_ns, now_ns),
            };
            self.frames = 0;
            self.last_report_ns = now_ns;
            Some(report)
        } else {
            None
        }
    }
}

} // verus!
