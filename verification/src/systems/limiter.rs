//! The frame limiter: cap the loop at a desired frame rate and report the
//! measured rate every three hundred frames.  The platform layer supplies
//! a monotonic clock in nanoseconds and performs the sleep itself.

use vstd::prelude::*;

verus! {

/// Nanoseconds per second.
pub const NANOS_PER_SECOND: u64 = 1_000_000_000;

/// Frames between rate reports.
pub const REPORT_INTERVAL: u64 = 300;

/// The frame limiter's state: the frame budget and the counters behind the
/// rate report.
#[derive(Copy, Clone, Debug, PartialEq, Eq, Structural)]
pub struct FrameLimiterSystem {
    pub frame_duration_ns: u64,
    pub checkpoint_ns: u64,
    pub frames_since_last_checkpoint: u64,
    pub last_called_ns: u64,
    pub frame_count: u64,
}

/// A rate report: the total frame count and the measured rate in
/// milliframes per second.
#[derive(Copy, Clone, Debug, PartialEq, Eq, Structural)]
pub struct FrameReport {
    pub frame_count: u64,
    pub milli_fps: u64,
}

impl FrameLimiterSystem {
    /// A limiter aiming at `desired_fps` frames per second, starting its
    /// clock at zero.
    pub fn new(desired_fps: u32) -> (r: FrameLimiterSystem)
        requires
            desired_fps > 0,
        ensures
            r.frame_duration_ns == NANOS_PER_SECOND / (desired_fps as u64),
            r.checkpoint_ns == 0,
            r.frames_since_last_checkpoint == 0,
            r.last_called_ns == 0,
            r.frame_count == 0,
    {
        FrameLimiterSystem {
            frame_duration_ns: NANOS_PER_SECOND / (desired_fps as u64),
            checkpoint_ns: 0,
            frames_since_last_checkpoint: 0,
            last_called_ns: 0,
            frame_count: 0,
        }
    }

    /// Account one frame ending at `now_ns` and return how long to sleep:
    /// the remainder of the frame budget, or nothing when the frame ran
    /// over.  Every three hundredth frame also returns the measured rate
    /// since the last report and starts a new measurement.
    pub fn run(&mut self, now_ns: u64) -> (r: (u64, Option<FrameReport>))
        requires
            old(self).last_called_ns <= now_ns,
            old(self).checkpoint_ns <= now_ns,
            old(self).frame_count < u64::MAX,
            old(self).frames_since_last_checkpoint < 1_000_000,
            now_ns + old(self).frame_duration_ns <= u64::MAX,
        ensures
            final(self).frame_duration_ns == old(self).frame_duration_ns,
            final(self).frame_count == old(self).frame_count + 1,
            r.0 == if now_ns - old(self).last_called_ns <= old(self).frame_duration_ns {
                old(self).frame_duration_ns - (now_ns - old(self).last_called_ns)
            } else {
                0
            },
            final(self).last_called_ns == now_ns + r.0,
            final(self).last_called_ns >= old(self).last_called_ns,
            ((old(self).frame_count + 1) as int) % (REPORT_INTERVAL as int) == 0 <==> r.1 is Some,
            r.1 matches Some(rep) ==> {
                &&& rep.frame_count == old(self).frame_count + 1
                &&& rep.milli_fps == measured_milli_fps(
                    old(self).frames_since_last_checkpoint + 1,
                    old(self).checkpoint_ns as int,
                    now_ns + r.0,
                )
                &&& final(self).checkpoint_ns == now_ns + r.0
                &&& final(self).frames_since_last_checkpoint == 0
            },
            r.1 is None ==> {
                &&& final(self).checkpoint_ns == old(self).checkpoint_ns
                &&& final(self).frames_since_last_checkpoint == old(
                    self,
                ).frames_since_last_checkpoint + 1
            },
    {
        self.frame_count = self.frame_count + 1;
        self.frames_since_last_checkpoint = self.frames_since_last_checkpoint + 1;

        let elapsed = now_ns - self.last_called_ns;
        let sleep_ns: u64 = if elapsed <= self.frame_duration_ns {
            self.frame_duration_ns - elapsed
        } else {
            0
        };

        self.last_called_ns = now_ns + sleep_ns;
        if self.frame_count % REPORT_INTERVAL == 0 {
            let span = self.last_called_ns - self.checkpoint_ns;
            let milli_fps: u64 = if span > 0 {
                proof {
                    vstd::arithmetic::div_mod::lemma_div_nonincreasing(
                        self.frames_since_last_checkpoint * 1_000_000_000_000,
                        span as int,
                    );
                }
                ((self.frames_since_last_checkpoint as u128 * 1_000_000_000_000u128
                    / span as u128)) as u64
            } else {
                0
            };
            let report = FrameReport { frame_count: self.frame_count, milli_fps };
            self.checkpoint_ns = self.last_called_ns;
            self.frames_since_last_checkpoint = 0;
            (sleep_ns, Some(report))
        } else {
            (sleep_ns, None)
        }
    }
}

/// The measured rate: frames over the span from the checkpoint to the end
/// of the current frame, in milliframes per second; zero over an empty
/// span.
pub open spec fn measured_milli_fps(frames: int, checkpoint_ns: int, end_ns: int) -> int {
    if end_ns - checkpoint_ns > 0 {
        (frames * 1_000_000_000_000) / (end_ns - checkpoint_ns)
    } else {
        0
    }
}

} // verus!
