//! Counters kept by the background inference worker of the high-quality suppressor: queue
//! occupancy, drops, late frames, errors and inference timing, and the diagnostics snapshot
//! built from them.
use vstd::prelude::*;
use crate::suppressor::SuppressorWorkerDiagnostics;

verus! {

/// `u64` addition that wraps around, as an atomic `fetch_add` does.
pub open spec fn wrap_u64(x: u64, y: u64) -> u64 {
    vstd::wrapping::u64_specs::wrapping_add(x, y)
}

/// `usize` addition that wraps around, as an atomic `fetch_add` does.
pub open spec fn wrap_usize(x: usize, y: usize) -> usize {
    vstd::wrapping::usize_specs::wrapping_add(x, y)
}

/// A recorded duration: zero means "not measured yet", anything else is shown, capped at
/// `u32::MAX`.
pub open spec fn nonzero_millis(value: u64) -> Option<u32> {
    if value == 0 {
        None
    } else if value > u32::MAX {
        Some(u32::MAX)
    } else {
        Some(value as u32)
    }
}

/// An inference time as stored: at least one millisecond.
pub open spec fn stored_millis(millis: u32) -> u64 {
    if millis == 0 { 1 } else { millis as u64 }
}

/// Converts a stored duration for display: `None` for zero, else the value capped at
/// `u32::MAX`.
pub fn nonzero_u64_to_u32(value: u64) -> (r: Option<u32>)
    ensures
        r == nonzero_millis(value),
{
    if value == 0 {
        None
    } else if value > 0xffff_ffffu64 {
        Some(u32::MAX)
    } else {
        Some(value as u32)
    }
}

/// The worker's counters. Every event bumps one of them; the snapshot turns them into
/// [`SuppressorWorkerDiagnostics`].
#[derive(Debug, Clone, Copy, PartialEq, Eq, Structural)]
pub struct DeepFilterNetWorkerMetrics {
    pub input_queue_capacity: usize,
    pub output_queue_capacity: usize,
    pub pending_input_frames: usize,
    pub pending_output_frames: usize,
    pub dropped_input_frames: u64,
    pub dropped_output_frames: u64,
    pub late_output_frames: u64,
    pub inference_errors: u64,
    pub last_inference_time_ms: u64,
    pub max_inference_time_ms: u64,
    pub degraded: bool,
}

impl DeepFilterNetWorkerMetrics {
    /// Empty queues of the given capacities, every counter at zero, not degraded.
    pub fn new(input_queue_capacity: usize, output_queue_capacity: usize) -> (r: Self)
        ensures
            r == (DeepFilterNetWorkerMetrics {
                input_queue_capacity,
                output_queue_capacity,
                pending_input_frames: 0,
                pending_output_frames: 0,
                dropped_input_frames: 0,
                dropped_output_frames: 0,
                late_output_frames: 0,
                inference_errors: 0,
                last_inference_time_ms: 0,
                max_inference_time_ms: 0,
                degraded: false,
            }),
    {
        DeepFilterNetWorkerMetrics {
            input_queue_capacity,
            output_queue_capacity,
            pending_input_frames: 0,
            pending_output_frames: 0,
            dropped_input_frames: 0,
            dropped_output_frames: 0,
            late_output_frames: 0,
            inference_errors: 0,
            last_inference_time_ms: 0,
            max_inference_time_ms: 0,
            degraded: false,
        }
    }

    /// A frame entered the input queue.
    pub fn record_input_enqueued(&mut self)
        ensures
            *final(self) == (DeepFilterNetWorkerMetrics {
                pending_input_frames: wrap_usize(old(self).pending_input_frames, 1),
                ..*old(self)
            }),
    {
        self.pending_input_frames = self.pending_input_frames.wrapping_add(1);
    }

    /// A frame left the input queue; the count never goes below zero.
    pub fn record_input_dequeued(&mut self)
        ensures
            *final(self) == (DeepFilterNetWorkerMetrics {
                pending_input_frames: if old(self).pending_input_frames == 0 {
                    0
                } else {
                    (old(self).pending_input_frames - 1) as usize
                },
                ..*old(self)
            }),
    {
        self.pending_input_frames = self.pending_input_frames.saturating_sub(1);
    }

    /// A processed frame entered the output queue.
    pub fn record_output_enqueued(&mut self)
        ensures
            *final(self) == (DeepFilterNetWorkerMetrics {
                pending_output_frames: wrap_usize(old(self).pending_output_frames, 1),
                ..*old(self)
            }),
    {
        self.pending_output_frames = self.pending_output_frames.wrapping_add(1);
    }

    /// A processed frame left the output queue; the count never goes below zero.
    pub fn record_output_dequeued(&mut self)
        ensures
            *final(self) == (DeepFilterNetWorkerMetrics {
                pending_output_frames: if old(self).pending_output_frames == 0 {
                    0
                } else {
                    (old(self).pending_output_frames - 1) as usize
                },
                ..*old(self)
            }),
    {
        self.pending_output_frames = self.pending_output_frames.saturating_sub(1);
    }

    /// An input frame was dropped because the input queue was full.
    pub fn record_dropped_input(&mut self)
        ensures
            *final(self) == (DeepFilterNetWorkerMetrics {
                dropped_input_frames: wrap_u64(old(self).dropped_input_frames, 1),
                ..*old(self)
            }),
    {
        self.dropped_input_frames = self.dropped_input_frames.wrapping_add(1);
    }

    /// A processed frame was dropped because the output queue was full.
    pub fn record_dropped_output(&mut self)
        ensures
            *final(self) == (DeepFilterNetWorkerMetrics {
                dropped_output_frames: wrap_u64(old(self).dropped_output_frames, 1),
                ..*old(self)
            }),
    {
        self.dropped_output_frames = self.dropped_output_frames.wrapping_add(1);
    }

    /// No processed frame was ready when the audio callback needed one.
    pub fn record_late_output(&mut self)
        ensures
            *final(self) == (DeepFilterNetWorkerMetrics {
                late_output_frames: wrap_u64(old(self).late_output_frames, 1),
                ..*old(self)
            }),
    {
        self.late_output_frames = self.late_output_frames.wrapping_add(1);
    }

    /// The model failed on a frame.
    pub fn record_inference_error(&mut self)
        ensures
            *final(self) == (DeepFilterNetWorkerMetrics {
                inference_errors: wrap_u64(old(self).inference_errors, 1),
                ..*old(self)
            }),
    {
        self.inference_errors = self.inference_errors.wrapping_add(1);
    }

    /// One inference took `millis` milliseconds (counted as at least one): it becomes the
    /// last time, and the maximum if it is the longest so far.
    pub fn record_inference_time_ms(&mut self, millis: u32)
        ensures
            final(self).last_inference_time_ms == stored_millis(millis),
            final(self).max_inference_time_ms == if stored_millis(millis) > old(self).max_inference_time_ms {
                stored_millis(millis)
            } else {
                old(self).max_inference_time_ms
            },
            final(self).max_inference_time_ms >= final(self).last_inference_time_ms,
            final(self).max_inference_time_ms >= old(self).max_inference_time_ms,
            *final(self) == (DeepFilterNetWorkerMetrics {
                last_inference_time_ms: final(self).last_inference_time_ms,
                max_inference_time_ms: final(self).max_inference_time_ms,
                ..*old(self)
            }),
    {
        let stored: u64 = if millis == 0 { 1 } else { millis as u64 };
        self.last_inference_time_ms = stored;
        if stored > self.max_inference_time_ms {
            self.max_inference_time_ms = stored;
        }
    }

    /// The worker fell back to passing audio through.
    pub fn mark_degraded(&mut self)
        ensures
            *final(self) == (DeepFilterNetWorkerMetrics { degraded: true, ..*old(self) }),
    {
        self.degraded = true;
    }

    /// The diagnostics the UI shows: every counter as it stands, and each timing only once
    /// one has been recorded.
    pub fn snapshot(&self) -> (r: SuppressorWorkerDiagnostics)
        ensures
            r == (SuppressorWorkerDiagnostics {
                input_queue_capacity: self.input_queue_capacity,
                pending_input_frames: self.pending_input_frames,
                output_queue_capacity: self.output_queue_capacity,
                pending_output_frames: self.pending_output_frames,
                dropped_input_frames: self.dropped_input_frames,
                dropped_output_frames: self.dropped_output_frames,
                late_output_frames: self.late_output_frames,
                inference_errors: self.inference_errors,
                last_inference_time_ms: nonzero_millis(self.last_inference_time_ms),
                max_inference_time_ms: nonzero_millis(self.max_inference_time_ms),
                degraded: self.degraded,
            }),
    {
        let last = nonzero_u64_to_u32(self.last_inference_time_ms);
        let max = nonzero_u64_to_u32(self.max_inference_time_ms);
        let mut diagnostics = SuppressorWorkerDiagnostics::new(
            self.input_queue_capacity,
            self.pending_input_frames,
            self.output_queue_capacity,
            self.pending_output_frames,
        ).with_dropped_input_frames(self.dropped_input_frames).with_dropped_output_frames(
            self.dropped_output_frames,
        ).with_late_output_frames(self.late_output_frames).with_inference_errors(
            self.inference_errors,
        ).with_degraded(self.degraded);
        if let Some(last) = last {
            diagnostics = diagnostics.with_last_inference_time_ms(last);
        }
        if let Some(max) = max {
            diagnostics = diagnostics.with_max_inference_time_ms(max);
        }
        diagnostics
    }
}

/// Once any inference time has been recorded, the snapshot shows a maximum at least as
/// large as the last time.
pub proof fn lemma_snapshot_max_not_below_last(m: DeepFilterNetWorkerMetrics)
    requires
        m.max_inference_time_ms >= m.last_inference_time_ms,
        m.last_inference_time_ms > 0,
    ensures
        nonzero_millis(m.last_inference_time_ms) is Some,
        nonzero_millis(m.max_inference_time_ms) is Some,
        nonzero_millis(m.max_inference_time_ms)->0 >= nonzero_millis(m.last_inference_time_ms)->0,
{
}

} // verus!
