//! Cuts a stream of samples into fixed-size frames.
use vstd::prelude::*;
use std::collections::VecDeque;
use vstd::string::*;
use crate::text::{decimal, push_decimal};

verus! {

broadcast use vstd::string::group_string_axioms;

/// Collects samples and hands them out a whole frame at a time, in arrival order.
#[derive(Debug)]
pub struct FrameChunker<T> {
    frame_size_samples: usize,
    pending: VecDeque<T>,
}

/// The output buffer of `try_pop_frame` has another length than a frame.
#[derive(Debug, Clone, Copy, PartialEq, Eq, Structural)]
pub enum FrameChunkerError {
    FrameBufferSizeMismatch { expected: usize, actual: usize },
}

impl FrameChunkerError {
    /// The text of the error.
    pub fn message(&self) -> (r: String)
        ensures
            match *self {
                FrameChunkerError::FrameBufferSizeMismatch { expected, actual } => r@
                    == "frame buffer length "@ + decimal(actual as nat) + " does not match frame size "@
                    + decimal(expected as nat),
            },
    {
        match self {
            FrameChunkerError::FrameBufferSizeMismatch { expected, actual } => {
                let mut r = String::from_str("frame buffer length ");
                push_decimal(&mut r, *actual as u64);
                r.append(" does not match frame size ");
                push_decimal(&mut r, *expected as u64);
                r
            },
        }
    }
}

impl<T: Copy> FrameChunker<T> {
    /// The frame size in samples (at least one).
    pub closed spec fn spec_frame_size(&self) -> nat {
        self.frame_size_samples as nat
    }

    /// Samples received and not yet handed out, oldest first.
    pub closed spec fn spec_pending(&self) -> Seq<T> {
        self.pending@
    }

    pub closed spec fn wf(&self) -> bool {
        self.frame_size_samples >= 1
    }

    /// A chunker for frames of `frame_size_samples` samples (at least one).
    pub fn new(frame_size_samples: usize) -> (r: Self)
        ensures
            r.wf(),
            r.spec_frame_size() == if frame_size_samples >= 1 { frame_size_samples as nat } else { 1 },
            r.spec_pending() == Seq::<T>::empty(),
    {
        let frame_size_samples = if frame_size_samples >= 1 { frame_size_samples } else { 1 };
        FrameChunker { frame_size_samples, pending: VecDeque::new() }
    }

    pub fn frame_size_samples(&self) -> (r: usize)
        ensures
            r == self.spec_frame_size(),
    {
        self.frame_size_samples
    }

    pub fn pending_samples(&self) -> (r: usize)
        ensures
            r == self.spec_pending().len(),
    {
        self.pending.len()
    }

    /// Appends samples after the pending ones.
    pub fn push_samples(&mut self, samples: &[T])
        requires
            old(self).wf(),
        ensures
            final(self).wf(),
            final(self).spec_frame_size() == old(self).spec_frame_size(),
            final(self).spec_pending() == old(self).spec_pending() + samples@,
    {
        let mut i: usize = 0;
        while i < samples.len()
            invariant
                self.wf(),
                self.frame_size_samples == old(self).frame_size_samples,
                i <= samples@.len(),
                self.pending@ == old(self).pending@ + samples@.take(i as int),
            decreases samples.len() - i,
        {
            self.pending.push_back(samples[i]);
            assert(samples@.take(i + 1) == samples@.take(i as int).push(samples@[i as int]));
            i += 1;
        }
        assert(samples@.take(samples.len() as int) == samples@);
    }

    /// Moves the oldest frame into `output` when one is complete; refuses an `output` whose
    /// length is not the frame size.
    pub fn try_pop_frame(&mut self, output: &mut [T]) -> (r: Result<bool, FrameChunkerError>)
        requires
            old(self).wf(),
        ensures
            final(self).wf(),
            final(self).spec_frame_size() == old(self).spec_frame_size(),
            old(output)@.len() != old(self).spec_frame_size() ==> r == Err::<bool, FrameChunkerError>(
                FrameChunkerError::FrameBufferSizeMismatch {
                    expected: old(self).spec_frame_size() as usize,
                    actual: old(output)@.len() as usize,
                },
            ) && final(self).spec_pending() == old(self).spec_pending() && final(output)@ == old(
                output,
            )@,
            old(output)@.len() == old(self).spec_frame_size() && old(self).spec_pending().len()
                < old(self).spec_frame_size() ==> r == Ok::<bool, FrameChunkerError>(false)
                && final(self).spec_pending() == old(self).spec_pending() && final(output)@ == old(
                output,
            )@,
            old(output)@.len() == old(self).spec_frame_size() && old(self).spec_pending().len()
                >= old(self).spec_frame_size() ==> r == Ok::<bool, FrameChunkerError>(true)
                && final(output)@ == old(self).spec_pending().take(old(self).spec_frame_size() as int)
                && final(self).spec_pending() == old(self).spec_pending().skip(
                old(self).spec_frame_size() as int,
            ),
    {
        if output.len() != self.frame_size_samples {
            return Err(
                FrameChunkerError::FrameBufferSizeMismatch {
                    expected: self.frame_size_samples,
                    actual: output.len(),
                },
            );
        }
        if self.pending.len() < self.frame_size_samples {
            return Ok(false);
        }
        let ghost start = self.pending@;
        let n = self.frame_size_samples;
        let mut i: usize = 0;
        while i < n
            invariant
                self.wf(),
                self.frame_size_samples == n,
                n <= start.len(),
                output@.len() == n,
                i <= n,
                self.pending@ == start.skip(i as int),
                forall|j: int| 0 <= j < i ==> output@[j] == start[j],
            decreases n - i,
        {
            let sample = match self.pending.pop_front() {
                Some(s) => s,
                None => {
                    assert(false);
                    return Ok(false);
                },
            };
            assert(start.skip(i as int)[0] == start[i as int]);
            assert(start.skip(i as int).drop_first() == start.skip(i + 1));
            output[i] = sample;
            i += 1;
        }
        assert(output@ == start.take(n as int));
        Ok(true)
    }

    /// `try_pop_frame`, with a wrongly sized `output` taken as no frame.
    pub fn pop_frame(&mut self, output: &mut [T]) -> (r: bool)
        requires
            old(self).wf(),
        ensures
            final(self).wf(),
            final(self).spec_frame_size() == old(self).spec_frame_size(),
            r == (old(output)@.len() == old(self).spec_frame_size() && old(self).spec_pending().len()
                >= old(self).spec_frame_size()),
            r ==> final(output)@ == old(self).spec_pending().take(old(self).spec_frame_size() as int)
                && final(self).spec_pending() == old(self).spec_pending().skip(
                old(self).spec_frame_size() as int,
            ),
            !r ==> final(self).spec_pending() == old(self).spec_pending() && final(output)@ == old(
                output,
            )@,
    {
        match self.try_pop_frame(output) {
            Ok(b) => b,
            Err(_) => false,
        }
    }

    /// Forgets the pending samples.
    pub fn reset(&mut self)
        requires
            old(self).wf(),
        ensures
            final(self).wf(),
            final(self).spec_frame_size() == old(self).spec_frame_size(),
            final(self).spec_pending() == Seq::<T>::empty(),
    {
        self.pending.clear();
    }
}

} // verus!
