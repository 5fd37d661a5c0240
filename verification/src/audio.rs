//! The captured audio: samples are kept only while recording, a new recording
//! starts from an empty buffer, and stopping keeps what was captured.

use vstd::prelude::*;

verus! {

/// Number of most recent samples over which the input level is measured.
pub const LEVEL_WINDOW: usize = 256;

/// Captured samples and whether capture is on.
pub struct CaptureBuffer<S> {
    samples: Vec<S>,
    recording: bool,
}

impl<S: Copy> CaptureBuffer<S> {
    /// The samples captured so far.
    pub closed spec fn spec_samples(&self) -> Seq<S> {
        self.samples@
    }

    /// Whether capture is on.
    pub closed spec fn spec_recording(&self) -> bool {
        self.recording
    }

    /// An empty buffer, not recording.
    pub fn new() -> (b: Self)
        ensures
            b.spec_samples().len() == 0,
            !b.spec_recording(),
    {
        CaptureBuffer { samples: Vec::new(), recording: false }
    }

    /// Starts a recording: earlier samples are dropped and capture is on.
    pub fn start(&mut self)
        ensures
            final(self).spec_samples().len() == 0,
            final(self).spec_recording(),
    {
        self.samples.clear();
        self.recording = true;
    }

    /// Offers samples from the input device; they are kept only while recording.
    pub fn append(&mut self, frames: &[S])
        ensures
            final(self).spec_recording() == old(self).spec_recording(),
            old(self).spec_recording() ==> final(self).spec_samples() == old(self).spec_samples()
                + frames@,
            !old(self).spec_recording() ==> final(self).spec_samples() == old(self).spec_samples(),
    {
        if self.recording {
            let mut i: usize = 0;
            let ghost start = self.samples@;
            while i < frames.len()
                invariant
                    i <= frames@.len(),
                    self.recording,
                    self.samples@ == start + frames@.take(i as int),
                decreases frames@.len() - i,
            {
                self.samples.push(frames[i]);
                i = i + 1;
                assert(self.samples@ =~= start + frames@.take(i as int));
            }
            assert(frames@.take(frames@.len() as int) =~= frames@);
        }
    }

    /// Whether capture is on.
    pub fn is_recording(&self) -> (r: bool)
        ensures
            r == self.spec_recording(),
    {
        self.recording
    }

    /// Number of samples captured.
    pub fn len(&self) -> (n: usize)
        ensures
            n == self.spec_samples().len(),
    {
        self.samples.len()
    }

    /// A copy of the samples captured so far.
    pub fn snapshot(&self) -> (copy: Vec<S>)
        ensures
            copy@ == self.spec_samples(),
    {
        let mut copy: Vec<S> = Vec::new();
        let mut i: usize = 0;
        while i < self.samples.len()
            invariant
                i <= self.samples@.len(),
                copy@ == self.samples@.take(i as int),
            decreases self.samples@.len() - i,
        {
            copy.push(self.samples[i]);
            i = i + 1;
            assert(copy@ =~= self.samples@.take(i as int));
        }
        assert(self.samples@.take(self.samples@.len() as int) =~= self.samples@);
        copy
    }

    /// Ends the recording and returns what it captured; the samples stay in the buffer.
    pub fn stop(&mut self) -> (captured: Vec<S>)
        ensures
            !final(self).spec_recording(),
            final(self).spec_samples() == old(self).spec_samples(),
            captured@ == old(self).spec_samples(),
    {
        self.recording = false;
        self.snapshot()
    }

    /// The most recent `LEVEL_WINDOW` samples, from which the input level is
    /// measured; `None` (level zero) while fewer have been captured.
    pub fn level_window(&self) -> (w: Option<Vec<S>>)
        ensures
            self.spec_samples().len() < LEVEL_WINDOW ==> w is None,
            self.spec_samples().len() >= LEVEL_WINDOW ==> (w matches Some(v) && v@
                == self.spec_samples().subrange(
                self.spec_samples().len() - LEVEL_WINDOW,
                self.spec_samples().len() as int,
            )),
    {
        let n = self.samples.len();
        if n < LEVEL_WINDOW {
            return None;
        }
        let first = n - LEVEL_WINDOW;
        let mut w: Vec<S> = Vec::new();
        let mut i: usize = first;
        while i < n
            invariant
                n == self.samples@.len(),
                first <= i <= n,
                w@ == self.samples@.subrange(first as int, i as int),
            decreases n - i,
        {
            w.push(self.samples[i]);
            i = i + 1;
            assert(w@ =~= self.samples@.subrange(first as int, i as int));
        }
        Some(w)
    }
}

} // verus!
