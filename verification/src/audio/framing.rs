//! Cutting a stream of interleaved 16-bit PCM samples into the frames the
//! codecs consume. Samples that do not fill a frame wait for more; at the
//! end of the stream they are padded with silence.
use vstd::prelude::*;

verus! {

/// `n` zero (silent) samples.
pub open spec fn silence(n: nat) -> Seq<i16> {
    Seq::new(n, |_i: int| 0i16)
}

/// A buffer that hands out samples in frames of `frame_len`.
#[derive(Debug, Clone)]
pub struct SampleFramer {
    pub pending: Vec<i16>,
    pub frame_len: usize,
}

fn copy_range(src: &Vec<i16>, from: usize, to: usize) -> (r: Vec<i16>)
    requires
        from <= to <= src@.len(),
    ensures
        r@ == src@.subrange(from as int, to as int),
{
    let mut out: Vec<i16> = Vec::new();
    let mut k: usize = from;
    while k < to
        invariant
            from <= k <= to <= src@.len(),
            out@ == src@.subrange(from as int, k as int),
        decreases to - k,
    {
        out.push(src[k]);
        k = k + 1;
        assert(out@ =~= src@.subrange(from as int, k as int));
    }
    out
}

impl SampleFramer {
    /// An empty framer for frames of `frame_len` samples.
    pub fn new(frame_len: usize) -> (r: SampleFramer)
        ensures
            r.frame_len == frame_len,
            r.pending@.len() == 0,
    {
        SampleFramer { pending: Vec::new(), frame_len }
    }

    /// Number of samples waiting.
    pub fn pending_len(&self) -> (r: usize)
        ensures
            r == self.pending@.len(),
    {
        self.pending.len()
    }

    /// Adds samples after those already waiting.
    pub fn append(&mut self, samples: &[i16])
        ensures
            final(self).pending@ == old(self).pending@ + samples@,
            final(self).frame_len == old(self).frame_len,
    {
        let ghost before = self.pending@;
        let mut i: usize = 0;
        while i < samples.len()
            invariant
                0 <= i <= samples@.len(),
                self.frame_len == old(self).frame_len,
                self.pending@ == before + samples@.subrange(0, i as int),
            decreases samples@.len() - i,
        {
            self.pending.push(samples[i]);
            i = i + 1;
            assert(self.pending@ =~= before + samples@.subrange(0, i as int));
        }
        assert(samples@.subrange(0, samples@.len() as int) =~= samples@);
    }

    /// Takes out the oldest complete frame, if a frame's worth of samples
    /// is waiting.
    pub fn take_frame(&mut self) -> (r: Option<Vec<i16>>)
        requires
            old(self).frame_len > 0,
        ensures
            final(self).frame_len == old(self).frame_len,
            old(self).pending@.len() < old(self).frame_len ==> (r is None && final(self).pending
                == old(self).pending),
            old(self).pending@.len() >= old(self).frame_len ==> (r matches Some(frame) && frame@
                == old(self).pending@.subrange(0, old(self).frame_len as int) && final(self).pending@
                == old(self).pending@.subrange(old(self).frame_len as int, old(self).pending@.len() as int)),
    {
        let n = self.pending.len();
        let f = self.frame_len;
        if n < f {
            return None;
        }
        let frame = copy_range(&self.pending, 0, f);
        let rest = copy_range(&self.pending, f, n);
        self.pending = rest;
        Some(frame)
    }

    /// Takes out, as one block, every complete frame waiting; fewer samples
    /// than a frame remain.
    pub fn take_whole_frames(&mut self) -> (r: Vec<i16>)
        requires
            old(self).frame_len > 0,
        ensures
            final(self).frame_len == old(self).frame_len,
            r@.len() == old(self).pending@.len() - old(self).pending@.len() as int % (old(self).frame_len as int),
            r@ + final(self).pending@ == old(self).pending@,
            final(self).pending@.len() < old(self).frame_len,
    {
        let n = self.pending.len();
        let rem = n % self.frame_len;
        assert(rem <= n) by (nonlinear_arith)
            requires
                rem == n % self.frame_len,
                self.frame_len > 0,
        ;
        let cut = n - rem;
        let block = copy_range(&self.pending, 0, cut);
        let rest = copy_range(&self.pending, cut, n);
        assert(block@ + rest@ =~= self.pending@);
        self.pending = rest;
        block
    }

    /// End of stream for a frame codec: the waiting samples, if any, made
    /// into one frame (padded with silence, or cut when more than a frame
    /// waits). Nothing waits afterwards.
    pub fn finish_frame(&mut self) -> (r: Option<Vec<i16>>)
        ensures
            final(self).frame_len == old(self).frame_len,
            final(self).pending@.len() == 0,
            old(self).pending@.len() == 0 ==> r is None,
            (old(self).pending@.len() > 0 && old(self).pending@.len() <= old(self).frame_len) ==> (r matches Some(
                frame,
            ) && frame@ == old(self).pending@ + silence(
                (old(self).frame_len - old(self).pending@.len()) as nat,
            )),
            old(self).pending@.len() > old(self).frame_len ==> (r matches Some(frame) && frame@
                == old(self).pending@.subrange(0, old(self).frame_len as int)),
    {
        let n = self.pending.len();
        let f = self.frame_len;
        if n == 0 {
            return None;
        }
        if n > f {
            let frame = copy_range(&self.pending, 0, f);
            self.pending = Vec::new();
            return Some(frame);
        }
        let frame = self.pad_pending(f);
        Some(frame)
    }

    /// Takes the waiting samples out, padded with silence to `target`.
    fn pad_pending(&mut self, target: usize) -> (r: Vec<i16>)
        requires
            old(self).pending@.len() <= target,
        ensures
            final(self).frame_len == old(self).frame_len,
            final(self).pending@.len() == 0,
            r@ == old(self).pending@ + silence((target - old(self).pending@.len()) as nat),
    {
        let ghost before = self.pending@;
        let mut block: Vec<i16> = Vec::new();
        std::mem::swap(&mut block, &mut self.pending);
        while block.len() < target
            invariant
                self.frame_len == old(self).frame_len,
                self.pending@.len() == 0,
                before.len() <= block@.len() <= target,
                block@ == before + silence((block@.len() - before.len()) as nat),
            decreases target - block@.len(),
        {
            block.push(0);
            assert(block@ =~= before + silence((block@.len() - before.len()) as nat));
        }
        block
    }
}

} // verus!
