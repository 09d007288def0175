//! The per-ear audio pipeline: a FIFO ring of captured PCM samples
//! drained in 320-sample encoder blocks, and a bounded FIFO queue of
//! encoded payloads that prefers freshness over completeness.

use vstd::prelude::*;

use crate::frames::PAYLOAD_BYTES;
use crate::frames::PCM_BLOCK_SAMPLES;

verus! {

/// FIFO buffer of signed 16-bit PCM samples awaiting encoding.
#[derive(Debug)]
pub struct PcmRing {
    samples: Vec<i16>,
}

impl View for PcmRing {
    type V = Seq<i16>;

    closed spec fn view(&self) -> Seq<i16> {
        self.samples@
    }
}

/// The samples of one channel of an interleaved stereo chunk:
/// channel 0 holds the even indices, channel 1 the odd ones.
pub open spec fn spec_channel(chunk: Seq<i16>, which: int) -> Seq<i16> {
    Seq::new((chunk.len() / 2) as nat, |i: int| chunk[2 * i + which])
}

impl PcmRing {
    /// An empty ring.
    pub fn new() -> (r: PcmRing)
        ensures
            r@ == Seq::<i16>::empty(),
    {
        PcmRing { samples: Vec::new() }
    }

    /// How many samples are waiting.
    pub fn len(&self) -> (r: usize)
        ensures
            r == self@.len(),
    {
        self.samples.len()
    }

    /// Appends a whole chunk, oldest first.
    pub fn append(&mut self, chunk: &[i16])
        ensures
            final(self)@ == old(self)@ + chunk@,
    {
        let mut i: usize = 0;
        while i < chunk.len()
            invariant
                i <= chunk@.len(),
                self@ == old(self)@ + chunk@.take(i as int),
            decreases chunk@.len() - i,
        {
            self.samples.push(chunk[i]);
            proof {
                assert(chunk@.take(i + 1) =~= chunk@.take(i as int).push(chunk@[i as int]));
            }
            i = i + 1;
        }
        proof {
            assert(chunk@.take(chunk@.len() as int) =~= chunk@);
        }
    }

    /// Appends one channel of an interleaved stereo chunk: channel 0
    /// takes the even-indexed samples, channel 1 the odd-indexed ones.
    pub fn append_channel(&mut self, chunk: &[i16], which: usize)
        requires
            which < 2,
            chunk@.len() % 2 == 0,
        ensures
            final(self)@ == old(self)@ + spec_channel(chunk@, which as int),
    {
        let n: usize = chunk.len();
        let half: usize = n / 2;
        let mut i: usize = 0;
        while i < half
            invariant
                which < 2,
                i <= half,
                n == chunk@.len(),
                half == chunk@.len() / 2,
                chunk@.len() % 2 == 0,
                self@ == old(self)@ + Seq::new(i as nat, |j: int| chunk@[2 * j + which]),
            decreases half - i,
        {
            assert(2 * i + which < n);
            self.samples.push(chunk[2 * i + which]);
            proof {
                assert(Seq::new((i + 1) as nat, |j: int| chunk@[2 * j + which]) =~= Seq::new(
                    i as nat,
                    |j: int| chunk@[2 * j + which],
                ).push(chunk@[2 * i + which]));
            }
            i = i + 1;
        }
        proof {
            assert(Seq::new(half as nat, |j: int| chunk@[2 * j + which]) =~= spec_channel(
                chunk@,
                which as int,
            ));
        }
    }

    /// Drains one 320-sample encoder block if enough samples are
    /// waiting; otherwise leaves every sample in place.
    pub fn take_block(&mut self) -> (r: Option<Vec<i16>>)
        ensures
            old(self)@.len() >= PCM_BLOCK_SAMPLES ==> {
                &&& r matches Some(b) && b@ == old(self)@.take(PCM_BLOCK_SAMPLES as int)
                &&& final(self)@ == old(self)@.skip(PCM_BLOCK_SAMPLES as int)
            },
            old(self)@.len() < PCM_BLOCK_SAMPLES ==> {
                &&& r is None
                &&& final(self)@ == old(self)@
            },
    {
        if self.samples.len() < PCM_BLOCK_SAMPLES {
            return None;
        }
        let mut block: Vec<i16> = Vec::new();
        let mut i: usize = 0;
        while i < PCM_BLOCK_SAMPLES
            invariant
                i <= PCM_BLOCK_SAMPLES,
                self@ == old(self)@,
                self@.len() >= PCM_BLOCK_SAMPLES,
                block@ == self@.take(i as int),
            decreases PCM_BLOCK_SAMPLES - i,
        {
            block.push(self.samples[i]);
            proof {
                assert(self@.take(i + 1) =~= self@.take(i as int).push(self@[i as int]));
            }
            i = i + 1;
        }
        let mut rest: Vec<i16> = Vec::new();
        let mut j: usize = PCM_BLOCK_SAMPLES;
        while j < self.samples.len()
            invariant
                PCM_BLOCK_SAMPLES <= j <= self@.len(),
                self@ == old(self)@,
                rest@ == self@.subrange(PCM_BLOCK_SAMPLES as int, j as int),
            decreases self@.len() - j,
        {
            rest.push(self.samples[j]);
            proof {
                assert(self@.subrange(PCM_BLOCK_SAMPLES as int, j + 1) =~= self@.subrange(
                    PCM_BLOCK_SAMPLES as int,
                    j as int,
                ).push(self@[j as int]));
            }
            j = j + 1;
        }
        proof {
            assert(rest@ =~= old(self)@.skip(PCM_BLOCK_SAMPLES as int));
        }
        self.samples = rest;
        Some(block)
    }
}

/// Bounded FIFO of encoded 160-byte payloads. When a fifth payload
/// arrives the oldest is dropped: freshness over completeness.
#[derive(Debug)]
pub struct FrameQueue {
    items: Vec<Vec<u8>>,
}

/// The queue holds at most four payloads, each of 160 bytes.
pub open spec fn queue_wf(q: Seq<Seq<u8>>) -> bool {
    &&& q.len() <= 4
    &&& forall|i: int| 0 <= i < q.len() ==> (#[trigger] q[i]).len() == PAYLOAD_BYTES
}

impl View for FrameQueue {
    type V = Seq<Seq<u8>>;

    closed spec fn view(&self) -> Seq<Seq<u8>> {
        self.items@.map_values(|v: Vec<u8>| v@)
    }
}

impl FrameQueue {
    /// An empty queue.
    pub fn new() -> (r: FrameQueue)
        ensures
            r@ == Seq::<Seq<u8>>::empty(),
    {
        let q = FrameQueue { items: Vec::new() };
        proof {
            assert(q@ =~= Seq::<Seq<u8>>::empty());
        }
        q
    }

    /// How many payloads are queued.
    pub fn len(&self) -> (r: usize)
        ensures
            r == self@.len(),
    {
        self.items.len()
    }

    /// Enqueues a payload; at capacity the oldest payload is dropped
    /// first.
    pub fn enqueue(&mut self, payload: Vec<u8>)
        requires
            payload@.len() == PAYLOAD_BYTES,
            queue_wf(old(self)@),
        ensures
            queue_wf(final(self)@),
            old(self)@.len() < 4 ==> final(self)@ == old(self)@.push(payload@),
            old(self)@.len() == 4 ==> final(self)@ == old(self)@.drop_first().push(payload@),
    {
        if self.items.len() == 4 {
            let ghost before = self.items@;
            self.items.remove(0);
            proof {
                assert(self@ =~= before.map_values(|v: Vec<u8>| v@).drop_first());
            }
        }
        let ghost mid = self.items@;
        self.items.push(payload);
        proof {
            assert(self@ =~= mid.map_values(|v: Vec<u8>| v@).push(payload@));
        }
    }

    /// Removes and returns the oldest payload, if any.
    pub fn dequeue(&mut self) -> (r: Option<Vec<u8>>)
        requires
            queue_wf(old(self)@),
        ensures
            queue_wf(final(self)@),
            old(self)@.len() > 0 ==> {
                &&& r matches Some(p) && p@ == old(self)@[0]
                &&& final(self)@ == old(self)@.drop_first()
            },
            old(self)@.len() == 0 ==> r is None && final(self)@ == old(self)@,
    {
        if self.items.len() == 0 {
            return None;
        }
        let ghost before = self.items@;
        let p = self.items.remove(0);
        proof {
            assert(self@ =~= before.map_values(|v: Vec<u8>| v@).drop_first());
        }
        Some(p)
    }
}

/// A ring holding exactly one encoder block yields exactly one block
/// and is left empty: 320 samples are one 20 ms payload.
pub proof fn lemma_block_boundary(samples: Seq<i16>)
    requires
        samples.len() == PCM_BLOCK_SAMPLES,
    ensures
        samples.take(PCM_BLOCK_SAMPLES as int) == samples,
        samples.skip(PCM_BLOCK_SAMPLES as int).len() == 0,
{
    assert(samples.take(PCM_BLOCK_SAMPLES as int) =~= samples);
}

} // verus!
