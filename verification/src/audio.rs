//! Samples on their way to a player
//!
//! Samples are gathered into batches and handed on as bytes, two to a sample,
//! the low one first.

use vstd::prelude::*;

verus! {

/// A batch is handed on when it has this many samples.
pub const BATCH_SAMPLES: usize = 2048;

/// A sample as an unsigned word in two's complement.
pub open spec fn sample_word(sample: i16) -> int {
    if sample < 0 {
        sample + 0x10000
    } else {
        sample as int
    }
}

/// The bytes of samples, each with its low byte first.
pub open spec fn le_bytes(samples: Seq<i16>) -> Seq<u8> {
    Seq::new(
        samples.len() * 2,
        |i: int|
            if i % 2 == 0 {
                (sample_word(samples[i / 2]) % 256) as u8
            } else {
                (sample_word(samples[i / 2]) / 256) as u8
            },
    )
}

/// The samples that wait for their batch to fill.
pub struct SampleQueue {
    pub pending: Vec<i16>,
}

impl View for SampleQueue {
    type V = Seq<i16>;

    open spec fn view(&self) -> Seq<i16> {
        self.pending@
    }
}

impl SampleQueue {
    pub fn new() -> (r: Self)
        ensures
            r@ == Seq::<i16>::empty(),
    {
        Self { pending: Vec::new() }
    }

    /// Add samples. Returns the bytes of all that wait if they are a batch.
    pub fn queue_samples(&mut self, samples: &[i16]) -> (r: Option<Vec<u8>>)
        ensures
            ({
                let all = old(self)@ + samples@;
                if samples@.len() == 0 || all.len() < BATCH_SAMPLES {
                    r is None && final(self)@ == all
                } else {
                    r is Some && r->Some_0@ == le_bytes(all) && final(self)@ == Seq::<i16>::empty()
                }
            }),
    {
        let ghost before = self@;
        if samples.len() == 0 {
            assert(self@ =~= before + samples@);
            return None;
        }
        let mut i: usize = 0;
        while i < samples.len()
            invariant
                i <= samples@.len(),
                self@ =~= before + samples@.subrange(0, i as int),
            decreases samples@.len() - i,
        {
            self.pending.push(samples[i]);
            i = i + 1;
        }
        assert(self@ =~= before + samples@);
        if self.pending.len() >= BATCH_SAMPLES {
            self.flush()
        } else {
            None
        }
    }

    /// Take all that wait, as bytes; `None` where nothing waits.
    pub fn flush(&mut self) -> (r: Option<Vec<u8>>)
        ensures
            final(self)@ == Seq::<i16>::empty(),
            r is Some <==> old(self)@.len() > 0,
            r matches Some(bytes) ==> bytes@ == le_bytes(old(self)@),
    {
        if self.pending.len() == 0 {
            assert(self@ =~= Seq::<i16>::empty());
            return None;
        }
        let mut samples: Vec<i16> = Vec::new();
        std::mem::swap(&mut samples, &mut self.pending);
        let mut bytes: Vec<u8> = Vec::new();
        let mut i: usize = 0;
        while i < samples.len()
            invariant
                i <= samples@.len(),
                bytes@.len() == i * 2,
                forall|k: int| 0 <= k < i * 2 ==> bytes@[k] == le_bytes(samples@)[k],
            decreases samples@.len() - i,
        {
            let sample: i32 = samples[i] as i32;
            let word: i32 = if sample < 0 {
                sample + 0x10000
            } else {
                sample
            };
            bytes.push((word % 256) as u8);
            bytes.push((word / 256) as u8);
            i = i + 1;
        }
        assert(bytes@ =~= le_bytes(samples@));
        Some(bytes)
    }
}

impl Default for SampleQueue {
    fn default() -> (r: Self)
        ensures
            r@ == Seq::<i16>::empty(),
    {
        Self::new()
    }
}

/// Every sample can be read back from its two bytes.
pub proof fn law_bytes_hold_the_samples(samples: Seq<i16>, i: int)
    requires
        0 <= i < samples.len(),
    ensures
        le_bytes(samples).len() == samples.len() * 2,
        le_bytes(samples)[2 * i] + 256 * le_bytes(samples)[2 * i + 1] == sample_word(samples[i]),
{
}

// ----- in numbers -----

/// A sample's two bytes, the low one first, are its value, or its value and
/// 65536 where it is negative. The bytes of one stretch of samples are followed
/// by those of the next.
pub proof fn law_samples_in_numbers(samples: Seq<i16>, more: Seq<i16>, i: int)
    requires
        0 <= i < samples.len(),
    ensures
        le_bytes(samples)[2 * i] + 256 * le_bytes(samples)[2 * i + 1] == (if samples[i] < 0 {
            samples[i] + 65536
        } else {
            samples[i] as int
        }),
        le_bytes(samples + more) == le_bytes(samples) + le_bytes(more),
        BATCH_SAMPLES == 2048,
{
    assert(le_bytes(samples + more) =~= le_bytes(samples) + le_bytes(more));
}

} // verus!
