use vstd::prelude::*;

verus! {

/// The shared temperature cell that a background sampler writes and
/// foreground readers copy out.
///
/// The sample is held as the raw bits of an IEEE-754 single-precision
/// value, so the cell itself is a plain integer store.  Exclusive access
/// (`&mut`) is the guard discipline: a reader or writer holds the cell for
/// exactly one `get` or `set`, so every stored sample is observed whole,
/// never as a mix of two writes.  Code that shares the cell between tasks
/// wraps it in a mutual-exclusion lock and keeps the critical section to
/// the single call.
#[derive(Debug)]
pub struct Temperature {
    pub bits: u32,
}

impl Temperature {
    /// A fresh cell, holding the all-zero sample.
    pub fn new() -> (t: Temperature)
        ensures
            t.bits == 0,
    {
        Temperature { bits: 0 }
    }

    /// Copies the current sample out; the cell is unchanged.
    pub fn get(&self) -> (r: u32)
        ensures
            r == self.bits,
    {
        self.bits
    }

    /// Stores a sample whole: afterwards the cell holds exactly `val`.
    pub fn set(&mut self, val: u32)
        ensures
            final(self).bits == val,
    {
        self.bits = val;
    }

    /// One step of the background sampler: a successfully decoded sample is
    /// stored whole, a failed decode leaves the cell as it was.
    pub fn apply_sample(&mut self, sample: Option<u32>)
        ensures
            match sample {
                Some(bits) => final(self).bits == bits,
                None => *final(self) == *old(self),
            },
    {
        if let Some(bits) = sample {
            self.bits = bits;
        }
    }
}

impl Default for Temperature {
    fn default() -> (t: Temperature)
        ensures
            t.bits == 0,
    {
        Temperature::new()
    }
}

/// The sample that a four-byte big-endian datagram carries, as raw bits.
pub open spec fn spec_sample_from_be(b: Seq<u8>) -> u32
    recommends
        b.len() == 4,
{
    (b[0] * 0x100_0000 + b[1] * 0x1_0000 + b[2] * 0x100 + b[3]) as u32
}

/// Reads a four-byte big-endian sample into raw bits, as the polling
/// temperature client does with each datagram it receives.
pub fn sample_from_be_bytes(b: &[u8]) -> (r: u32)
    requires
        b@.len() == 4,
    ensures
        r == spec_sample_from_be(b@),
{
    let r: u32 = (b[0] as u32) * 0x100_0000 + (b[1] as u32) * 0x1_0000 + (b[2] as u32) * 0x100
        + (b[3] as u32);
    r
}

} // verus!
