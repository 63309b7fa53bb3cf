use vstd::prelude::*;

verus! {

/// Mask of the multisample field of a pipeline key, once shifted down.
pub const MSAA_MASK_BITS: u32 = 0x3f;

/// Position of the multisample field in a pipeline key: its top six bits.
pub const MSAA_SHIFT_BITS: u32 = 26;

/// Key bits that encode `samples` samples: `samples - 1`, modulo 64, in the
/// top six bits.
pub open spec fn msaa_key_bits(samples: u32) -> u32 {
    (((samples - 1) as u32) & MSAA_MASK_BITS) << MSAA_SHIFT_BITS
}

/// Sample count that the key bits `bits` encode.
pub open spec fn msaa_of_bits(bits: u32) -> u32 {
    (((bits >> MSAA_SHIFT_BITS) & MSAA_MASK_BITS) + 1) as u32
}

proof fn lemma_key_bits(samples: u32)
    requires
        samples >= 1,
    ensures
        msaa_key_bits(samples) & !(MSAA_MASK_BITS << MSAA_SHIFT_BITS) == 0,
        msaa_of_bits(msaa_key_bits(samples)) == (samples - 1) % 64 + 1,
{
    let s = (samples - 1) as u32;
    assert((s & 0x3f) << 26u32 & !(0x3fu32 << 26u32) == 0) by (bit_vector);
    assert(((((s & 0x3f) << 26u32) >> 26u32) & 0x3f) == s % 64) by (bit_vector);
}

fn encode_msaa(samples: u32) -> (r: u32)
    requires
        samples >= 1,
    ensures
        r == msaa_key_bits(samples),
        r & !(MSAA_MASK_BITS << MSAA_SHIFT_BITS) == 0,
        msaa_of_bits(r) == (samples - 1) % 64 + 1,
{
    proof {
        lemma_key_bits(samples);
    }
    ((samples - 1) & MSAA_MASK_BITS) << MSAA_SHIFT_BITS
}

fn decode_msaa(bits: u32) -> (r: u32)
    ensures
        r == msaa_of_bits(bits),
        1 <= r <= 64,
{
    let field = (bits >> MSAA_SHIFT_BITS) & MSAA_MASK_BITS;
    assert(field <= 0x3f) by (bit_vector)
        requires field == (bits >> 26u32) & 0x3f;
    field + 1
}

/// Specialization key of the grass render pipeline: the sample count of
/// the target, packed into the key's top six bits.
#[derive(Debug, Clone, Copy, PartialEq, Eq, Hash, Structural)]
pub struct GrassPipelineKey {
    pub bits: u32,
}

impl GrassPipelineKey {
    /// The sample count this key was made for.
    pub open spec fn samples(&self) -> u32 {
        msaa_of_bits(self.bits)
    }

    /// The key for a target of `msaa_samples` samples; counts above 64 wrap.
    pub fn from_msaa_samples(msaa_samples: u32) -> (r: GrassPipelineKey)
        requires
            msaa_samples >= 1,
        ensures
            r.bits == msaa_key_bits(msaa_samples),
            r.bits & !(MSAA_MASK_BITS << MSAA_SHIFT_BITS) == 0,
            r.samples() == (msaa_samples - 1) % 64 + 1,
    {
        GrassPipelineKey { bits: encode_msaa(msaa_samples) }
    }

    /// The sample count this key encodes.
    pub fn msaa_samples(&self) -> (r: u32)
        ensures
            r == self.samples(),
            1 <= r <= 64,
    {
        decode_msaa(self.bits)
    }
}

/// Specialization key of the outline pipeline, packed as the grass key is.
#[derive(Debug, Clone, Copy, PartialEq, Eq, Hash, Structural)]
pub struct OutlinePipelineKey {
    pub bits: u32,
}

impl OutlinePipelineKey {
    /// The sample count this key was made for.
    pub open spec fn samples(&self) -> u32 {
        msaa_of_bits(self.bits)
    }

    /// The key for a target of `msaa_samples` samples; counts above 64 wrap.
    pub fn from_msaa_samples(msaa_samples: u32) -> (r: OutlinePipelineKey)
        requires
            msaa_samples >= 1,
        ensures
            r.bits == msaa_key_bits(msaa_samples),
            r.bits & !(MSAA_MASK_BITS << MSAA_SHIFT_BITS) == 0,
            r.samples() == (msaa_samples - 1) % 64 + 1,
    {
        OutlinePipelineKey { bits: encode_msaa(msaa_samples) }
    }

    /// The sample count this key encodes.
    pub fn msaa_samples(&self) -> (r: u32)
        ensures
            r == self.samples(),
            1 <= r <= 64,
    {
        decode_msaa(self.bits)
    }
}

/// A sample count from 1 to 64 survives the trip through a pipeline key.
pub proof fn lemma_msaa_round_trip(samples: u32)
    requires
        1 <= samples <= 64,
    ensures
        msaa_of_bits(msaa_key_bits(samples)) == samples,
{
    lemma_key_bits(samples);
}

} // verus!
