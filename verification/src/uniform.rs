use vstd::prelude::*;

use vstd::bytes::*;

verus! {

/// Byte size of the per-frame uniform block: four 32-bit lanes (elapsed
/// time, aspect ratio, two zeroed padding lanes), which keeps the block
/// 16-byte aligned and in lock-step with the shader's declared struct.
pub const UNIFORM_BYTES: usize = 16;

/// The packed little-endian uniform payload: the elapsed-time lane, the
/// aspect-ratio lane, then two zeroed padding lanes.
pub open spec fn packed_uniform(time_word: u32, aspect_word: u32) -> Seq<u8> {
    spec_u32_to_le_bytes(time_word) + spec_u32_to_le_bytes(aspect_word) + spec_u32_to_le_bytes(
        0u32,
    ) + spec_u32_to_le_bytes(0u32)
}

/// The elapsed-time lane of a packed payload, read back as a 32-bit word.
pub open spec fn time_lane(payload: Seq<u8>) -> u32
    recommends
        payload.len() >= 4,
{
    spec_u32_from_le_bytes(payload.subrange(0, 4))
}

/// A packed payload is always exactly one uniform block long.
pub proof fn lemma_packed_uniform_len(time_word: u32, aspect_word: u32)
    ensures
        packed_uniform(time_word, aspect_word).len() == UNIFORM_BYTES,
{
    lemma_auto_spec_u32_to_from_le_bytes();
}

/// The elapsed-time lane of a packed payload reads back as the word that was
/// packed into it.
pub proof fn lemma_time_lane_of_packed(time_word: u32, aspect_word: u32)
    ensures
        time_lane(packed_uniform(time_word, aspect_word)) == time_word,
{
    lemma_auto_spec_u32_to_from_le_bytes();
    assert(packed_uniform(time_word, aspect_word).subrange(0, 4) =~= spec_u32_to_le_bytes(
        time_word,
    ));
}

/// Packing preserves strict order of the clock words in the payload bytes:
/// a later frame's payload carries a strictly greater elapsed-time lane.
pub proof fn lemma_packed_time_monotonic(t1: u32, a1: u32, t2: u32, a2: u32)
    requires
        t1 < t2,
    ensures
        time_lane(packed_uniform(t1, a1)) < time_lane(packed_uniform(t2, a2)),
{
    lemma_time_lane_of_packed(t1, a1);
    lemma_time_lane_of_packed(t2, a2);
}

/// Packs the two 32-bit lanes and the zero padding into the uniform block's
/// byte layout.
pub fn pack_uniform(time_word: u32, aspect_word: u32) -> (r: Vec<u8>)
    ensures
        r@ == packed_uniform(time_word, aspect_word),
        r@.len() == UNIFORM_BYTES,
{
    let mut r = u32_to_le_bytes(time_word);
    let mut a = u32_to_le_bytes(aspect_word);
    let mut pad0 = u32_to_le_bytes(0);
    let mut pad1 = u32_to_le_bytes(0);
    r.append(&mut a);
    r.append(&mut pad0);
    r.append(&mut pad1);
    r
}

/// Writes the per-frame scalar state into uniform payloads. The feed records
/// the last elapsed-time word it packed and only accepts strictly greater
/// ones, so a monotonic clock source yields a strictly increasing time lane
/// across consecutive frames. The platform adapter hands the words in (for a
/// non-negative IEEE-754 float clock, bit patterns order the same way as the
/// values).
#[derive(Debug)]
pub struct UniformFeed {
    primed: bool,
    last_time_word: u32,
}

impl UniformFeed {
    /// Whether at least one frame has been packed.
    pub closed spec fn spec_primed(self) -> bool {
        self.primed
    }

    /// The elapsed-time word of the most recent write.
    pub closed spec fn spec_last_time_word(self) -> u32 {
        self.last_time_word
    }

    /// The feed accepts a clock word when it strictly advances past the last
    /// written frame (any word is accepted for the first frame).
    pub open spec fn accepts(self, time_word: u32) -> bool {
        !self.spec_primed() || self.spec_last_time_word() < time_word
    }

    /// A fresh feed that has packed no frame yet.
    pub fn new() -> (r: UniformFeed)
        ensures
            !r.spec_primed(),
            r.spec_last_time_word() == 0,
    {
        UniformFeed { primed: false, last_time_word: 0 }
    }

    /// Whether `write` would accept this clock word now.
    pub fn accepts_time(&self, time_word: u32) -> (r: bool)
        ensures
            r == self.accepts(time_word),
    {
        !self.primed || self.last_time_word < time_word
    }

    /// Packs one frame's uniform payload and records its elapsed-time word.
    /// The write happens before the frame's render pass is encoded; ordering
    /// against the draw is the queue's in-order submission, not a fence.
    pub fn write(&mut self, time_word: u32, aspect_word: u32) -> (payload: Vec<u8>)
        requires
            old(self).accepts(time_word),
        ensures
            payload@ == packed_uniform(time_word, aspect_word),
            payload@.len() == UNIFORM_BYTES,
            final(self).spec_primed(),
            final(self).spec_last_time_word() == time_word,
            old(self).spec_primed() ==> old(self).spec_last_time_word() < time_word,
    {
        self.primed = true;
        self.last_time_word = time_word;
        pack_uniform(time_word, aspect_word)
    }
}

/// Across consecutive frames driven by a monotonic clock the packed
/// elapsed-time lane strictly increases: if the feed has packed `t1` and
/// accepts `t2`, the next payload's time lane is strictly greater.
pub proof fn lemma_consecutive_time_lanes_increase(
    feed: UniformFeed,
    t1: u32,
    a1: u32,
    t2: u32,
    a2: u32,
)
    requires
        feed.spec_primed(),
        feed.spec_last_time_word() == t1,
        feed.accepts(t2),
    ensures
        time_lane(packed_uniform(t1, a1)) < time_lane(packed_uniform(t2, a2)),
{
    lemma_packed_time_monotonic(t1, a1, t2, a2);
}

} // verus!
