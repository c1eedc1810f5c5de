//! The lighting state model: a universe of 512 channel values and the
//! description of a single timed change of one channel.

use vstd::prelude::*;

verus! {

/// The highest DMX channel number; channels are addressed 1..=512.
pub const DMX_MAX: u32 = 512;

/// A single requested change of one channel: the channel to change, the
/// value it should reach, and an optional duration in milliseconds over
/// which the output driver interpolates the change (`None` means the
/// change is instantaneous).
#[derive(Clone, Copy, PartialEq, Eq, Debug)]
pub struct Fade {
    pub channel: u32,
    pub value: u8,
    pub duration: Option<u64>,
}

/// One full set of DMX channel values. Channels are addressed 1..=512
/// from the outside; the storage is zero-indexed, so channel `n` sits at
/// offset `n - 1`.
#[derive(Clone, Debug)]
pub struct Universe {
    values: Vec<u8>,
}

/// Whether `channel` is a valid DMX channel address.
pub open spec fn in_range(channel: u32) -> bool {
    1 <= channel <= DMX_MAX
}

/// The value a universe with contents `u` reports for `channel`:
/// the stored byte inside 1..=512, and 0 outside.
pub open spec fn spec_get(u: Seq<u8>, channel: u32) -> u8 {
    if in_range(channel) {
        u[channel - 1]
    } else {
        0
    }
}

/// The contents of a universe `u` after writing `value` to `channel`:
/// unchanged outside 1..=512.
pub open spec fn spec_set(u: Seq<u8>, channel: u32, value: u8) -> Seq<u8> {
    if in_range(channel) {
        u.update(channel - 1, value)
    } else {
        u
    }
}

/// The contents of a freshly created universe: 512 zeroed channels.
pub open spec fn spec_blank() -> Seq<u8> {
    Seq::new(DMX_MAX as nat, |i: int| 0u8)
}

impl View for Universe {
    type V = Seq<u8>;

    closed spec fn view(&self) -> Seq<u8> {
        self.values@
    }
}

impl Universe {
    /// A universe is well formed when it holds exactly one byte per channel.
    pub open spec fn wf(&self) -> bool {
        self@.len() == DMX_MAX
    }

    /// Create a universe with every channel at zero.
    pub fn new() -> (universe: Universe)
        ensures
            universe.wf(),
            universe@ == spec_blank(),
    {
        let mut values: Vec<u8> = Vec::new();
        let mut i: usize = 0;
        while i < DMX_MAX as usize
            invariant
                i <= DMX_MAX,
                values@.len() == i,
                forall|j: int| 0 <= j < i ==> values@[j] == 0u8,
            decreases DMX_MAX - i,
        {
            values.push(0);
            i += 1;
        }
        proof {
            assert(values@ =~= spec_blank());
        }
        Universe { values }
    }

    /// Read one channel: 0 for any channel outside 1..=512, otherwise the
    /// stored value.
    pub fn get(&self, channel: u32) -> (value: u8)
        requires
            self.wf(),
        ensures
            value == spec_get(self@, channel),
    {
        if channel > DMX_MAX || channel < 1 {
            return 0;
        }
        self.values[(channel - 1) as usize]
    }

    /// Write one channel: a no-op for any channel outside 1..=512,
    /// otherwise the stored value is overwritten.
    pub fn set(&mut self, channel: u32, value: u8)
        requires
            old(self).wf(),
        ensures
            final(self).wf(),
            final(self)@ == spec_set(old(self)@, channel, value),
    {
        if channel <= DMX_MAX && channel > 0 {
            self.values.set((channel - 1) as usize, value);
        }
    }

    /// Export the universe in wire order: channel `n` at offset `n - 1`.
    pub fn as_bytes(&self) -> (bytes: Vec<u8>)
        ensures
            bytes@ == self@,
    {
        let mut bytes: Vec<u8> = Vec::new();
        let mut i: usize = 0;
        while i < self.values.len()
            invariant
                i <= self.values@.len(),
                bytes@ =~= self.values@.subrange(0, i as int),
            decreases self.values@.len() - i,
        {
            bytes.push(self.values[i]);
            i += 1;
        }
        proof {
            assert(bytes@ =~= self@);
        }
        bytes
    }

    /// Rebuild a universe from 512 bytes in wire order.
    pub fn from_bytes(bytes: Vec<u8>) -> (universe: Universe)
        requires
            bytes@.len() == DMX_MAX,
        ensures
            universe.wf(),
            universe@ == bytes@,
    {
        Universe { values: bytes }
    }

    /// An independent copy with the same channel values.
    pub fn duplicate(&self) -> (copy: Universe)
        ensures
            copy@ == self@,
            copy.wf() == self.wf(),
    {
        Universe { values: Universe::copy_values(&self.values) }
    }

    fn copy_values(values: &Vec<u8>) -> (copy: Vec<u8>)
        ensures
            copy@ == values@,
    {
        let mut copy: Vec<u8> = Vec::new();
        let mut i: usize = 0;
        while i < values.len()
            invariant
                i <= values@.len(),
                copy@ =~= values@.subrange(0, i as int),
            decreases values@.len() - i,
        {
            copy.push(values[i]);
            i += 1;
        }
        proof {
            assert(copy@ =~= values@);
        }
        copy
    }
}

/// Writes outside 1..=512 are ignored and reads outside 1..=512 return 0,
/// whatever value was offered.
pub proof fn lemma_out_of_range(u: Seq<u8>, channel: u32, value: u8)
    requires
        !in_range(channel),
    ensures
        spec_get(u, channel) == 0,
        spec_set(u, channel, value) == u,
{
}

/// Writing a channel inside 1..=512 and reading it back yields the value
/// just written.
pub proof fn lemma_set_then_get(u: Seq<u8>, channel: u32, value: u8)
    requires
        u.len() == DMX_MAX,
        in_range(channel),
    ensures
        spec_get(spec_set(u, channel, value), channel) == value,
{
}

/// Writes are applied in order: of two writes to the same channel, the
/// later one decides the channel's value.
pub proof fn lemma_last_write_wins(u: Seq<u8>, channel: u32, first: u8, second: u8)
    requires
        u.len() == DMX_MAX,
        in_range(channel),
    ensures
        spec_set(spec_set(u, channel, first), channel, second) == spec_set(u, channel, second),
{
    assert(spec_set(spec_set(u, channel, first), channel, second) =~= spec_set(
        u,
        channel,
        second,
    ));
}

} // verus!
