//! The bit arrays that hold the per-event result and intensity flags of a
//! batch. They are `bitvec` bit arrays over 128 bytes, least significant bit
//! first; the library reads and writes them through the items below.
use vstd::prelude::*;
use bitvec::array::BitArray;
use bitvec::order::Lsb0;

verus! {

/// The number of events in a batch, and so of bits in an event bit array.
pub const BATCH: usize = 1024;

/// The number of bytes that back an event bit array.
pub const BATCH_BYTES: usize = 128;

/// An array of 1024 event flags, held in a `bitvec` bit array over 128
/// bytes, least significant bit first.
#[verifier::external_body]
#[derive(Copy, Debug)]
pub struct EventBits {
    bits: BitArray<[u8; 128], Lsb0>,
}

/// The flags that an event bit array holds, in index order.
pub uninterp spec fn event_bits(bits: EventBits) -> Seq<bool>;

impl Clone for EventBits {
    /// Copies the bit array (`BitArray` is `Copy`).
    #[verifier::external_body]
    fn clone(&self) -> (copy: Self)
        ensures
            copy == *self,
    {
        *self
    }
}

impl PartialEq for EventBits {
    fn eq(&self, other: &Self) -> (same: bool) {
        bits_equal(self, other)
    }
}

impl vstd::std_specs::cmp::PartialEqSpecImpl for EventBits {
    open spec fn obeys_eq_spec() -> bool {
        true
    }

    open spec fn eq_spec(&self, other: &Self) -> bool {
        event_bits(*self) == event_bits(*other)
    }
}

impl Eq for EventBits {
}

impl EventBits {
    /// An array whose 1024 flags are all cleared.
    pub fn new() -> (bits: Self)
        ensures
            event_bits(bits) == Seq::new(1024, |i: int| false),
    {
        bits_zero()
    }

    /// The flag of event `index`.
    pub fn get(&self, index: usize) -> (bit: bool)
        requires
            index < BATCH,
        ensures
            bit == event_bits(*self)[index as int],
    {
        bits_get(self, index)
    }

    /// Sets the flag of event `index` to `value`, leaving the others.
    pub fn set(&mut self, index: usize, value: bool)
        requires
            index < BATCH,
        ensures
            event_bits(*final(self)).len() == 1024,
            event_bits(*final(self)) == event_bits(*old(self)).update(index as int, value),
    {
        bits_set(self, index, value)
    }
}

/// `BitArray`'s `==`: whether the two arrays hold the same bits.
#[verifier::external_body]
fn bits_equal(a: &EventBits, b: &EventBits) -> (same: bool)
    ensures
        same == (event_bits(*a) == event_bits(*b)),
{
    a.bits == b.bits
}

/// `BitArray::ZERO`: an array of 1024 cleared bits.
#[verifier::external_body]
pub(crate) fn bits_zero() -> (bits: EventBits)
    ensures
        event_bits(bits) == Seq::new(1024, |i: int| false),
{
    EventBits { bits: BitArray::ZERO }
}

/// Indexing a bit array (`bits[index]`): the bit at `index`.
#[verifier::external_body]
pub(crate) fn bits_get(bits: &EventBits, index: usize) -> (bit: bool)
    requires
        index < 1024,
    ensures
        bit == event_bits(*bits)[index as int],
{
    bits.bits[index]
}

/// `BitSlice::set`: writes the bit at `index` and leaves the others.
#[verifier::external_body]
pub(crate) fn bits_set(bits: &mut EventBits, index: usize, value: bool)
    requires
        index < 1024,
    ensures
        event_bits(*final(bits)).len() == 1024,
        event_bits(*final(bits)) == event_bits(*old(bits)).update(index as int, value),
{
    bits.bits.set(index, value)
}

} // verus!
