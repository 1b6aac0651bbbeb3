//! A batch of correlated QKD events and its encodings for the FIFOs.
use vstd::prelude::*;
use crate::bits::{event_bits, EventBits, BATCH};

verus! {

/// The number of bytes of the FIFO encoding of a batch's settings (two
/// events per byte).
pub const SETTINGS_FIFO_BYTES: usize = 512;

/// One batch of 1024 correlated events.
#[derive(Debug, Clone, Copy, PartialEq, Eq)]
pub struct QkdBatch {
    /// Hardware GC value of the first event of the batch.
    pub base_gc: u64,
    /// Pulse-counter step between consecutive detection events.
    pub gc_step: u64,
    /// Index (0 to 3) into the angles table: Alice's (basis, state) choice.
    pub alice_state_index: [u8; 1024],
    /// Index (0 to 3) into the angles table: Bob's (basis, state) choice.
    pub bob_state_index: [u8; 1024],
    /// Measurement result of each event.
    pub results: EventBits,
    /// Whether each event is a decoy pulse (all false without decoy states).
    pub decoy_states: EventBits,
}

impl QkdBatch {
    /// Both flag arrays hold 1024 events.
    pub open spec fn wf(&self) -> bool {
        &&& event_bits(self.results).len() == 1024
        &&& event_bits(self.decoy_states).len() == 1024
    }
}

/// The little-endian bytes of a 64-bit word.
pub open spec fn le_bytes(word: u64) -> Seq<u8> {
    seq![
        word as u8,
        (word >> 8u64) as u8,
        (word >> 16u64) as u8,
        (word >> 24u64) as u8,
        (word >> 32u64) as u8,
        (word >> 40u64) as u8,
        (word >> 48u64) as u8,
        (word >> 56u64) as u8,
    ]
}

/// The 64-bit word of a GCR record: `gc >> 1` in place, with bit 48 holding
/// the low bit of `gc` and bit 49 the result bit.
pub open spec fn gcr_word(gc: u64, result_bit: u8) -> u64 {
    ((gc >> 1u64) & 0xFFFC_FFFF_FFFF_FFFFu64) | ((gc & 1u64) << 48u64) | (((result_bit & 1u8) as u64) << 49u64)
}

/// Encodes one detection as an 8-byte GCR record.
pub fn encode_gcr(gc: u64, result_bit: u8) -> (record: [u8; 8])
    ensures
        record@ == le_bytes(gcr_word(gc, result_bit)),
{
    let bit: u64 = (result_bit & 1u8) as u64;
    let word: u64 = ((gc >> 1u64) & 0xFFFC_FFFF_FFFF_FFFFu64) | ((gc & 1u64) << 48u64) | (bit << 49u64);
    let record = [
        word as u8,
        (word >> 8u64) as u8,
        (word >> 16u64) as u8,
        (word >> 24u64) as u8,
        (word >> 32u64) as u8,
        (word >> 40u64) as u8,
        (word >> 48u64) as u8,
        (word >> 56u64) as u8,
    ];
    assert(record@ =~= le_bytes(gcr_word(gc, result_bit)));
    record
}

/// The low nibble of Alice's FIFO byte for one event: `0 d b1 b0`.
pub open spec fn alice_nibble(state_index: u8, decoy: bool) -> u8 {
    (state_index & 3u8) | (if decoy { 4u8 } else { 0u8 })
}

/// Byte `k` of Alice's FIFO encoding: events `2k` (low nibble) and `2k + 1`.
pub open spec fn alice_fifo_byte(batch: QkdBatch, k: int) -> u8 {
    let lo = alice_nibble(batch.alice_state_index@[2 * k], event_bits(batch.decoy_states)[2 * k]);
    let hi = alice_nibble(batch.alice_state_index@[2 * k + 1], event_bits(batch.decoy_states)[2 * k + 1]);
    lo | ((hi as u8) << 4u8)
}

/// Byte `k` of Bob's FIFO encoding: events `2k` (low nibble) and `2k + 1`,
/// each as `0 0 b1 b0`.
pub open spec fn bob_fifo_byte(batch: QkdBatch, k: int) -> u8 {
    (batch.bob_state_index@[2 * k] & 3u8) | ((batch.bob_state_index@[2 * k + 1] & 3u8) << 4u8)
}

/// The GC value of event `i` of a batch.
pub open spec fn event_gc(batch: QkdBatch, i: int) -> int {
    batch.base_gc + i * batch.gc_step
}

/// The result bit of event `i` as a byte.
pub open spec fn result_byte(batch: QkdBatch, i: int) -> u8 {
    if event_bits(batch.results)[i] { 1 } else { 0 }
}

/// The bytes of GCR record `j` of a batch: one record per event, each
/// followed by an 8-byte zero pad when `use_padding` holds.
pub open spec fn gcr_record(batch: QkdBatch, use_padding: bool, j: int) -> Seq<u8> {
    if use_padding && j % 2 == 1 {
        Seq::new(8, |b: int| 0u8)
    } else {
        let i = if use_padding { j / 2 } else { j };
        le_bytes(gcr_word(event_gc(batch, i) as u64, result_byte(batch, i)))
    }
}

/// The number of GCR records of a batch.
pub open spec fn gcr_record_count(use_padding: bool) -> nat {
    if use_padding { 2048 } else { 1024 }
}

impl QkdBatch {
    /// Serializes Alice's data for the FIFO, two events per byte.
    /// Nibble layout: `0 d b1 b0`, with `d` the decoy flag.
    pub fn to_alice_fifo(&self) -> (out: Vec<u8>)
        requires
            self.wf(),
        ensures
            out.len() == SETTINGS_FIFO_BYTES,
            forall|k: int| 0 <= k < 512 ==> #[trigger] out@[k] == alice_fifo_byte(*self, k),
    {
        let mut out: Vec<u8> = Vec::new();
        let mut k: usize = 0;
        while k < 512
            invariant
                self.wf(),
                k <= 512,
                out.len() == k,
                forall|m: int| 0 <= m < k ==> #[trigger] out@[m] == alice_fifo_byte(*self, m),
            decreases 512 - k,
        {
            let a0 = self.alice_state_index[2 * k];
            let a1 = self.alice_state_index[2 * k + 1];
            let d0: u8 = if self.decoy_states.get(2 * k) { 4 } else { 0 };
            let d1: u8 = if self.decoy_states.get(2 * k + 1) { 4 } else { 0 };
            let e0: u8 = (a0 & 3u8) | d0;
            let e1: u8 = (a1 & 3u8) | d1;
            assert(e1 < 8) by (bit_vector)
                requires
                    e1 == (a1 & 3u8) | d1,
                    d1 == 0 || d1 == 4,
            ;
            out.push(e0 | (e1 << 4u8));
            k = k + 1;
        }
        out
    }

    /// Serializes Bob's settings for the FIFO, two events per byte.
    /// Nibble layout: `0 0 b1 b0`.
    pub fn to_bob_angle_fifo(&self) -> (out: Vec<u8>)
        ensures
            out.len() == SETTINGS_FIFO_BYTES,
            forall|k: int| 0 <= k < 512 ==> #[trigger] out@[k] == bob_fifo_byte(*self, k),
    {
        let mut out: Vec<u8> = Vec::new();
        let mut k: usize = 0;
        while k < 512
            invariant
                k <= 512,
                out.len() == k,
                forall|m: int| 0 <= m < k ==> #[trigger] out@[m] == bob_fifo_byte(*self, m),
            decreases 512 - k,
        {
            let b0 = self.bob_state_index[2 * k];
            let b1 = self.bob_state_index[2 * k + 1];
            out.push((b0 & 3u8) | ((b1 & 3u8) << 4u8));
            k = k + 1;
        }
        out
    }

    /// Encodes all results as GCR records. The GC values start at
    /// `base_gc` and step by `gc_step` per event; with `use_padding` each
    /// record is followed by an 8-byte zero pad (hardware protocol).
    pub fn to_gcr_batch(&self, use_padding: bool) -> (out: Vec<[u8; 8]>)
        requires
            self.wf(),
            self.base_gc + 1023 * self.gc_step <= u64::MAX,
        ensures
            out.len() == gcr_record_count(use_padding),
            forall|j: int| 0 <= j < out.len() ==> #[trigger] out@[j]@ == gcr_record(*self, use_padding, j),
    {
        let mut out: Vec<[u8; 8]> = Vec::new();
        let mut i: usize = 0;
        while i < BATCH
            invariant
                self.wf(),
                self.base_gc + 1023 * self.gc_step <= u64::MAX,
                i <= 1024,
                out.len() == if use_padding { 2 * i } else { i as int },
                forall|j: int| 0 <= j < out.len() ==> #[trigger] out@[j]@ == gcr_record(*self, use_padding, j),
            decreases 1024 - i,
        {
            assert(i * self.gc_step <= 1023 * self.gc_step) by (nonlinear_arith)
                requires
                    i <= 1023,
            ;
            let gc: u64 = self.base_gc + (i as u64) * self.gc_step;
            let bit: u8 = if self.results.get(i) { 1 } else { 0 };
            let record = encode_gcr(gc, bit);
            out.push(record);
            if use_padding {
                let pad = [0u8; 8];
                assert(pad@ =~= Seq::new(8, |b: int| 0u8));
                out.push(pad);
            }
            i = i + 1;
        }
        out
    }
}

/// Concatenates GCR records into the bytes that one FIFO write carries.
pub fn flatten_records(records: &Vec<[u8; 8]>) -> (bytes: Vec<u8>)
    ensures
        bytes@.len() == 8 * records@.len(),
        forall|i: int, k: int| 0 <= i < records@.len() && 0 <= k < 8 ==> #[trigger] bytes@[8 * i + k]
            == records@[i]@[k],
{
    let mut bytes: Vec<u8> = Vec::new();
    let mut i: usize = 0;
    while i < records.len()
        invariant
            i <= records@.len(),
            bytes@.len() == 8 * i,
            forall|j: int, k: int| 0 <= j < i && 0 <= k < 8 ==> #[trigger] bytes@[8 * j + k] == records@[j]@[k],
        decreases records@.len() - i,
    {
        let record = records[i];
        let mut k: usize = 0;
        while k < 8
            invariant
                i < records@.len(),
                record == records@[i as int],
                k <= 8,
                bytes@.len() == 8 * i + k,
                forall|j: int, m: int| 0 <= j < i && 0 <= m < 8 ==> #[trigger] bytes@[8 * j + m] == records@[j]@[m],
                forall|m: int| 0 <= m < k ==> #[trigger] bytes@[8 * i + m] == record@[m],
            decreases 8 - k,
        {
            bytes.push(record[k]);
            k = k + 1;
        }
        proof {
            assert forall|j: int, m: int| 0 <= j < i + 1 && 0 <= m < 8 implies #[trigger] bytes@[8 * j + m]
                == records@[j]@[m] by {
                if j == i {
                    assert(bytes@[8 * i + m] == record@[m]);
                }
            }
        }
        i = i + 1;
    }
    bytes
}

} // verus!
