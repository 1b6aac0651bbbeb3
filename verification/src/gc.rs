//! The GC records that the controller hands to the simulator: 16 bytes each,
//! the first eight holding the GC value in little-endian order.
use vstd::prelude::*;
use crate::batch::le_bytes;

verus! {

/// The size of a GC record in bytes.
pub const GC_RECORD_SIZE: usize = 16;

/// The little-endian value of the first eight bytes.
pub open spec fn le_u64(b: Seq<u8>) -> u64 {
    (b[0] as u64) | ((b[1] as u64) << 8u64) | ((b[2] as u64) << 16u64) | ((b[3] as u64) << 24u64)
        | ((b[4] as u64) << 32u64) | ((b[5] as u64) << 40u64) | ((b[6] as u64) << 48u64) | ((b[7] as u64)
        << 56u64)
}

/// The GC value of one record.
pub fn gc_value_of_record(record: &[u8; 16]) -> (gc: u64)
    ensures
        gc == le_u64(record@),
{
    (record[0] as u64) | ((record[1] as u64) << 8u64) | ((record[2] as u64) << 16u64) | ((record[3] as u64)
        << 24u64) | ((record[4] as u64) << 32u64) | ((record[5] as u64) << 40u64) | ((record[6] as u64)
        << 48u64) | ((record[7] as u64) << 56u64)
}

/// The GC values of the records in `bytes`, one per whole record.
pub fn decode_gc_records(bytes: &Vec<u8>) -> (values: Vec<u64>)
    ensures
        values@.len() == bytes@.len() / 16,
        forall|i: int| 0 <= i < values@.len() ==> #[trigger] values@[i] == le_u64(bytes@.subrange(16 * i, 16 * i + 8)),
{
    let total = bytes.len();
    let count = total / 16;
    let mut values: Vec<u64> = Vec::new();
    let mut i: usize = 0;
    while i < count
        invariant
            count == bytes@.len() / 16,
            total == bytes@.len(),
            i <= count,
            values@.len() == i,
            forall|j: int| 0 <= j < i ==> #[trigger] values@[j] == le_u64(bytes@.subrange(16 * j, 16 * j + 8)),
        decreases count - i,
    {
        assert(16 * i + 16 <= bytes@.len()) by (nonlinear_arith)
            requires
                i < count,
                count == bytes@.len() / 16,
        ;
        let base = 16 * i;
        let gc = (bytes[base] as u64) | ((bytes[base + 1] as u64) << 8u64) | ((bytes[base + 2] as u64) << 16u64)
            | ((bytes[base + 3] as u64) << 24u64) | ((bytes[base + 4] as u64) << 32u64) | ((bytes[base + 5] as u64)
            << 40u64) | ((bytes[base + 6] as u64) << 48u64) | ((bytes[base + 7] as u64) << 56u64);
        let ghost record = bytes@.subrange(16 * i, 16 * i + 8);
        assert(record[0] == bytes@[base as int] && record[1] == bytes@[base + 1] && record[2] == bytes@[base + 2]
            && record[3] == bytes@[base + 3] && record[4] == bytes@[base + 4] && record[5] == bytes@[base + 5]
            && record[6] == bytes@[base + 6] && record[7] == bytes@[base + 7]);
        values.push(gc);
        i = i + 1;
    }
    values
}

/// The record of a GC value: its little-endian bytes, then eight zero bytes.
pub fn gc_record(gc: u64) -> (record: [u8; 16])
    ensures
        record@.subrange(0, 8) == le_bytes(gc),
        forall|k: int| 8 <= k < 16 ==> #[trigger] record@[k] == 0,
{
    let record = [
        gc as u8,
        (gc >> 8u64) as u8,
        (gc >> 16u64) as u8,
        (gc >> 24u64) as u8,
        (gc >> 32u64) as u8,
        (gc >> 40u64) as u8,
        (gc >> 48u64) as u8,
        (gc >> 56u64) as u8,
        0u8,
        0u8,
        0u8,
        0u8,
        0u8,
        0u8,
        0u8,
        0u8,
    ];
    assert(record@.subrange(0, 8) =~= le_bytes(gc));
    record
}

/// A GC value survives its record: the simulator reads back the value that
/// the controller wrote.
pub proof fn law_gc_record_round_trip(gc: u64)
    ensures
        le_u64(le_bytes(gc)) == gc,
{
    let b = le_bytes(gc);
    assert(b[0] == gc as u8 && b[1] == (gc >> 8u64) as u8 && b[2] == (gc >> 16u64) as u8 && b[3] == (gc
        >> 24u64) as u8 && b[4] == (gc >> 32u64) as u8 && b[5] == (gc >> 40u64) as u8 && b[6] == (gc >> 48u64)
        as u8 && b[7] == (gc >> 56u64) as u8);
    assert(((gc as u8) as u64) | ((((gc >> 8u64) as u8) as u64) << 8u64) | ((((gc >> 16u64) as u8) as u64)
        << 16u64) | ((((gc >> 24u64) as u8) as u64) << 24u64) | ((((gc >> 32u64) as u8) as u64) << 32u64) | ((((gc
        >> 40u64) as u8) as u64) << 40u64) | ((((gc >> 48u64) as u8) as u64) << 48u64) | ((((gc >> 56u64) as u8)
        as u64) << 56u64) == gc) by (bit_vector);
}

} // verus!
