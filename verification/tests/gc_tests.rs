use hw_sim::gc::{decode_gc_records, gc_record, gc_value_of_record, GC_RECORD_SIZE};

#[test]
fn gc_records_round_trip() {
    for gc in [0u64, 1, 1023, 0x0123_4567_89AB_CDEF, u64::MAX] {
        let record = gc_record(gc);
        assert_eq!(record.len(), GC_RECORD_SIZE);
        assert_eq!(&record[0..8], &gc.to_le_bytes());
        assert_eq!(&record[8..16], &[0u8; 8]);
        assert_eq!(gc_value_of_record(&record), gc);
    }
}

#[test]
fn gc_batches_decode_one_value_per_whole_record() {
    let mut bytes = Vec::new();
    for j in 0..1024u64 {
        bytes.extend_from_slice(&gc_record(3 * 1024 + j));
    }
    bytes.extend_from_slice(&[0xAA; 5]);
    let values = decode_gc_records(&bytes);
    assert_eq!(values.len(), 1024);
    assert_eq!(values[0], 3072);
    assert_eq!(values[1023], 4095);
}
