use key_image_store::record::{decode, encode, KeyImageData, VALUE_SIZE};

#[test]
fn encode_is_little_endian_block_index_then_timestamp() {
    let bytes = encode(&KeyImageData { block_index: 100, timestamp: 12345 });
    assert_eq!(
        bytes,
        [100, 0, 0, 0, 0, 0, 0, 0, 0x39, 0x30, 0, 0, 0, 0, 0, 0]
    );
}

#[test]
fn encode_places_every_byte() {
    let bytes = encode(&KeyImageData {
        block_index: 0x0807_0605_0403_0201,
        timestamp: 0x1817_1615_1413_1211,
    });
    assert_eq!(
        bytes,
        [
            0x01, 0x02, 0x03, 0x04, 0x05, 0x06, 0x07, 0x08, 0x11, 0x12, 0x13, 0x14, 0x15, 0x16,
            0x17, 0x18
        ]
    );
}

#[test]
fn encode_agrees_with_to_le_bytes() {
    let record = KeyImageData { block_index: 0xDEAD_BEEF_0BAD_F00D, timestamp: 1_600_000_000 };
    let bytes = encode(&record);
    assert_eq!(bytes.len(), VALUE_SIZE);
    assert_eq!(&bytes[0..8], &record.block_index.to_le_bytes());
    assert_eq!(&bytes[8..16], &record.timestamp.to_le_bytes());
}

#[test]
fn decode_all_zero_buffer_is_zero_record() {
    assert_eq!(
        decode(&[0u8; 16]),
        KeyImageData { block_index: 0, timestamp: 0 }
    );
}

#[test]
fn decode_reads_little_endian() {
    let bytes = [1, 0, 0, 0, 0, 0, 0, 0, 0, 1, 0, 0, 0, 0, 0, 0];
    assert_eq!(
        decode(&bytes),
        KeyImageData { block_index: 1, timestamp: 256 }
    );
}

#[test]
fn decode_all_ones_buffer_is_max_record() {
    assert_eq!(
        decode(&[0xFF; 16]),
        KeyImageData { block_index: u64::MAX, timestamp: u64::MAX }
    );
}

#[test]
fn decode_inverts_encode() {
    let samples = [
        (0u64, 0u64),
        (1, 0),
        (0, 1),
        (100, 12345),
        (u64::MAX, 0),
        (0, u64::MAX),
        (u64::MAX, u64::MAX),
        (0x0123_4567_89AB_CDEF, 0xFEDC_BA98_7654_3210),
        (1 << 63, 1 << 32),
    ];
    for (block_index, timestamp) in samples {
        let record = KeyImageData { block_index, timestamp };
        assert_eq!(decode(&encode(&record)), record);
    }
}

#[test]
fn encode_inverts_decode() {
    let mut bytes = [0u8; 16];
    for (i, byte) in bytes.iter_mut().enumerate() {
        *byte = (i as u8).wrapping_mul(37).wrapping_add(11);
    }
    assert_eq!(encode(&decode(&bytes)), bytes);
}
