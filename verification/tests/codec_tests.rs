//! The compact discriminant encoding and its round trip.

use cruiser::codec::{decode_discriminant, encode_discriminant, read_le_field, width_for_count};

#[test]
fn width_transitions_at_each_power_of_256() {
    assert_eq!(width_for_count(1), 1);
    assert_eq!(width_for_count(255), 1);
    assert_eq!(width_for_count(256), 2);
    assert_eq!(width_for_count(257), 2);
    assert_eq!(width_for_count(65535), 2);
    assert_eq!(width_for_count(65536), 3);
    assert_eq!(width_for_count(u64::MAX), 8);
}

#[test]
fn round_trip_for_every_family_size_up_to_past_the_boundary() {
    for members in 1u64..=257 {
        let width = width_for_count(members);
        // The largest tag of a family whose tags run from 1 to `members`.
        let encoded = encode_discriminant(members, width);
        assert_eq!(encoded.len(), width);
        let decoded = decode_discriminant(&encoded, width).unwrap();
        assert_eq!(decoded, members);
    }
}

#[test]
fn encoding_is_little_endian() {
    let encoded = encode_discriminant(0x0807_0605_0403_0201, 8);
    assert_eq!(encoded, vec![1, 2, 3, 4, 5, 6, 7, 8]);
}

#[test]
fn decode_reads_exactly_the_field_width() {
    let buffer = vec![0x2a, 0xff, 0xff];
    assert_eq!(decode_discriminant(&buffer, 1), Some(0x2a));
    assert_eq!(decode_discriminant(&buffer, 2), Some(0xff2a));
}

#[test]
fn decode_fails_on_short_buffer() {
    let buffer = vec![1u8];
    assert_eq!(decode_discriminant(&buffer, 2), None);
}

#[test]
fn le_field_reads_at_offset() {
    let mut buffer = vec![9u8, 9, 9];
    buffer.extend_from_slice(&[0x10, 0x20]);
    assert_eq!(read_le_field(&buffer, 3, 2), 0x2010);
}
