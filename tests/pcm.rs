use netaudio::pcm::{le_bytes_into_samples, le_bytes_to_samples, sample_from_le, sample_to_le, samples_to_le_bytes};

#[test]
fn sample_bytes_little_endian() {
    assert_eq!(sample_to_le(0x1234), (0x34, 0x12));
    assert_eq!(sample_to_le(-1), (0xff, 0xff));
    assert_eq!(sample_to_le(i16::MIN), (0x00, 0x80));
    assert_eq!(sample_from_le(0x34, 0x12), 0x1234);
    assert_eq!(sample_from_le(0xfe, 0xff), -2);
    assert_eq!(sample_from_le(0xff, 0x7f), i16::MAX);
}

#[test]
fn samples_round_trip() {
    let s = vec![0i16, 1, -1, 300, -300, i16::MAX, i16::MIN];
    let b = samples_to_le_bytes(&s);
    assert_eq!(b.len(), 14);
    assert_eq!(&b[..6], &[0, 0, 1, 0, 0xff, 0xff]);
    assert_eq!(le_bytes_to_samples(&b), s);
}

#[test]
fn odd_trailing_byte_ignored() {
    assert_eq!(le_bytes_to_samples(&[1, 0, 2, 0, 9]), vec![1, 2]);
    assert_eq!(le_bytes_to_samples(&[]), Vec::<i16>::new());
}

#[test]
fn samples_decoded_in_place() {
    let mut out = [7i16; 3];
    le_bytes_into_samples(&[0x34, 0x12, 0xff, 0xff, 0x00, 0x80], &mut out);
    assert_eq!(out, [0x1234, -1, i16::MIN]);
}
