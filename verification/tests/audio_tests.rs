use voxtype::audio::pcm_le_bytes;

#[test]
fn samples_to_little_endian_bytes() {
    let samples = vec![0i16, 1, -1, i16::MAX, i16::MIN, 0x1234];
    let expected: Vec<u8> = samples.iter().flat_map(|s| s.to_le_bytes()).collect();
    assert_eq!(pcm_le_bytes(&samples), expected);
    assert_eq!(pcm_le_bytes(&vec![0x1234]), vec![0x34, 0x12]);
    assert!(pcm_le_bytes(&vec![]).is_empty());
}

#[test]
fn bytes_decode_back_to_samples() {
    let samples: Vec<i16> = (-300..300).map(|x| (x * 109) as i16).collect();
    let bytes = pcm_le_bytes(&samples);
    let back: Vec<i16> = bytes.chunks(2).map(|c| i16::from_le_bytes([c[0], c[1]])).collect();
    assert_eq!(back, samples);
}
