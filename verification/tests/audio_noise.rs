use single_button_game::noise::hash_bits;
use single_button_game::wav::build_wav;

#[test]
fn wav_header_and_samples() {
    let w = build_wav(&[1, -2, 300]);
    assert_eq!(w.len(), 44 + 6);
    assert_eq!(&w[0..4], b"RIFF");
    assert_eq!(&w[4..8], &42u32.to_le_bytes());
    assert_eq!(&w[8..16], b"WAVEfmt ");
    assert_eq!(&w[16..20], &16u32.to_le_bytes());
    assert_eq!(&w[20..24], &[1, 0, 1, 0]);
    assert_eq!(&w[24..28], &44100u32.to_le_bytes());
    assert_eq!(&w[28..32], &88200u32.to_le_bytes());
    assert_eq!(&w[32..36], &[2, 0, 16, 0]);
    assert_eq!(&w[36..40], b"data");
    assert_eq!(&w[40..44], &6u32.to_le_bytes());
    assert_eq!(&w[44..50], &[1, 0, 0xfe, 0xff, 0x2c, 0x01]);
}

#[test]
fn wav_samples_read_back() {
    let samples = [0i16, i16::MIN, i16::MAX, -1, 12345];
    let w = build_wav(&samples);
    for (i, s) in samples.iter().enumerate() {
        assert_eq!(i16::from_le_bytes([w[44 + 2 * i], w[45 + 2 * i]]), *s);
    }
}

#[test]
fn empty_wav_is_a_bare_header() {
    let w = build_wav(&[]);
    assert_eq!(w.len(), 44);
    assert_eq!(&w[4..8], &36u32.to_le_bytes());
}

#[test]
fn hash_matches_the_two_lcg_steps() {
    for seed in [0u32, 1, 42, 7 * 3779 + 2 * 997, u32::MAX] {
        let x = seed.wrapping_mul(1664525).wrapping_add(1013904223);
        let x = x.wrapping_mul(22695477).wrapping_add(1);
        assert_eq!(hash_bits(seed), (x >> 8) & 0xFF_FFFF);
    }
    assert_eq!(hash_bits(0), 4162900);
}

#[test]
fn hash_reaches_its_maximum() {
    assert_eq!(hash_bits(2341555348), 0xFF_FFFF);
    assert!((hash_bits(2341555348) as f32 / 16_777_216.0) < 1.0);
}
