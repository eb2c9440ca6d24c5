use rust_radio::codec::{
    decode_demodulated, decode_words, encode_demodulated, encode_words, DemodulatedSample,
};

#[test]
fn words_are_emitted_least_significant_byte_first() {
    let words: Vec<u32> = vec![0x0102_0304];
    let bytes = encode_words(&words);
    assert_eq!(bytes, vec![0x04, 0x03, 0x02, 0x01]);
}

#[test]
fn encoded_length_is_four_bytes_per_word() {
    let words: Vec<u32> = vec![0, 1, 0xffff_ffff];
    assert_eq!(encode_words(&words).len(), 12);
    assert_eq!(encode_words(&Vec::new()).len(), 0);
}

#[test]
fn words_round_trip_through_bytes() {
    let words: Vec<u32> = vec![0, 1, 0x8000_0000, 0xdead_beef, u32::MAX];
    let decoded = decode_words(&encode_words(&words)).unwrap();
    assert_eq!(decoded, words);
}

#[test]
fn decode_rejects_ragged_lengths() {
    assert_eq!(decode_words(&vec![1, 2, 3]), None);
    assert_eq!(decode_demodulated(&vec![0; 5]), None);
    assert!(decode_words(&Vec::new()).is_some());
}

#[test]
fn demodulated_samples_round_trip_exactly() {
    let floats: Vec<f32> = vec![0.0, 1.0, -0.5, 3.25e-3, f32::MIN_POSITIVE];
    let samples: Vec<DemodulatedSample> =
        floats.iter().map(|f| DemodulatedSample { bits: f.to_bits() }).collect();
    let bytes = encode_demodulated(&samples);
    assert_eq!(bytes.len(), 4 * samples.len());
    let decoded = decode_demodulated(&bytes).unwrap();
    assert_eq!(decoded, samples);
    let back: Vec<f32> = decoded.iter().map(|s| f32::from_bits(s.bits)).collect();
    assert_eq!(back, floats);
}

#[test]
fn iq_pairs_use_eight_bytes_per_sample() {
    // One complex sample is two 32-bit components, interleaved.
    let pair: Vec<u32> = vec![1.0f32.to_bits(), (-1.0f32).to_bits()];
    let bytes = encode_words(&pair);
    assert_eq!(bytes.len(), 8);
    assert_eq!(&bytes[0..4], 1.0f32.to_le_bytes());
    assert_eq!(&bytes[4..8], (-1.0f32).to_le_bytes());
}
