use rust_radio::sample::{ComplexSample, SampleConverter, AMPLITUDE_DENOMINATOR};

fn component_value(numerator: i16) -> f32 {
    numerator as f32 / AMPLITUDE_DENOMINATOR as f32
}

#[test]
fn convert_even_length_yields_half_as_many_samples() {
    let raw: Vec<u8> = vec![0, 1, 2, 3, 4, 5, 6, 7];
    let out = SampleConverter::convert(&raw);
    assert_eq!(out.len(), 4);
}

#[test]
fn convert_odd_length_drops_trailing_byte() {
    let raw: Vec<u8> = vec![10, 20, 30, 40, 50];
    let out = SampleConverter::convert(&raw);
    assert_eq!(out.len(), 2);
    assert_eq!(out[0], ComplexSample { re_num: 10 * 10 - 1274, im_num: 10 * 20 - 1274 });
    assert_eq!(out[1], ComplexSample { re_num: 10 * 30 - 1274, im_num: 10 * 40 - 1274 });
}

#[test]
fn convert_empty_and_single_byte_yield_nothing() {
    assert_eq!(SampleConverter::convert(&[]).len(), 0);
    assert_eq!(SampleConverter::convert(&[255]).len(), 0);
}

#[test]
fn convert_pairs_interleaved_components() {
    let raw: Vec<u8> = vec![100, 200];
    let out = SampleConverter::convert(&raw);
    assert_eq!(out, vec![ComplexSample { re_num: 1000 - 1274, im_num: 2000 - 1274 }]);
}

#[test]
fn calibration_center_is_near_zero() {
    // The DC bias 127.4 sits between the two middle codes, so code 127 maps
    // to a small negative amplitude, not to zero.
    let out = SampleConverter::convert(&[127, 127]);
    assert_eq!(out.len(), 1);
    assert_eq!(out[0].re_num, -4);
    assert_eq!(out[0].im_num, -4);
    assert!((component_value(out[0].re_num) - (-0.00309)).abs() < 1e-4);
    assert!((component_value(out[0].im_num) - (-0.00309)).abs() < 1e-4);
}

#[test]
fn calibration_boundaries() {
    let top = SampleConverter::convert(&[255, 255]);
    assert_eq!(top[0].re_num, 1276);
    assert!((component_value(top[0].re_num) - 0.99687).abs() < 1e-4);

    let bottom = SampleConverter::convert(&[0, 0]);
    assert_eq!(bottom[0].re_num, -1274);
    assert!((component_value(bottom[0].re_num) - (-0.99531)).abs() < 1e-4);
}
