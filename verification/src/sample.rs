use vstd::prelude::*;

verus! {

/// Common denominator of the calibrated amplitude components: `10 * 128`.
///
/// The ADC delivers unsigned 8-bit components; calibration subtracts the DC
/// bias `127.4` and scales by `1/128`, so a raw byte `b` maps to the exact
/// rational `(10 * b - 1274) / 1280`. Keeping samples as integer numerators
/// over this denominator makes the calibration arithmetic exact; rendering a
/// component to a 32-bit float happens only at the output boundary.
pub const AMPLITUDE_DENOMINATOR: i32 = 1280;

/// One calibrated complex baseband sample: each component is the exact
/// rational `numerator / AMPLITUDE_DENOMINATOR`, in roughly `[-1, +1]`.
#[derive(Clone, Copy, Debug, PartialEq, Eq, Structural)]
pub struct ComplexSample {
    /// Numerator of the in-phase (real) component.
    pub re_num: i16,
    /// Numerator of the quadrature (imaginary) component.
    pub im_num: i16,
}

/// The calibrated numerator of one raw ADC byte:
/// `(b - 127.4) / 128 == (10 * b - 1274) / 1280`.
pub open spec fn calibrated(b: u8) -> int {
    10 * b - 1274
}

/// The calibrated samples a raw interleaved I/Q byte buffer converts to:
/// one sample per consecutive `(I, Q)` byte pair. A dangling trailing byte
/// of an odd-length buffer belongs to no pair and is ignored.
pub open spec fn convert_spec(raw: Seq<u8>) -> Seq<ComplexSample> {
    Seq::new(raw.len() / 2, |k: int| ComplexSample {
        re_num: calibrated(raw[2 * k]) as i16,
        im_num: calibrated(raw[2 * k + 1]) as i16,
    })
}

/// Law: conversion consumes the buffer in whole pairs. An even-length
/// buffer yields exactly half as many samples as bytes; an odd-length
/// buffer yields exactly `(length - 1) / 2`, one byte left over.
pub proof fn lemma_convert_length(raw: Seq<u8>)
    ensures
        raw.len() % 2 == 0 ==> 2 * convert_spec(raw).len() == raw.len(),
        raw.len() % 2 == 1 ==> 2 * convert_spec(raw).len() + 1 == raw.len(),
{
}

/// Calibrate one raw ADC byte to its exact numerator over
/// `AMPLITUDE_DENOMINATOR`.
fn calibrate(b: u8) -> (n: i16)
    ensures
        n == calibrated(b),
{
    10 * (b as i16) - 1274
}

/// Turns a raw unsigned-byte interleaved I/Q buffer into calibrated complex
/// baseband samples.
pub struct SampleConverter;

impl SampleConverter {
    /// Convert a raw buffer: each consecutive byte pair `(b_i, b_q)` yields
    /// one sample with components `(b - 127.4) / 128`, held exactly as
    /// integer numerators over `AMPLITUDE_DENOMINATOR`. An even-length
    /// buffer of `L` bytes yields exactly `L / 2` samples; an odd-length
    /// buffer yields `(L - 1) / 2`, the trailing byte silently ignored.
    /// Never fails; an empty or undersized buffer yields an empty sequence.
    pub fn convert(raw: &[u8]) -> (out: Vec<ComplexSample>)
        ensures
            out@.len() == raw@.len() / 2,
            out@ == convert_spec(raw@),
    {
        let pairs: usize = raw.len() / 2;
        let mut out: Vec<ComplexSample> = Vec::new();
        let mut i: usize = 0;
        while i < pairs
            invariant
                raw@.len() <= usize::MAX,
                pairs == raw@.len() / 2,
                i <= pairs,
                out@.len() == i,
                forall|k: int| 0 <= k < i ==> out@[k] == convert_spec(raw@)[k],
            decreases pairs - i,
        {
            proof {
                assert(2 * i + 1 < raw@.len());
            }
            let re_num: i16 = calibrate(raw[2 * i]);
            let im_num: i16 = calibrate(raw[2 * i + 1]);
            out.push(ComplexSample { re_num, im_num });
            i = i + 1;
        }
        proof {
            assert(out@ =~= convert_spec(raw@));
        }
        out
    }
}

} // verus!
