use rust_radio::errors::{ConfigStep, RadioError};
use rust_radio::sample::ComplexSample;
use rust_radio::session::{
    is_sample_rate_supported, HwAction, HwReply, Phase, SessionStep, TunerSession,
    FREQ_CORRECTION_PPM,
};

/// Walk the opening sequence with a hardware stand-in that succeeds.
fn opened_session() -> TunerSession {
    let mut s = TunerSession::new(16384);
    assert_eq!(s.phase, Phase::Closed);
    let a = s.open(0);
    assert_eq!(a, HwAction::Open(0));
    assert_eq!(s.advance(HwReply::Done), SessionStep::Act(HwAction::GetXtalFreq));
    assert_eq!(
        s.advance(HwReply::XtalFreq(28_800_000, 28_800_000)),
        SessionStep::Act(HwAction::SetXtalFreq(28_800_000, 28_800_000))
    );
    assert_eq!(
        s.advance(HwReply::Done),
        SessionStep::Act(HwAction::SetFreqCorrection(FREQ_CORRECTION_PPM))
    );
    assert_eq!(s.advance(HwReply::Done), SessionStep::Ready);
    assert_eq!(s.phase, Phase::Opened);
    s
}

/// Walk one tune sequence with a hardware stand-in that succeeds.
fn tune_ok(s: &mut TunerSession, frequency: u32, sample_rate: u32) {
    let a = s.tune(frequency, sample_rate);
    assert_eq!(a, HwAction::SetCenterFreq(frequency));
    assert_eq!(s.advance(HwReply::Done), SessionStep::Act(HwAction::SetSampleRate(sample_rate)));
    assert_eq!(s.advance(HwReply::Done), SessionStep::Act(HwAction::ResetBuffer));
    assert_eq!(s.advance(HwReply::Done), SessionStep::Ready);
}

#[test]
fn open_sequence_reaches_opened() {
    let s = opened_session();
    assert_eq!(s.get_buffer_size(), 16384);
}

#[test]
fn tune_reaches_configured_and_is_idempotent() {
    let mut s = opened_session();
    tune_ok(&mut s, 96_900_000, 250_000);
    assert_eq!(s.phase, Phase::Configured);
    let first = s;
    tune_ok(&mut s, 96_900_000, 250_000);
    assert_eq!(s.phase, Phase::Configured);
    assert_eq!(s, first);
    assert_eq!(s.frequency, 96_900_000);
    assert_eq!(s.sample_rate, 250_000);
}

#[test]
fn open_failure_is_device_unavailable() {
    let mut s = TunerSession::new(16384);
    s.open(0);
    assert_eq!(
        s.advance(HwReply::Failed),
        SessionStep::Fail(RadioError::DeviceUnavailable)
    );
    assert_eq!(s.phase, Phase::Closed);
}

#[test]
fn each_config_step_failure_names_its_step() {
    // Crystal read fails.
    let mut s = TunerSession::new(16384);
    s.open(0);
    s.advance(HwReply::Done);
    assert_eq!(
        s.advance(HwReply::Failed),
        SessionStep::Fail(RadioError::HardwareConfig(ConfigStep::XtalRead))
    );

    // Crystal write fails.
    let mut s = TunerSession::new(16384);
    s.open(0);
    s.advance(HwReply::Done);
    s.advance(HwReply::XtalFreq(28_800_000, 28_800_000));
    assert_eq!(
        s.advance(HwReply::Failed),
        SessionStep::Fail(RadioError::HardwareConfig(ConfigStep::XtalWrite))
    );

    // Frequency correction fails.
    let mut s = TunerSession::new(16384);
    s.open(0);
    s.advance(HwReply::Done);
    s.advance(HwReply::XtalFreq(28_800_000, 28_800_000));
    s.advance(HwReply::Done);
    assert_eq!(
        s.advance(HwReply::Failed),
        SessionStep::Fail(RadioError::HardwareConfig(ConfigStep::FreqCorrection))
    );
}

#[test]
fn tune_failure_falls_back_to_opened_and_full_retry_works() {
    let mut s = opened_session();
    s.tune(96_900_000, 250_000);
    assert_eq!(
        s.advance(HwReply::Failed),
        SessionStep::Fail(RadioError::HardwareConfig(ConfigStep::CenterFreq))
    );
    assert_eq!(s.phase, Phase::Opened);

    s.tune(96_900_000, 250_000);
    s.advance(HwReply::Done);
    assert_eq!(
        s.advance(HwReply::Failed),
        SessionStep::Fail(RadioError::HardwareConfig(ConfigStep::SampleRate))
    );
    assert_eq!(s.phase, Phase::Opened);

    s.tune(96_900_000, 250_000);
    s.advance(HwReply::Done);
    s.advance(HwReply::Done);
    assert_eq!(
        s.advance(HwReply::Failed),
        SessionStep::Fail(RadioError::HardwareConfig(ConfigStep::BufferReset))
    );
    assert_eq!(s.phase, Phase::Opened);

    // The caller retries the full tune, not a partial one.
    tune_ok(&mut s, 96_900_000, 250_000);
    assert_eq!(s.phase, Phase::Configured);
}

#[test]
fn reads_stream_and_convert() {
    let mut s = opened_session();
    tune_ok(&mut s, 96_900_000, 250_000);
    let a = s.begin_read();
    assert_eq!(a, HwAction::ReadSync(16384));
    assert_eq!(s.phase, Phase::Streaming);

    let samples = s.complete_iq_read(Some(vec![127, 255, 0, 127])).unwrap();
    assert_eq!(
        samples,
        vec![
            ComplexSample { re_num: -4, im_num: 1276 },
            ComplexSample { re_num: -1274, im_num: -4 },
        ]
    );

    // A failed read propagates unchanged; the session still streams.
    assert_eq!(s.complete_iq_read(None), Err(RadioError::Read));
    assert_eq!(s.begin_read(), HwAction::ReadSync(16384));
}

#[test]
fn close_releases_from_any_phase() {
    let mut s = opened_session();
    assert_eq!(s.close(), HwAction::Close);
    assert_eq!(s.phase, Phase::Closed);

    let mut s2 = TunerSession::new(16384);
    assert_eq!(s2.close(), HwAction::Close);
    assert_eq!(s2.phase, Phase::Closed);
}

#[test]
fn supported_sample_rates_have_two_ranges() {
    assert!(is_sample_rate_supported(225_000));
    assert!(!is_sample_rate_supported(225_001));
    assert!(!is_sample_rate_supported(250_000));
    assert!(!is_sample_rate_supported(300_000));
    assert!(is_sample_rate_supported(300_001));
    assert!(is_sample_rate_supported(3_200_000));
    assert!(!is_sample_rate_supported(3_200_001));
    assert!(is_sample_rate_supported(0));
}
