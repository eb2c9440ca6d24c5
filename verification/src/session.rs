use vstd::prelude::*;

verus! {

use crate::errors::{ConfigStep, RadioError};
use crate::sample::{convert_spec, ComplexSample, SampleConverter};

/// Frequency correction applied once when a session opens, in parts per
/// million.
pub const FREQ_CORRECTION_PPM: i32 = 1;

/// Whether the tuner supports a sample rate: at most 225 kHz, or above
/// 300 kHz up to 3.2 MHz. Rates between 225 kHz (exclusive) and 300 kHz
/// (inclusive) are rejected by the hardware, as is anything above 3.2 MHz.
pub open spec fn sample_rate_supported(rate: u32) -> bool {
    rate <= 225000 || (300000 < rate && rate <= 3200000)
}

/// Whether the tuner supports a sample rate (see `sample_rate_supported`).
/// The hardware itself enforces this; the check is offered so a caller can
/// reject an unsupported rate before touching the device.
pub fn is_sample_rate_supported(rate: u32) -> (b: bool)
    ensures
        b == sample_rate_supported(rate),
{
    rate <= 225000 || (300000 < rate && rate <= 3200000)
}

/// One operation the hardware collaborator is asked to perform. The session
/// state machine emits these; whatever drives the device performs them and
/// reports back with a `HwReply` (or, for `ReadSync`, with the bytes read).
#[derive(Clone, Copy, Debug, PartialEq, Eq, Structural)]
pub enum HwAction {
    /// Open the device with the given index and acquire its handle.
    Open(i32),
    /// Read the current (rtl clock, tuner clock) crystal frequencies.
    GetXtalFreq,
    /// Write the crystal frequencies back.
    SetXtalFreq(u32, u32),
    /// Apply a frequency correction in ppm.
    SetFreqCorrection(i32),
    /// Set the center frequency in Hz.
    SetCenterFreq(u32),
    /// Set the sample rate in Hz.
    SetSampleRate(u32),
    /// Reset the tuner's internal buffer.
    ResetBuffer,
    /// One synchronous blocking read of the given byte count.
    ReadSync(usize),
    /// Release the device handle.
    Close,
}

/// The hardware collaborator's report on one completed action. Failures are
/// opaque: the driver's own error value is terminal and never inspected.
#[derive(Clone, Copy, Debug, PartialEq, Eq, Structural)]
pub enum HwReply {
    /// The action succeeded and carries no payload.
    Done,
    /// `GetXtalFreq` succeeded with these (rtl clock, tuner clock) values.
    XtalFreq(u32, u32),
    /// The action failed.
    Failed,
}

/// What the session asks for after taking a hardware reply: perform another
/// action, or the sequence ended.
#[derive(Clone, Copy, Debug, PartialEq, Eq, Structural)]
pub enum SessionStep {
    /// Perform this action next and report back.
    Act(HwAction),
    /// The sequence completed; the session reached its target state.
    Ready,
    /// The sequence failed with this error; no further action is owed.
    Fail(RadioError),
}

/// Lifecycle of a session. `Closed -> Opened -> Configured -> Streaming`,
/// with one `Await` state per outstanding hardware action so that every
/// configuration step is sequenced and checked before the next is issued.
#[derive(Clone, Copy, Debug, PartialEq, Eq, Structural)]
pub enum Phase {
    /// No device handle held.
    Closed,
    /// `Open` outstanding.
    AwaitOpen,
    /// `GetXtalFreq` outstanding.
    AwaitXtalRead,
    /// `SetXtalFreq` outstanding.
    AwaitXtalWrite,
    /// `SetFreqCorrection` outstanding.
    AwaitCorrection,
    /// Handle acquired, crystal state aligned, correction applied.
    Opened,
    /// `SetCenterFreq` outstanding.
    AwaitCenterFreq,
    /// `SetSampleRate` outstanding.
    AwaitSampleRate,
    /// `ResetBuffer` outstanding.
    AwaitReset,
    /// Center frequency and sample rate set, buffer reset.
    Configured,
    /// Buffered reads accepted.
    Streaming,
}

/// Owns the lifecycle of one tuner device and mediates every configuration
/// and read against it. The session holds no handle itself: it decides, step
/// by step, which hardware action comes next, and advances on each reply, so
/// that the sequencing and the failure handling are checked while the opaque
/// driver calls stay outside.
#[derive(Clone, Copy, Debug, PartialEq, Eq, Structural)]
pub struct TunerSession {
    /// Where in the lifecycle the session stands.
    pub phase: Phase,
    /// Bytes per buffered read, fixed at construction.
    pub buffer_size: usize,
    /// Center frequency in Hz: the target while a tune is in flight, the
    /// configured value once `Configured` is reached.
    pub frequency: u32,
    /// Sample rate in Hz, on the same terms as `frequency`.
    pub sample_rate: u32,
}

/// The session after a tune request: the tune sequence starts over from its
/// first step with the requested frequency and rate as targets.
pub open spec fn tune_state(s: TunerSession, frequency: u32, sample_rate: u32) -> TunerSession {
    TunerSession { phase: Phase::AwaitCenterFreq, frequency, sample_rate, ..s }
}

/// Whether a session has a hardware action outstanding, so that a reply can
/// advance it.
pub open spec fn awaiting(s: TunerSession) -> bool {
    match s.phase {
        Phase::AwaitOpen => true,
        Phase::AwaitXtalRead => true,
        Phase::AwaitXtalWrite => true,
        Phase::AwaitCorrection => true,
        Phase::AwaitCenterFreq => true,
        Phase::AwaitSampleRate => true,
        Phase::AwaitReset => true,
        _ => false,
    }
}

/// Whether a reply answers the action outstanding in this phase: crystal
/// values answer exactly the crystal read; every other action answers with
/// `Done`; any action may report `Failed`.
pub open spec fn reply_matches(s: TunerSession, reply: HwReply) -> bool {
    match reply {
        HwReply::Done => awaiting(s) && s.phase != Phase::AwaitXtalRead,
        HwReply::XtalFreq(_, _) => s.phase == Phase::AwaitXtalRead,
        HwReply::Failed => awaiting(s),
    }
}

/// The session after one hardware reply. A failure while opening abandons
/// the session (`Closed`); a failure while tuning leaves the configuration
/// undefined, so the session falls back to `Opened` and the caller must
/// retry the full tune.
pub open spec fn advance_state(s: TunerSession, reply: HwReply) -> TunerSession {
    match reply {
        HwReply::Failed => match s.phase {
            Phase::AwaitOpen => TunerSession { phase: Phase::Closed, ..s },
            Phase::AwaitXtalRead => TunerSession { phase: Phase::Closed, ..s },
            Phase::AwaitXtalWrite => TunerSession { phase: Phase::Closed, ..s },
            Phase::AwaitCorrection => TunerSession { phase: Phase::Closed, ..s },
            Phase::AwaitCenterFreq => TunerSession { phase: Phase::Opened, ..s },
            Phase::AwaitSampleRate => TunerSession { phase: Phase::Opened, ..s },
            Phase::AwaitReset => TunerSession { phase: Phase::Opened, ..s },
            _ => s,
        },
        _ => match s.phase {
            Phase::AwaitOpen => TunerSession { phase: Phase::AwaitXtalRead, ..s },
            Phase::AwaitXtalRead => TunerSession { phase: Phase::AwaitXtalWrite, ..s },
            Phase::AwaitXtalWrite => TunerSession { phase: Phase::AwaitCorrection, ..s },
            Phase::AwaitCorrection => TunerSession { phase: Phase::Opened, ..s },
            Phase::AwaitCenterFreq => TunerSession { phase: Phase::AwaitSampleRate, ..s },
            Phase::AwaitSampleRate => TunerSession { phase: Phase::AwaitReset, ..s },
            Phase::AwaitReset => TunerSession { phase: Phase::Configured, ..s },
            _ => s,
        },
    }
}

/// What the session asks for after one hardware reply: the next action of
/// the sequence, completion, or the error the failed step maps to.
pub open spec fn advance_step(s: TunerSession, reply: HwReply) -> SessionStep {
    match reply {
        HwReply::Failed => match s.phase {
            Phase::AwaitOpen => SessionStep::Fail(RadioError::DeviceUnavailable),
            Phase::AwaitXtalRead => SessionStep::Fail(
                RadioError::HardwareConfig(ConfigStep::XtalRead),
            ),
            Phase::AwaitXtalWrite => SessionStep::Fail(
                RadioError::HardwareConfig(ConfigStep::XtalWrite),
            ),
            Phase::AwaitCorrection => SessionStep::Fail(
                RadioError::HardwareConfig(ConfigStep::FreqCorrection),
            ),
            Phase::AwaitCenterFreq => SessionStep::Fail(
                RadioError::HardwareConfig(ConfigStep::CenterFreq),
            ),
            Phase::AwaitSampleRate => SessionStep::Fail(
                RadioError::HardwareConfig(ConfigStep::SampleRate),
            ),
            Phase::AwaitReset => SessionStep::Fail(
                RadioError::HardwareConfig(ConfigStep::BufferReset),
            ),
            _ => SessionStep::Ready,
        },
        HwReply::XtalFreq(rtl_clock, tuner_clock) => SessionStep::Act(
            HwAction::SetXtalFreq(rtl_clock, tuner_clock),
        ),
        HwReply::Done => match s.phase {
            Phase::AwaitOpen => SessionStep::Act(HwAction::GetXtalFreq),
            Phase::AwaitXtalWrite => SessionStep::Act(
                HwAction::SetFreqCorrection(FREQ_CORRECTION_PPM),
            ),
            Phase::AwaitCorrection => SessionStep::Ready,
            Phase::AwaitCenterFreq => SessionStep::Act(HwAction::SetSampleRate(s.sample_rate)),
            Phase::AwaitSampleRate => SessionStep::Act(HwAction::ResetBuffer),
            Phase::AwaitReset => SessionStep::Ready,
            _ => SessionStep::Ready,
        },
    }
}

/// The session a successful tune sequence ends in: the tune request followed
/// by a successful reply to each of its three steps.
pub open spec fn complete_tune(s: TunerSession, frequency: u32, sample_rate: u32) -> TunerSession {
    advance_state(
        advance_state(advance_state(tune_state(s, frequency, sample_rate), HwReply::Done), HwReply::Done),
        HwReply::Done,
    )
}

impl TunerSession {
    /// A fresh session around one device: no handle held yet, the per-read
    /// byte count fixed here for the session's whole lifetime.
    pub fn new(buffer_size: usize) -> (s: TunerSession)
        ensures
            s == (TunerSession {
                phase: Phase::Closed,
                buffer_size,
                frequency: 0,
                sample_rate: 0,
            }),
    {
        TunerSession { phase: Phase::Closed, buffer_size, frequency: 0, sample_rate: 0 }
    }

    /// Start the opening sequence: acquire the handle of the device with the
    /// given index, then align the crystal clocks (read them, write the same
    /// pair back) and apply the frequency correction, one reply at a time.
    pub fn open(&mut self, device_index: i32) -> (a: HwAction)
        requires
            old(self).phase == Phase::Closed,
        ensures
            *final(self) == (TunerSession { phase: Phase::AwaitOpen, ..*old(self) }),
            a == HwAction::Open(device_index),
    {
        self.phase = Phase::AwaitOpen;
        HwAction::Open(device_index)
    }

    /// Start a tune sequence: set the center frequency, then the sample
    /// rate, then reset the hardware buffer. May be called on an opened
    /// session any number of times, and after every success or tune failure
    /// again: each call restarts the full sequence.
    pub fn tune(&mut self, frequency: u32, sample_rate: u32) -> (a: HwAction)
        requires
            old(self).phase == Phase::Opened || old(self).phase == Phase::Configured
                || old(self).phase == Phase::Streaming,
        ensures
            *final(self) == tune_state(*old(self), frequency, sample_rate),
            a == HwAction::SetCenterFreq(frequency),
    {
        self.phase = Phase::AwaitCenterFreq;
        self.frequency = frequency;
        self.sample_rate = sample_rate;
        HwAction::SetCenterFreq(frequency)
    }

    /// Take the hardware's reply to the outstanding action and decide what
    /// comes next. The step sequencing, the target state and the error each
    /// failing step maps to follow `advance_state` and `advance_step`
    /// exactly.
    pub fn advance(&mut self, reply: HwReply) -> (step: SessionStep)
        requires
            reply_matches(*old(self), reply),
        ensures
            *final(self) == advance_state(*old(self), reply),
            step == advance_step(*old(self), reply),
    {
        match reply {
            HwReply::Failed => {
                match self.phase {
                    Phase::AwaitOpen => {
                        self.phase = Phase::Closed;
                        SessionStep::Fail(RadioError::DeviceUnavailable)
                    },
                    Phase::AwaitXtalRead => {
                        self.phase = Phase::Closed;
                        SessionStep::Fail(RadioError::HardwareConfig(ConfigStep::XtalRead))
                    },
                    Phase::AwaitXtalWrite => {
                        self.phase = Phase::Closed;
                        SessionStep::Fail(RadioError::HardwareConfig(ConfigStep::XtalWrite))
                    },
                    Phase::AwaitCorrection => {
                        self.phase = Phase::Closed;
                        SessionStep::Fail(RadioError::HardwareConfig(ConfigStep::FreqCorrection))
                    },
                    Phase::AwaitCenterFreq => {
                        self.phase = Phase::Opened;
                        SessionStep::Fail(RadioError::HardwareConfig(ConfigStep::CenterFreq))
                    },
                    Phase::AwaitSampleRate => {
                        self.phase = Phase::Opened;
                        SessionStep::Fail(RadioError::HardwareConfig(ConfigStep::SampleRate))
                    },
                    _ => {
                        self.phase = Phase::Opened;
                        SessionStep::Fail(RadioError::HardwareConfig(ConfigStep::BufferReset))
                    },
                }
            },
            HwReply::XtalFreq(rtl_clock, tuner_clock) => {
                self.phase = Phase::AwaitXtalWrite;
                SessionStep::Act(HwAction::SetXtalFreq(rtl_clock, tuner_clock))
            },
            HwReply::Done => {
                match self.phase {
                    Phase::AwaitOpen => {
                        self.phase = Phase::AwaitXtalRead;
                        SessionStep::Act(HwAction::GetXtalFreq)
                    },
                    Phase::AwaitXtalWrite => {
                        self.phase = Phase::AwaitCorrection;
                        SessionStep::Act(HwAction::SetFreqCorrection(FREQ_CORRECTION_PPM))
                    },
                    Phase::AwaitCorrection => {
                        self.phase = Phase::Opened;
                        SessionStep::Ready
                    },
                    Phase::AwaitCenterFreq => {
                        self.phase = Phase::AwaitSampleRate;
                        SessionStep::Act(HwAction::SetSampleRate(self.sample_rate))
                    },
                    Phase::AwaitSampleRate => {
                        self.phase = Phase::AwaitReset;
                        SessionStep::Act(HwAction::ResetBuffer)
                    },
                    _ => {
                        self.phase = Phase::Configured;
                        SessionStep::Ready
                    },
                }
            },
        }
    }

    /// Request one buffered read: the whole fixed byte count in one blocking
    /// call. Accepted once configured; the session is streaming from the
    /// first request on.
    pub fn begin_read(&mut self) -> (a: HwAction)
        requires
            old(self).phase == Phase::Configured || old(self).phase == Phase::Streaming,
        ensures
            *final(self) == (TunerSession { phase: Phase::Streaming, ..*old(self) }),
            a == HwAction::ReadSync(old(self).buffer_size),
    {
        self.phase = Phase::Streaming;
        HwAction::ReadSync(self.buffer_size)
    }

    /// Take the outcome of a buffered read and convert it: a full buffer
    /// yields its calibrated complex samples, a failed read yields the read
    /// error unchanged, with no retry and nothing converted.
    pub fn complete_iq_read(&self, data: Option<Vec<u8>>) -> (r: Result<
        Vec<ComplexSample>,
        RadioError,
    >)
        requires
            self.phase == Phase::Streaming,
        ensures
            data matches Some(raw) ==> (r matches Ok(samples) && samples@ == convert_spec(raw@)),
            data is None ==> r == Err::<Vec<ComplexSample>, RadioError>(RadioError::Read),
    {
        match data {
            Some(raw) => Ok(SampleConverter::convert(raw.as_slice())),
            None => Err(RadioError::Read),
        }
    }

    /// The fixed per-read byte count negotiated at construction.
    pub fn get_buffer_size(&self) -> (n: usize)
        ensures
            n == self.buffer_size,
    {
        self.buffer_size
    }

    /// End the session: the handle must be released on every exit path, so
    /// closing is accepted in any phase.
    pub fn close(&mut self) -> (a: HwAction)
        ensures
            *final(self) == (TunerSession { phase: Phase::Closed, ..*old(self) }),
            a == HwAction::Close,
    {
        self.phase = Phase::Closed;
        HwAction::Close
    }
}

/// Law: re-tuning is idempotent. From any opened, configured or streaming
/// session, a successful tune sequence reaches `Configured` with the
/// requested frequency and rate and an unchanged buffer size; running the
/// same sequence again from that point changes nothing.
pub proof fn lemma_tune_idempotent(s: TunerSession, frequency: u32, sample_rate: u32)
    requires
        s.phase == Phase::Opened || s.phase == Phase::Configured || s.phase == Phase::Streaming,
    ensures
        complete_tune(s, frequency, sample_rate) == (TunerSession {
            phase: Phase::Configured,
            buffer_size: s.buffer_size,
            frequency,
            sample_rate,
        }),
        complete_tune(complete_tune(s, frequency, sample_rate), frequency, sample_rate)
            == complete_tune(s, frequency, sample_rate),
{
}

} // verus!
