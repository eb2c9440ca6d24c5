use vstd::prelude::*;

verus! {

use crate::errors::RadioError;
use crate::sample::{convert_spec, ComplexSample, SampleConverter};

/// How long an acquisition run may last: a non-negative seconds count, or
/// indefinite (requested with a negative sentinel), in which case only a
/// hardware error ends the run.
#[derive(Clone, Copy, Debug, PartialEq, Eq, Structural)]
pub enum RunDurationBudget {
    /// Run until a fatal hardware error; duration accounting never ends it.
    Indefinite,
    /// Run for this many seconds' worth of samples, rounded down to whole
    /// buffers.
    Bounded(u32),
}

/// Classify a signed seconds count: negative means indefinite.
pub fn budget_from_seconds(seconds: i32) -> (b: RunDurationBudget)
    ensures
        seconds < 0 ==> b == RunDurationBudget::Indefinite,
        seconds >= 0 ==> b == RunDurationBudget::Bounded(seconds as u32),
{
    if seconds < 0 {
        RunDurationBudget::Indefinite
    } else {
        RunDurationBudget::Bounded(seconds as u32)
    }
}

/// The buffer count a bounded run targets:
/// `floor(sample_rate * seconds / samples_per_buffer)`, so that the run's
/// total sample count under- or overshoots the nominal duration by at most
/// one buffer width. An indefinite budget has no target.
pub open spec fn iteration_target(
    budget: RunDurationBudget,
    sample_rate: u32,
    samples_per_buffer: int,
) -> Option<u64> {
    match budget {
        RunDurationBudget::Indefinite => None,
        RunDurationBudget::Bounded(seconds) => Some(
            ((sample_rate * seconds) / samples_per_buffer) as u64,
        ),
    }
}

/// Compute the buffer count a budget targets, once, at run start.
pub fn target_iterations(
    budget: RunDurationBudget,
    sample_rate: u32,
    samples_per_buffer: u64,
) -> (t: Option<u64>)
    requires
        samples_per_buffer > 0,
    ensures
        t == iteration_target(budget, sample_rate, samples_per_buffer as int),
{
    match budget {
        RunDurationBudget::Indefinite => None,
        RunDurationBudget::Bounded(seconds) => {
            proof {
                assert((sample_rate as int) * (seconds as int) < 0x1_0000_0000_0000_0000)
                    by (nonlinear_arith)
                    requires
                        sample_rate < 0x1_0000_0000,
                        seconds < 0x1_0000_0000,
                ;
            }
            let total: u64 = (sample_rate as u64) * (seconds as u64);
            Some(total / samples_per_buffer)
        },
    }
}

/// Drives the read-convert-emit cycle buffer by buffer: counts emitted
/// buffers against the target computed once at start, and stops the run on
/// the first read failure. The blocking reads, the discriminator and the
/// sink live outside; they feed events in and carry the outputs away.
#[derive(Clone, Copy, Debug, PartialEq, Eq, Structural)]
pub struct AcquisitionLoop {
    /// Buffers emitted so far.
    pub iteration: u64,
    /// Buffer count at which a bounded run ends; none in unbounded mode.
    pub target: Option<u64>,
    /// Whether buffers are demodulated before emission (one float per
    /// sample) or emitted as raw complex pairs (two floats per sample).
    pub demod_enabled: bool,
    /// Whether a read failure ended the run.
    pub aborted: bool,
}

/// Whether the run goes on: it has not aborted, and either it has no target
/// or the target is not yet reached.
pub open spec fn continues(lp: AcquisitionLoop) -> bool {
    !lp.aborted && match lp.target {
        None => true,
        Some(t) => lp.iteration < t,
    }
}

/// What the loop produced from one event: a converted buffer bound for the
/// discriminator, a converted buffer bound directly for the sink, or the
/// error that ends the run.
#[derive(Clone, Debug, PartialEq, Eq)]
pub enum LoopOutput {
    /// Demodulate these samples, then emit the result, four bytes per
    /// demodulated sample.
    Demodulate(Vec<ComplexSample>),
    /// Emit these samples as interleaved component pairs, eight bytes per
    /// sample.
    EmitIq(Vec<ComplexSample>),
    /// The run is over; nothing is emitted for this event.
    Abort(RadioError),
}

/// What one cycle of the run observed: a whole buffer read from the device,
/// or a failure of the read or of the emission that followed one.
#[derive(Clone, Debug, PartialEq, Eq)]
pub enum LoopEvent {
    /// One whole raw buffer.
    Buffer(Vec<u8>),
    /// The read failed; no bytes were produced.
    ReadFailed,
    /// The sink refused the bytes of the buffer just emitted.
    SinkFailed,
}

impl AcquisitionLoop {
    /// Set up a run: the iteration target is computed here, once, by integer
    /// division of the budgeted sample count by the per-buffer sample count
    /// (two raw bytes per complex sample), and never recomputed mid-run.
    pub fn new(
        budget: RunDurationBudget,
        sample_rate: u32,
        buffer_size_bytes: usize,
        demod_enabled: bool,
    ) -> (lp: AcquisitionLoop)
        requires
            buffer_size_bytes >= 2,
        ensures
            lp.iteration == 0,
            !lp.aborted,
            lp.demod_enabled == demod_enabled,
            lp.target == iteration_target(budget, sample_rate, buffer_size_bytes as int / 2),
    {
        let samples_per_buffer: u64 = (buffer_size_bytes / 2) as u64;
        let target = target_iterations(budget, sample_rate, samples_per_buffer);
        AcquisitionLoop { iteration: 0, target, demod_enabled, aborted: false }
    }

    /// Whether the run goes on. In bounded mode the target ends it; in
    /// unbounded mode only an abort does.
    pub fn should_continue(&self) -> (c: bool)
        ensures
            c == continues(*self),
    {
        if self.aborted {
            return false;
        }
        match self.target {
            None => true,
            Some(t) => self.iteration < t,
        }
    }

    /// Take what one cycle observed and decide the run's next move. A whole
    /// buffer is converted and bound for the sink — through the
    /// discriminator when demodulation is enabled, as raw complex pairs
    /// otherwise — and counts one iteration. A read failure aborts the run
    /// at once: nothing is emitted for it, not a partial buffer, and the
    /// run no longer continues. A sink failure likewise ends the run, with
    /// the emission error.
    pub fn step(&mut self, event: LoopEvent) -> (out: LoopOutput)
        requires
            continues(*old(self)),
            old(self).iteration < u64::MAX,
        ensures
            event matches LoopEvent::Buffer(raw) ==> ({
                &&& *final(self) == (AcquisitionLoop {
                    iteration: (old(self).iteration + 1) as u64,
                    ..*old(self)
                })
                &&& old(self).demod_enabled ==> (out matches LoopOutput::Demodulate(s)
                    && s@ == convert_spec(raw@))
                &&& !old(self).demod_enabled ==> (out matches LoopOutput::EmitIq(s)
                    && s@ == convert_spec(raw@))
            }),
            event is ReadFailed ==> ({
                &&& *final(self) == (AcquisitionLoop { aborted: true, ..*old(self) })
                &&& out == LoopOutput::Abort(RadioError::Read)
                &&& !continues(*final(self))
            }),
            event is SinkFailed ==> ({
                &&& *final(self) == (AcquisitionLoop { aborted: true, ..*old(self) })
                &&& out == LoopOutput::Abort(RadioError::Io)
                &&& !continues(*final(self))
            }),
    {
        match event {
            LoopEvent::Buffer(raw) => {
                let samples = SampleConverter::convert(raw.as_slice());
                self.iteration = self.iteration + 1;
                if self.demod_enabled {
                    LoopOutput::Demodulate(samples)
                } else {
                    LoopOutput::EmitIq(samples)
                }
            },
            LoopEvent::ReadFailed => {
                self.aborted = true;
                LoopOutput::Abort(RadioError::Read)
            },
            LoopEvent::SinkFailed => {
                self.aborted = true;
                LoopOutput::Abort(RadioError::Io)
            },
        }
    }
}

/// Law: in unbounded mode, duration accounting alone never ends the run.
/// A loop state with no target that has not aborted continues, whatever its
/// iteration count; only an abort (a hardware failure) ends it.
pub proof fn lemma_unbounded_never_exhausts(lp: AcquisitionLoop)
    requires
        lp.target is None,
        !lp.aborted,
    ensures
        continues(lp),
{
}

} // verus!
