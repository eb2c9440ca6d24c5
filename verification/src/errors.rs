use vstd::prelude::*;

verus! {

/// The hardware-configuration step at which a tune or open sequence failed.
#[derive(Clone, Copy, Debug, PartialEq, Eq, Structural)]
pub enum ConfigStep {
    /// Reading the current crystal frequencies.
    XtalRead,
    /// Writing the crystal frequencies back.
    XtalWrite,
    /// Applying the frequency correction (ppm).
    FreqCorrection,
    /// Setting the center frequency.
    CenterFreq,
    /// Setting the sample rate.
    SampleRate,
    /// Resetting the tuner's internal buffer.
    BufferReset,
}

/// Error taxonomy of the capture pipeline. Every error is terminal at the
/// point of occurrence: the pipeline surfaces it and stops, with no retry
/// and no partial recovery.
#[derive(Clone, Copy, Debug, PartialEq, Eq, Structural)]
pub enum RadioError {
    /// No tuner present, or opening the device failed.
    DeviceUnavailable,
    /// A tune, configure or reset step failed; carries which step.
    HardwareConfig(ConfigStep),
    /// A buffered read from the device failed.
    Read,
    /// Emission to the output sink failed.
    Io,
}

} // verus!
