//! Error taxonomy. Every variant here is a fatal configuration or ordering
//! fault: the firmware's outer layer halts on any of them rather than
//! continuing with undefined hardware state.

use vstd::prelude::*;

verus! {

/// Faults of the shared-handle protocol.
#[derive(Clone, Copy, Debug, PartialEq, Eq, Structural)]
pub enum CellError {
    /// A handle was used before the startup context installed it.
    NotInstalled,
}

/// Faults detected while validating the streaming pipeline or the
/// duty-cycle output, before any register is touched.
#[derive(Clone, Copy, Debug, PartialEq, Eq, Structural)]
pub enum ConfigError {
    /// The target sample rate is zero: no divisor exists.
    ZeroSampleRate,
    /// The rate timer does not emit a trigger event on reload.
    NoTriggerOutput,
    /// The converter does not listen to an external trigger.
    TriggerDisabled,
    /// The converter's trigger selection does not name the rate timer.
    TriggerMismatch,
    /// The converter does not raise a DMA request per conversion.
    DmaRequestDisabled,
    /// The DMA transfer count differs from the sample buffer's length.
    TransferCountMismatch,
    /// Source sample width and destination register width differ.
    WidthMismatch,
    /// The DMA channel does not wrap around at the end of the buffer.
    NotCircular,
    /// The requested duty value exceeds the configured resolution.
    DutyOutOfRange,
}

} // verus!
