//! Configuration of the analog-output (DAC) channel used by the streaming
//! pipeline: conversions are started by the rate timer's trigger event, not
//! by software, and each conversion raises a DMA request, so no code writes
//! the data register during streaming.

use vstd::prelude::*;
use crate::dma::TransferWidth;
use crate::timer::RateTimer;

verus! {

/// The converter's trigger selection.
#[derive(Clone, Copy, Debug, PartialEq, Eq, Structural)]
pub enum DacTrigger {
    /// Conversions started by register write only.
    Software,
    /// Trigger output of timer 2.
    Tim2Trgo,
    /// Trigger output of timer 6.
    Tim6Trgo,
}

/// Whether a trigger selection names a given rate timer. This is the fixed
/// wire-level binding between the two configuration blocks.
pub open spec fn trigger_names_timer(timer: RateTimer, trigger: DacTrigger) -> bool {
    match (timer, trigger) {
        (RateTimer::Tim2, DacTrigger::Tim2Trgo) => true,
        (RateTimer::Tim6, DacTrigger::Tim6Trgo) => true,
        _ => false,
    }
}

/// The trigger selection that names a rate timer.
pub fn trigger_for_timer(timer: RateTimer) -> (r: DacTrigger)
    ensures
        trigger_names_timer(timer, r),
{
    match timer {
        RateTimer::Tim2 => DacTrigger::Tim2Trgo,
        RateTimer::Tim6 => DacTrigger::Tim6Trgo,
    }
}

/// A configuration of one converter channel.
#[derive(Clone, Copy, Debug, PartialEq, Eq, Structural)]
pub struct DacConfig {
    /// Output buffer amplifier on.
    pub output_buffer_enabled: bool,
    /// Start conversions on the selected trigger instead of on data write.
    pub trigger_enabled: bool,
    pub trigger: DacTrigger,
    /// Raise a DMA request on each conversion.
    pub dma_request_enabled: bool,
    /// Width of the data-holding register as a DMA destination.
    pub register_width: TransferWidth,
    pub channel_enabled: bool,
}

impl DacConfig {
    /// The streaming configuration: externally triggered by the given
    /// timer's trigger output, one DMA request per conversion, output
    /// buffer on, channel enabled.
    pub fn streaming(timer: RateTimer) -> (r: DacConfig)
        ensures
            r.trigger_enabled,
            trigger_names_timer(timer, r.trigger),
            r.dma_request_enabled,
            r.output_buffer_enabled,
            r.register_width == TransferWidth::Bits32,
            r.channel_enabled,
    {
        DacConfig {
            output_buffer_enabled: true,
            trigger_enabled: true,
            trigger: trigger_for_timer(timer),
            dma_request_enabled: true,
            register_width: TransferWidth::Bits32,
            channel_enabled: true,
        }
    }
}

} // verus!
