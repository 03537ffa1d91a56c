//! The streaming output pipeline: timer → converter trigger → DMA request.
//! The three configuration blocks are assembled into one descriptor value
//! and validated against each other before any register is written, so an
//! invalid topology is rejected without touching hardware. Once armed, the
//! chain produces exactly one sample per timer period with no CPU work.

use vstd::prelude::*;
use crate::dac::{trigger_names_timer, DacConfig};
use crate::dma::{DmaConfig, SampleBuffer, TransferDirection, TransferWidth, DMA_BUFFER_LEN};
use crate::errors::ConfigError;
use crate::timer::{MasterMode, RateTimer, TimerConfig};

verus! {

/// Whether the three blocks form a working stream: the timer free-runs and
/// emits a trigger per reload, the converter listens to exactly that timer
/// and raises a DMA request per conversion, and the DMA channel drains the
/// whole buffer circularly at the register's width.
pub open spec fn valid_stream(timer: TimerConfig, dac: DacConfig, dma: DmaConfig) -> bool {
    &&& timer.master_mode == MasterMode::UpdateEvent
    &&& timer.enabled
    &&& dac.trigger_enabled
    &&& dac.channel_enabled
    &&& trigger_names_timer(timer.timer, dac.trigger)
    &&& dac.dma_request_enabled
    &&& dma.transfer_count == DMA_BUFFER_LEN
    &&& dma.memory_width == dma.peripheral_width
    &&& dma.peripheral_width == dac.register_width
    &&& dma.circular
    &&& dma.direction == TransferDirection::MemoryToPeripheral
}

/// A validated descriptor of the whole chain. The outer layer applies it to
/// the hardware in the required order: configure everything, enable the DMA
/// channel, then enable its trigger source.
#[derive(Clone, Copy, Debug, PartialEq, Eq, Structural)]
pub struct StreamPipeline {
    pub timer: TimerConfig,
    pub dac: DacConfig,
    pub dma: DmaConfig,
}

impl StreamPipeline {
    /// Validate the topology. Succeeds exactly on a valid stream; each
    /// failure names the first broken requirement, and nothing is silently
    /// corrected or truncated.
    pub fn assemble(timer: TimerConfig, dac: DacConfig, dma: DmaConfig) -> (r: Result<
        StreamPipeline,
        ConfigError,
    >)
        ensures
            r is Ok <==> valid_stream(timer, dac, dma),
            r matches Ok(p) ==> p == (StreamPipeline { timer, dac, dma }),
            r matches Err(e) ==> (e == ConfigError::NoTriggerOutput ==> timer.master_mode
                != MasterMode::UpdateEvent || !timer.enabled),
            r matches Err(e) ==> (e == ConfigError::TriggerDisabled ==> !dac.trigger_enabled
                || !dac.channel_enabled),
            r matches Err(e) ==> (e == ConfigError::TriggerMismatch ==> !trigger_names_timer(
                timer.timer,
                dac.trigger,
            )),
            r matches Err(e) ==> (e == ConfigError::DmaRequestDisabled
                ==> !dac.dma_request_enabled),
            r matches Err(e) ==> (e == ConfigError::TransferCountMismatch ==> dma.transfer_count
                != DMA_BUFFER_LEN),
            r matches Err(e) ==> (e == ConfigError::WidthMismatch ==> dma.memory_width
                != dma.peripheral_width || dma.peripheral_width != dac.register_width),
            r matches Err(e) ==> (e == ConfigError::NotCircular ==> !dma.circular
                || dma.direction != TransferDirection::MemoryToPeripheral),
    {
        if !(matches!(timer.master_mode, MasterMode::UpdateEvent) && timer.enabled) {
            return Err(ConfigError::NoTriggerOutput);
        }
        if !(dac.trigger_enabled && dac.channel_enabled) {
            return Err(ConfigError::TriggerDisabled);
        }
        let names_timer = match (timer.timer, dac.trigger) {
            (RateTimer::Tim2, crate::dac::DacTrigger::Tim2Trgo) => true,
            (RateTimer::Tim6, crate::dac::DacTrigger::Tim6Trgo) => true,
            _ => false,
        };
        if !names_timer {
            return Err(ConfigError::TriggerMismatch);
        }
        if !dac.dma_request_enabled {
            return Err(ConfigError::DmaRequestDisabled);
        }
        if dma.transfer_count as usize != DMA_BUFFER_LEN {
            return Err(ConfigError::TransferCountMismatch);
        }
        if !(dma.memory_width == dma.peripheral_width && dma.peripheral_width
            == dac.register_width) {
            return Err(ConfigError::WidthMismatch);
        }
        if !(dma.circular && matches!(dma.direction, TransferDirection::MemoryToPeripheral)) {
            return Err(ConfigError::NotCircular);
        }
        Ok(StreamPipeline { timer, dac, dma })
    }

    /// Build and validate the whole chain from plain inputs: the rate
    /// timer, the clock and target sample rate, and the sample buffer.
    /// Succeeds exactly when the sample rate is nonzero, and then the
    /// reload value is the truncated quotient of clock by rate and the
    /// transfer count is the buffer's declared length.
    pub fn configure(
        timer: RateTimer,
        sysclk_hz: u32,
        sample_rate_hz: u32,
        buffer: &SampleBuffer,
    ) -> (r: Result<StreamPipeline, ConfigError>)
        requires
            buffer.wf(),
        ensures
            r is Ok <==> sample_rate_hz > 0,
            r matches Ok(p) ==> valid_stream(p.timer, p.dac, p.dma) && p.timer.timer == timer
                && p.timer.reload == sysclk_hz as int / sample_rate_hz as int
                && p.dma.transfer_count == DMA_BUFFER_LEN && p.dac.output_buffer_enabled,
            r is Err ==> r == Result::<StreamPipeline, ConfigError>::Err(
                ConfigError::ZeroSampleRate,
            ),
    {
        let timer_config = match TimerConfig::rate_generator(timer, sysclk_hz, sample_rate_hz) {
            Some(c) => c,
            None => {
                return Err(ConfigError::ZeroSampleRate);
            },
        };
        let dac_config = DacConfig::streaming(timer);
        let count = buffer.transfer_count();
        let dma_config = match DmaConfig::for_buffer(buffer, count, TransferWidth::Bits32) {
            Ok(c) => c,
            Err(_) => vstd::pervasive::unreached(),
        };
        match StreamPipeline::assemble(timer_config, dac_config, dma_config) {
            Ok(p) => Ok(p),
            Err(_) => vstd::pervasive::unreached(),
        }
    }
}

/// Chained blocks only validate together: a valid stream's converter is
/// triggered by the rate timer itself, and its DMA channel moves exactly
/// one buffer's worth of samples per cycle at matching widths.
pub proof fn lemma_valid_stream_chain(timer: TimerConfig, dac: DacConfig, dma: DmaConfig)
    requires
        valid_stream(timer, dac, dma),
    ensures
        trigger_names_timer(timer.timer, dac.trigger),
        dma.transfer_count == DMA_BUFFER_LEN,
        dma.memory_width == dac.register_width,
{
}

} // verus!
