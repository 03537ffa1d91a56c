//! The startup context's decisions, composed in the required order: build
//! and validate every configuration value, fill the sample buffer, hand the
//! shared handles to the critical-section cells, and only then produce the
//! token that permits unmasking the interrupt line. The outer layer applies
//! the resulting values to the hardware; nothing here touches a register.

use vstd::prelude::*;
use crate::dma::{SampleBuffer, DMA_BUFFER_LEN};
use crate::gpio::{OutputPin, TriggerInput};
use crate::pipeline::{valid_stream, StreamPipeline};
use crate::pwm::PwmChannel;
use crate::service::{ArmToken, SharedResources};
use crate::timer::{RateTimer, AUDIO_SAMPLE_RATE_HZ, DEFAULT_SYSCLK_HZ};

verus! {

/// Count range of the duty-cycle output.
pub const PWM_RESOLUTION: u16 = 9000;

/// Period frequency of the duty-cycle output, in Hz.
pub const PWM_FREQUENCY_HZ: u32 = 50;

/// Everything the startup context decides before the outer layer writes a
/// single register.
pub struct SystemInit {
    /// The cells now owning the output and trigger handles.
    pub resources: SharedResources,
    /// Consumed by the outer layer's unmask step; obtainable only once the
    /// handles are installed.
    pub arm: ArmToken,
    /// The validated timer → converter → DMA chain.
    pub pipeline: StreamPipeline,
    /// The duty-cycle channel, enabled at half duty.
    pub pwm: PwmChannel,
    /// The zero-filled circular sample store.
    pub buffer: SampleBuffer,
}

/// Decide the whole startup configuration from the two power-on handles.
/// Every constant involved is statically valid, so this cannot fail: the
/// stream is a valid chain clocked for the audio rate, the duty-cycle
/// output runs at half its range, both handles end up installed, and the
/// arm token exists only because they are.
pub fn initialize(led: OutputPin, button: TriggerInput) -> (r: SystemInit)
    ensures
        r.resources.led.contents() == Some(led),
        r.resources.button.contents() == Some(button),
        valid_stream(r.pipeline.timer, r.pipeline.dac, r.pipeline.dma),
        r.pipeline.timer.timer == RateTimer::Tim2,
        r.pipeline.timer.reload == DEFAULT_SYSCLK_HZ as int / AUDIO_SAMPLE_RATE_HZ as int,
        r.pipeline.dma.transfer_count == DMA_BUFFER_LEN,
        r.pwm.resolution_spec() == PWM_RESOLUTION,
        r.pwm.frequency_spec() == PWM_FREQUENCY_HZ,
        r.pwm.duty_spec() == PWM_RESOLUTION / 2,
        r.pwm.enabled_spec(),
        r.buffer.wf(),
{
    let buffer = SampleBuffer::new();
    let pipeline = match StreamPipeline::configure(
        RateTimer::Tim2,
        DEFAULT_SYSCLK_HZ,
        AUDIO_SAMPLE_RATE_HZ,
        &buffer,
    ) {
        Ok(p) => p,
        Err(_) => vstd::pervasive::unreached(),
    };
    let mut pwm = PwmChannel::new(PWM_RESOLUTION, PWM_FREQUENCY_HZ);
    let half = pwm.half_duty();
    match pwm.set_duty(half) {
        Ok(_) => {},
        Err(_) => vstd::pervasive::unreached(),
    }
    pwm.enable();
    let mut resources = SharedResources::new();
    let arm = resources.install_all(led, button);
    SystemInit { resources, arm, pipeline, pwm, buffer }
}

} // verus!
