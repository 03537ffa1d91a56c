//! The rate source of the streaming pipeline: a hardware timer configured as
//! a free-running counter whose auto-reload value divides the system clock
//! down to the target sample rate. On each reload the timer emits a trigger
//! event that downstream peripherals (the DAC) consume.

use vstd::prelude::*;

verus! {

/// System clock of the target board after reset, in Hz.
pub const DEFAULT_SYSCLK_HZ: u32 = 8_000_000;

/// Target audio sample rate, in Hz.
pub const AUDIO_SAMPLE_RATE_HZ: u32 = 44_100;

/// Which hardware timer acts as the rate source.
#[derive(Clone, Copy, Debug, PartialEq, Eq, Structural)]
pub enum RateTimer {
    Tim2,
    Tim6,
}

/// What the timer emits on its trigger output line.
#[derive(Clone, Copy, Debug, PartialEq, Eq, Structural)]
pub enum MasterMode {
    /// No trigger output.
    Disabled,
    /// Emit a trigger event each time the counter reloads.
    UpdateEvent,
}

/// Auto-reload value for a free-running counter clocked at `sysclk_hz`
/// that must complete one period per output sample: the quotient of the
/// clock by the sample rate, rounded toward zero. The truncation means the
/// achieved rate only approximates the target; that rounding is accepted.
pub fn reload_value(sysclk_hz: u32, sample_rate_hz: u32) -> (r: u32)
    requires
        sample_rate_hz > 0,
    ensures
        r == sysclk_hz as int / sample_rate_hz as int,
{
    sysclk_hz / sample_rate_hz
}

/// A validated configuration of the rate-generator timer.
#[derive(Clone, Copy, Debug, PartialEq, Eq, Structural)]
pub struct TimerConfig {
    /// Which timer this configuration is for.
    pub timer: RateTimer,
    /// Auto-reload register value: counter period in clock ticks.
    pub reload: u32,
    /// Trigger-output behaviour.
    pub master_mode: MasterMode,
    /// Counter enabled (free-running) once configuration is applied.
    pub enabled: bool,
}

impl TimerConfig {
    /// A rate generator emitting one trigger event every
    /// `sysclk_hz / sample_rate_hz` clock ticks. A zero sample rate has no
    /// meaningful divisor and is rejected.
    pub fn rate_generator(timer: RateTimer, sysclk_hz: u32, sample_rate_hz: u32) -> (r: Option<TimerConfig>)
        ensures
            r is Some <==> sample_rate_hz > 0,
            r matches Some(c) ==> c == (TimerConfig {
                timer,
                reload: (sysclk_hz as int / sample_rate_hz as int) as u32,
                master_mode: MasterMode::UpdateEvent,
                enabled: true,
            }),
    {
        if sample_rate_hz == 0 {
            return None;
        }
        Some(TimerConfig {
            timer,
            reload: reload_value(sysclk_hz, sample_rate_hz),
            master_mode: MasterMode::UpdateEvent,
            enabled: true,
        })
    }
}

} // verus!
