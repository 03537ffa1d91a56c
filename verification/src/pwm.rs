//! The duty-cycle output: an independently clocked waveform generator
//! configured once with a count resolution and a frequency. The duty value
//! is a fraction of the resolution and may be set at startup or rewritten
//! later; no interrupt handler touches this channel, so the write needs no
//! critical section. There is no state beyond enabled/disabled.

use vstd::prelude::*;
use crate::errors::ConfigError;

verus! {

/// One waveform-generator channel. The invariant that the duty value never
/// exceeds the resolution is kept by construction.
pub struct PwmChannel {
    resolution: u16,
    frequency_hz: u32,
    duty: u16,
    enabled: bool,
}

impl PwmChannel {
    /// The count range of one period.
    pub closed spec fn resolution_spec(&self) -> u16 {
        self.resolution
    }

    pub closed spec fn frequency_spec(&self) -> u32 {
        self.frequency_hz
    }

    /// The compare value: counts per period during which the output is
    /// active.
    pub closed spec fn duty_spec(&self) -> u16 {
        self.duty
    }

    pub closed spec fn enabled_spec(&self) -> bool {
        self.enabled
    }

    pub open spec fn wf(&self) -> bool {
        self.duty_spec() <= self.resolution_spec()
    }

    /// A disabled channel with the given resolution and frequency and a
    /// duty of zero.
    pub fn new(resolution: u16, frequency_hz: u32) -> (r: PwmChannel)
        ensures
            r.resolution_spec() == resolution,
            r.frequency_spec() == frequency_hz,
            r.duty_spec() == 0,
            !r.enabled_spec(),
            r.wf(),
    {
        PwmChannel { resolution, frequency_hz, duty: 0, enabled: false }
    }

    pub fn get_max_duty(&self) -> (r: u16)
        ensures
            r == self.resolution_spec(),
    {
        self.resolution
    }

    pub fn get_frequency(&self) -> (r: u32)
        ensures
            r == self.frequency_spec(),
    {
        self.frequency_hz
    }

    pub fn get_duty(&self) -> (r: u16)
        ensures
            r == self.duty_spec(),
    {
        self.duty
    }

    pub fn is_enabled(&self) -> (r: bool)
        ensures
            r == self.enabled_spec(),
    {
        self.enabled
    }

    /// Write a new compare value. A value beyond the resolution names a
    /// duty fraction above one and is rejected with the channel untouched.
    pub fn set_duty(&mut self, duty: u16) -> (r: Result<(), ConfigError>)
        ensures
            r is Ok <==> duty <= old(self).resolution_spec(),
            r is Ok ==> final(self).duty_spec() == duty
                && final(self).resolution_spec() == old(self).resolution_spec()
                && final(self).frequency_spec() == old(self).frequency_spec()
                && final(self).enabled_spec() == old(self).enabled_spec()
                && final(self).wf(),
            r is Err ==> *final(self) == *old(self) && r == Result::<(), ConfigError>::Err(
                ConfigError::DutyOutOfRange,
            ),
    {
        if duty > self.resolution {
            return Err(ConfigError::DutyOutOfRange);
        }
        self.duty = duty;
        Ok(())
    }

    /// Half of the count range, the value for a nominal 50% duty cycle.
    pub fn half_duty(&self) -> (r: u16)
        ensures
            r == self.resolution_spec() / 2,
    {
        self.resolution / 2
    }

    pub fn enable(&mut self)
        ensures
            final(self).enabled_spec(),
            final(self).resolution_spec() == old(self).resolution_spec(),
            final(self).frequency_spec() == old(self).frequency_spec(),
            final(self).duty_spec() == old(self).duty_spec(),
    {
        self.enabled = true;
    }

    pub fn disable(&mut self)
        ensures
            !final(self).enabled_spec(),
            final(self).resolution_spec() == old(self).resolution_spec(),
            final(self).frequency_spec() == old(self).frequency_spec(),
            final(self).duty_spec() == old(self).duty_spec(),
    {
        self.enabled = false;
    }
}

/// Setting the duty to half of the count range puts the active portion of
/// each period within one count of exactly 50%: twice the active count
/// never exceeds the period and falls short of it by at most one count.
pub proof fn lemma_half_duty_within_one_count(resolution: u16)
    ensures
        2 * ((resolution / 2) as int) <= resolution as int,
        resolution as int - 2 * ((resolution / 2) as int) <= 1,
{
}

} // verus!
