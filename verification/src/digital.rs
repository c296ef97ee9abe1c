use vstd::prelude::*;

verus! {

/// PWM output frequency of the test signal, in kHz.
pub const CLOCK_SPEED: u32 = 10;

/// A PWM signal: its frequency and duty cycle.
#[derive(Debug, PartialEq, Eq, Structural, Clone, Copy)]
pub struct PwmSignal {
    pub frequency_hz: u32,
    pub duty_cycle_pct: u32,
}

/// The four TIM1 output channels of the PWM test signal.
#[derive(Debug, PartialEq, Eq, Structural, Clone, Copy)]
pub enum PwmChannel {
    /// PA8.
    Ch1,
    /// PA9.
    Ch2,
    /// PA10.
    Ch3,
    /// PA11.
    Ch4,
}

/// The duty cycle, in percent, each output channel is driven at.
pub open spec fn planned_duty(channel: PwmChannel) -> u32 {
    match channel {
        PwmChannel::Ch1 => 25,
        PwmChannel::Ch2 => 50,
        PwmChannel::Ch3 => 75,
        PwmChannel::Ch4 => 10,
    }
}

/// The duty cycle of an output channel: 25 %, 50 %, 75 % and 10 % on
/// channels 1 to 4.
pub fn duty_percent(channel: PwmChannel) -> (r: u32)
    ensures
        r == planned_duty(channel),
        r <= 100,
{
    match channel {
        PwmChannel::Ch1 => 25,
        PwmChannel::Ch2 => 50,
        PwmChannel::Ch3 => 75,
        PwmChannel::Ch4 => 10,
    }
}

} // verus!
