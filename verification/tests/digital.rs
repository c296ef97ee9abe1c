use signal_analyser::digital::{duty_percent, PwmChannel, PwmSignal, CLOCK_SPEED};

#[test]
fn pwm_signal_holds_its_fields() {
    let s = PwmSignal { frequency_hz: 10_000, duty_cycle_pct: 50 };
    assert_eq!(s.frequency_hz, CLOCK_SPEED * 1000);
    assert_eq!(s.duty_cycle_pct, 50);
}



#[test]
fn channel_duty_cycles() {
    assert_eq!(duty_percent(PwmChannel::Ch1), 25);
    assert_eq!(duty_percent(PwmChannel::Ch2), 50);
    assert_eq!(duty_percent(PwmChannel::Ch3), 75);
    assert_eq!(duty_percent(PwmChannel::Ch4), 10);
}
