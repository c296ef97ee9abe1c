use signal_analyser::analog::{AnalogSampler, SamplerReadings};

fn readings(pa0_mv: u32, pa1_mv: u32, sample_count: u32) -> SamplerReadings {
    SamplerReadings { pa0_mv, pa1_mv, sample_count }
}

#[test]
fn new_sampler_is_zero() {
    assert_eq!(AnalogSampler::new().readings(), readings(0, 0, 0));
}

#[test]
fn counts_to_mv_values() {
    assert_eq!(AnalogSampler::counts_to_mv(0), 0);
    assert_eq!(AnalogSampler::counts_to_mv(4095), 3300);
    assert_eq!(AnalogSampler::counts_to_mv(2048), 1650);
    assert_eq!(AnalogSampler::counts_to_mv(1), 0);
    assert_eq!(AnalogSampler::counts_to_mv(2), 1);
    assert_eq!(AnalogSampler::counts_to_mv(65535), 52812);
}

#[test]
fn counts_to_mv_is_monotone() {
    let mut prev = 0;
    for c in 0..=4095u32 {
        let mv = AnalogSampler::counts_to_mv(c);
        assert!(mv >= prev);
        assert!(mv <= 3300);
        prev = mv;
    }
}

#[test]
fn fewer_than_two_samples_change_nothing() {
    let mut s = AnalogSampler::new();
    s.update_analog(&[4095, 4095], 2);
    let before = s.readings();
    s.update_analog(&[100], 1);
    assert_eq!(s.readings(), before);
    s.update_analog(&[], 0);
    assert_eq!(s.readings(), before);
}

#[test]
fn channels_are_interleaved() {
    let mut s = AnalogSampler::new();
    s.update_analog(&[4095, 0, 4095, 0], 4);
    assert_eq!(s.readings(), readings(3300, 0, 4));
    s.update_analog(&[0, 4095, 0, 4095, 0, 4095], 6);
    assert_eq!(s.readings(), readings(0, 3300, 10));
}

#[test]
fn averages_over_half_the_count() {
    let mut s = AnalogSampler::new();
    // PA0: (1000 + 3000) / 2 = 2000 -> 1611 mV; PA1: (10 + 30) / 2 = 20 -> 16 mV
    s.update_analog(&[1000, 10, 3000, 30], 4);
    assert_eq!(s.readings(), readings(1611, 16, 4));
}

#[test]
fn only_the_first_count_samples_are_used() {
    let mut s = AnalogSampler::new();
    s.update_analog(&[2000, 4000, 9, 9, 9, 9], 2);
    assert_eq!(s.readings(), readings(1611, 3223, 2));
}

#[test]
fn odd_count_divides_by_half_rounded_down() {
    let mut s = AnalogSampler::new();
    // PA0 takes positions 0 and 2 but divides by 3 / 2 = 1.
    s.update_analog(&[100, 7, 100], 3);
    assert_eq!(s.readings(), readings(161, 5, 3));
}

#[test]
fn constant_signal_reads_back() {
    for v in [0u16, 1, 1234, 4095, 65535] {
        let buf = vec![v; 2048];
        let mut s = AnalogSampler::new();
        s.update_analog(&buf, 2048);
        let mv = AnalogSampler::counts_to_mv(v as u32);
        assert_eq!(s.readings(), readings(mv, mv, 2048));
    }
}

#[test]
fn sample_count_accumulates() {
    let mut s = AnalogSampler::new();
    let buf = vec![10u16; 2048];
    for k in 1..=5u32 {
        s.update_analog(&buf, 2048);
        assert_eq!(s.readings().sample_count, 2048 * k);
    }
}

#[test]
fn process_read_clamps_to_the_buffer() {
    let mut s = AnalogSampler::new();
    let buf = [4095u16, 0, 4095, 0];
    assert!(s.process_read(&buf, 100));
    assert_eq!(s.readings(), readings(3300, 0, 4));
}

#[test]
fn process_read_skips_empty_reads() {
    let mut s = AnalogSampler::new();
    let buf = [4095u16, 0, 4095, 0];
    assert!(!s.process_read(&buf, 0));
    assert_eq!(s.readings(), readings(0, 0, 0));
    assert!(s.process_read(&buf, 1));
    assert_eq!(s.readings(), readings(0, 0, 0));
    assert!(!s.process_read(&[], 7));
}

#[test]
fn process_read_takes_exactly_n() {
    let mut s = AnalogSampler::new();
    let buf = [2000u16, 4000, 9, 9];
    assert!(s.process_read(&buf, 2));
    assert_eq!(s.readings(), readings(1611, 3223, 2));
}
