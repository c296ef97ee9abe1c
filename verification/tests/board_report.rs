use signal_analyser::board_report::{board_poll, contains_bytes, BoardPoll, FAIL_MSG, READY_MSG};
use signal_analyser::health_status::{HealthError, HealthStatus};

#[test]
fn contains_bytes_cases() {
    assert!(contains_bytes(b"abcdef", b"cde"));
    assert!(contains_bytes(b"abcdef", b"abcdef"));
    assert!(contains_bytes(b"abcdef", b""));
    assert!(contains_bytes(b"", b""));
    assert!(!contains_bytes(b"abcdef", b"abcdefg"));
    assert!(!contains_bytes(b"abcdef", b"ace"));
    assert!(contains_bytes(b"aaab", b"aab"));
    assert!(!contains_bytes(b"", b"a"));
}

#[test]
fn ready_message_means_ready() {
    assert_eq!(board_poll(0, "READY:adc,tim,clk"), BoardPoll::Ready);
    assert_eq!(board_poll(1_000_000, "boot\nREADY:adc,tim,clk\n"), BoardPoll::Ready);
    assert_eq!(READY_MSG, "READY:adc,tim,clk");
}

#[test]
fn fail_message_means_failed() {
    assert_eq!(board_poll(0, "FAIL:ram\n"), BoardPoll::Failed);
    assert_eq!(FAIL_MSG, "FAIL:");
}

#[test]
fn ready_wins_over_fail() {
    assert_eq!(board_poll(0, "FAIL:x READY:adc,tim,clk"), BoardPoll::Ready);
}

#[test]
fn nothing_yet_means_waiting() {
    assert_eq!(board_poll(0, ""), BoardPoll::Waiting);
    assert_eq!(board_poll(0, "READY:adc,tim"), BoardPoll::Waiting);
    assert_eq!(board_poll(0, "FAIL"), BoardPoll::Waiting);
}

#[test]
fn board_ready_line_is_not_the_host_ready_message() {
    assert_eq!(board_poll(0, HealthStatus::Ready.as_str()), BoardPoll::Waiting);
}

#[test]
fn timeout_after_two_seconds() {
    assert_eq!(board_poll(2_000_000_000, "READY:adc,tim,clk"), BoardPoll::Ready);
    assert_eq!(board_poll(2_000_000_001, "READY:adc,tim,clk"), BoardPoll::TimedOut);
    assert_eq!(board_poll(5_000_000_000, ""), BoardPoll::TimedOut);
}

#[test]
fn every_failure_report_is_detected() {
    let errors = [
        HealthError::StackCanary,
        HealthError::RamTest,
        HealthError::FlashCRC,
        HealthError::TimerNotTicking,
        HealthError::ClockOutOfRange,
        HealthError::AdcCalibration,
        HealthError::I2cInitFailed,
        HealthError::SpiInitFailed,
        HealthError::UartInitFailed,
        HealthError::DmaInitFailed,
    ];
    for e in errors {
        assert_eq!(board_poll(0, HealthStatus::Fail(e).as_str()), BoardPoll::Failed);
    }
}

#[test]
fn non_ascii_text_is_searched_by_bytes() {
    assert_eq!(board_poll(0, "\u{fffd}\u{fffd}FAIL:adc\n"), BoardPoll::Failed);
    assert_eq!(board_poll(0, "é READY:adc,tim,clk"), BoardPoll::Ready);
}
