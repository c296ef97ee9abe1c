//! Verified core of a mixed signal analyser for the STM32F401RE.
//!
//! - `health_status`: the boot self-test verdicts and the lines that report them;
//! - `health`: the self-test judgements and the order the board runs them in;
//! - `boot_image`: the bootloader's check of an application's vector table;
//! - `mpu`: the memory protection unit's region plan and register writes;
//! - `mpu_state`: the MPU's registers and access checks, and what the set-up leaves them in;
//! - `analog`: averaging of the interleaved two-channel ADC buffer into millivolts;
//! - `digital`: the PWM test signal's frequency and per-channel duty cycles;
//! - `board_report`: the host's reading of what the board reports.

pub mod analog;
pub mod board_report;
pub mod boot_image;
pub mod digital;
pub mod health;
pub mod health_status;
pub mod mpu;
pub mod mpu_state;
