use vstd::prelude::*;
use crate::health_status::{HealthError, HealthStatus};

verus! {

/// The value the stack canary check writes and expects to read back.
pub const CANARY_VALUE: u32 = 0xDEAD_BEEF;

/// The pattern the RAM check writes into each test word.
pub const RAM_PATTERN: u32 = 0xFEED_FACE;

/// The number of SRAM words the RAM check tests.
pub const RAM_TEST_SIZE: usize = 16;

/// The address of the first SRAM word the RAM check tests.
pub const RAM_TEST_BASE: u32 = 0x2000_4000;

/// The address of the stack canary word.
pub const CANARY_ADDRESS: u32 = 0x2000_1000;

/// The clock frequencies the clock check looks at, in Hz; a clock the RCC
/// does not report is 0.
#[derive(Debug, PartialEq, Eq, Structural, Clone, Copy)]
pub struct ClockFrequencies {
    pub sys_hz: u32,
    pub pclk1_tim_hz: u32,
    pub pclk1_hz: u32,
    pub hclk1_hz: u32,
}

/// The verdict on the clock tree: the first clock that does not run, in the
/// order system clock, APB1 timer clock, APB1 clock, AHB1 (DMA bus) clock,
/// names the failure.
pub open spec fn clock_verdict(c: ClockFrequencies) -> HealthStatus {
    if c.sys_hz == 0 {
        HealthStatus::Fail(HealthError::ClockOutOfRange)
    } else if c.pclk1_tim_hz == 0 {
        HealthStatus::Fail(HealthError::TimerNotTicking)
    } else if c.pclk1_hz == 0 {
        HealthStatus::Fail(HealthError::I2cInitFailed)
    } else if c.hclk1_hz == 0 {
        HealthStatus::Fail(HealthError::DmaInitFailed)
    } else {
        HealthStatus::Ready
    }
}

/// The clock check names the first stopped clock in the order system clock,
/// APB1 timer clock, APB1 clock, AHB1 clock, and passes only when all run.
pub proof fn lemma_clock_check_order(c: ClockFrequencies)
    ensures
        c.sys_hz == 0 ==> clock_verdict(c) == HealthStatus::Fail(HealthError::ClockOutOfRange),
        c.sys_hz != 0 && c.pclk1_tim_hz == 0 ==> clock_verdict(c) == HealthStatus::Fail(
            HealthError::TimerNotTicking,
        ),
        c.sys_hz != 0 && c.pclk1_tim_hz != 0 && c.pclk1_hz == 0 ==> clock_verdict(c)
            == HealthStatus::Fail(HealthError::I2cInitFailed),
        c.sys_hz != 0 && c.pclk1_tim_hz != 0 && c.pclk1_hz != 0 && c.hclk1_hz == 0
            ==> clock_verdict(c) == HealthStatus::Fail(HealthError::DmaInitFailed),
        (clock_verdict(c) == HealthStatus::Ready) == (c.sys_hz != 0 && c.pclk1_tim_hz != 0
            && c.pclk1_hz != 0 && c.hclk1_hz != 0),
{
}

/// Judges the clock tree: every clock must run.
pub fn check_clock(clocks: ClockFrequencies) -> (r: HealthStatus)
    ensures
        r == clock_verdict(clocks),
        r == HealthStatus::Ready <==> (clocks.sys_hz != 0 && clocks.pclk1_tim_hz != 0
            && clocks.pclk1_hz != 0 && clocks.hclk1_hz != 0),
{
    if clocks.sys_hz == 0 {
        return HealthStatus::Fail(HealthError::ClockOutOfRange);
    }
    if clocks.pclk1_tim_hz == 0 {
        return HealthStatus::Fail(HealthError::TimerNotTicking);
    }
    if clocks.pclk1_hz == 0 {
        return HealthStatus::Fail(HealthError::I2cInitFailed);
    }
    if clocks.hclk1_hz == 0 {
        return HealthStatus::Fail(HealthError::DmaInitFailed);
    }
    HealthStatus::Ready
}

/// Judges the stack canary from the word read back after writing
/// `CANARY_VALUE`.
pub fn check_stack_canary(read_back: u32) -> (r: HealthStatus)
    ensures
        r == (if read_back == CANARY_VALUE {
            HealthStatus::Ready
        } else {
            HealthStatus::Fail(HealthError::StackCanary)
        }),
{
    if read_back != CANARY_VALUE {
        return HealthStatus::Fail(HealthError::StackCanary);
    }
    HealthStatus::Ready
}

/// Judges the RAM test from the words read back after writing
/// `RAM_PATTERN` into each: it passes when every word holds the pattern.
pub fn check_ram(read_back: &[u32]) -> (r: HealthStatus)
    ensures
        r == (if forall|i: int| 0 <= i < read_back@.len() ==> read_back@[i] == RAM_PATTERN {
            HealthStatus::Ready
        } else {
            HealthStatus::Fail(HealthError::RamTest)
        }),
{
    let mut i: usize = 0;
    while i < read_back.len()
        invariant
            0 <= i <= read_back@.len(),
            forall|j: int| 0 <= j < i ==> read_back@[j] == RAM_PATTERN,
        decreases read_back@.len() - i,
    {
        if read_back[i] != RAM_PATTERN {
            return HealthStatus::Fail(HealthError::RamTest);
        }
        i = i + 1;
    }
    HealthStatus::Ready
}

/// Judges the UART from the outcome of setting up its transmitter.
pub fn check_uart<T, E>(init: &Result<T, E>) -> (r: HealthStatus)
    ensures
        r == (if init is Ok {
            HealthStatus::Ready
        } else {
            HealthStatus::Fail(HealthError::UartInitFailed)
        }),
{
    match init {
        Ok(_) => HealthStatus::Ready,
        Err(_) => HealthStatus::Fail(HealthError::UartInitFailed),
    }
}

/// The boot-time checks, in the order they run.
#[derive(Debug, PartialEq, Eq, Structural, Clone, Copy)]
pub enum BootCheck {
    Clock,
    StackCanary,
    Ram,
}

/// What the boot sequence does after a check.
#[derive(Debug, PartialEq, Eq, Structural, Clone, Copy)]
pub enum HealthStep {
    /// Run this check next.
    Run(BootCheck),
    /// Report this failure and halt.
    Halt(HealthStatus),
    /// All checks passed: go on to start the tasks.
    Proceed,
}

/// The step after `check` came out `status`: a failure halts with that
/// status; a pass moves to the next check, or on past the last one.
pub open spec fn step_after(check: BootCheck, status: HealthStatus) -> HealthStep {
    if status != HealthStatus::Ready {
        HealthStep::Halt(status)
    } else {
        match check {
            BootCheck::Clock => HealthStep::Run(BootCheck::StackCanary),
            BootCheck::StackCanary => HealthStep::Run(BootCheck::Ram),
            BootCheck::Ram => HealthStep::Proceed,
        }
    }
}

/// Decides what the boot sequence does after `check` came out `status`.
pub fn next_step(check: BootCheck, status: HealthStatus) -> (r: HealthStep)
    ensures
        r == step_after(check, status),
{
    if status != HealthStatus::Ready {
        return HealthStep::Halt(status);
    }
    match check {
        BootCheck::Clock => HealthStep::Run(BootCheck::StackCanary),
        BootCheck::StackCanary => HealthStep::Run(BootCheck::Ram),
        BootCheck::Ram => HealthStep::Proceed,
    }
}

/// Where the boot sequence ends when the clock, canary and RAM checks come
/// out `clock`, `canary` and `ram`: it runs the checks in order while they
/// pass.
pub open spec fn sequence_outcome(clock: HealthStatus, canary: HealthStatus, ram: HealthStatus) -> HealthStep {
    match step_after(BootCheck::Clock, clock) {
        HealthStep::Run(_) => match step_after(BootCheck::StackCanary, canary) {
            HealthStep::Run(_) => step_after(BootCheck::Ram, ram),
            other => other,
        },
        other => other,
    }
}

/// The boot sequence goes on to start the tasks exactly when all three
/// checks pass; otherwise it halts with the first failure, in the order
/// clock, stack canary, RAM, and runs no check after it.
pub proof fn lemma_boot_sequence(clock: HealthStatus, canary: HealthStatus, ram: HealthStatus)
    ensures
        (sequence_outcome(clock, canary, ram) == HealthStep::Proceed) <==> (clock
            == HealthStatus::Ready && canary == HealthStatus::Ready && ram == HealthStatus::Ready),
        clock != HealthStatus::Ready ==> sequence_outcome(clock, canary, ram) == HealthStep::Halt(
            clock,
        ),
        clock == HealthStatus::Ready && canary != HealthStatus::Ready ==> sequence_outcome(
            clock,
            canary,
            ram,
        ) == HealthStep::Halt(canary),
        clock == HealthStatus::Ready && canary == HealthStatus::Ready && ram != HealthStatus::Ready
            ==> sequence_outcome(clock, canary, ram) == HealthStep::Halt(ram),
{
}

} // verus!
