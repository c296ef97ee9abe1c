use vstd::prelude::*;

verus! {

/// What went wrong in a boot-time self test.
#[derive(Debug, PartialEq, Eq, Structural, Clone, Copy)]
pub enum HealthError {
    // Memory
    StackCanary,
    RamTest,
    FlashCRC,
    // Clocks
    TimerNotTicking,
    ClockOutOfRange,
    // Peripherals
    AdcCalibration,
    I2cInitFailed,
    SpiInitFailed,
    UartInitFailed,
    DmaInitFailed,
}

/// Outcome of a boot-time self test.
#[derive(Debug, PartialEq, Eq, Structural, Clone, Copy)]
pub enum HealthStatus {
    Ready,
    Fail(HealthError),
}

impl HealthError {
    /// The short tag that names this error in the board's report.
    pub open spec fn tag(self) -> Seq<char> {
        match self {
            HealthError::AdcCalibration => "adc"@,
            HealthError::TimerNotTicking => "tim"@,
            HealthError::ClockOutOfRange => "clk"@,
            HealthError::StackCanary => "stack"@,
            HealthError::RamTest => "ram"@,
            HealthError::FlashCRC => "flash"@,
            HealthError::I2cInitFailed => "i2c"@,
            HealthError::SpiInitFailed => "spi"@,
            HealthError::UartInitFailed => "uart"@,
            HealthError::DmaInitFailed => "dma"@,
        }
    }
}

impl HealthStatus {
    /// The line the board reports for this status.
    pub open spec fn report(self) -> Seq<char> {
        match self {
            HealthStatus::Ready => "READY\n"@,
            HealthStatus::Fail(e) => "FAIL:"@ + e.tag() + "\n"@,
        }
    }

    /// The report line of this status: `READY\n`, or `FAIL:` followed by
    /// the error's tag and a newline.
    pub fn as_str(&self) -> (r: &'static str)
        ensures
            r@ == self.report(),
    {
        proof {
            lemma_report_texts();
            reveal_strlit("FAIL:adc\n");
            reveal_strlit("FAIL:tim\n");
            reveal_strlit("FAIL:clk\n");
            reveal_strlit("FAIL:stack\n");
            reveal_strlit("FAIL:ram\n");
            reveal_strlit("FAIL:flash\n");
            reveal_strlit("FAIL:i2c\n");
            reveal_strlit("FAIL:spi\n");
            reveal_strlit("FAIL:uart\n");
            reveal_strlit("FAIL:dma\n");
        }
        match self {
            HealthStatus::Ready => "READY\n",
            HealthStatus::Fail(HealthError::AdcCalibration) => "FAIL:adc\n",
            HealthStatus::Fail(HealthError::TimerNotTicking) => "FAIL:tim\n",
            HealthStatus::Fail(HealthError::ClockOutOfRange) => "FAIL:clk\n",
            HealthStatus::Fail(HealthError::StackCanary) => "FAIL:stack\n",
            HealthStatus::Fail(HealthError::RamTest) => "FAIL:ram\n",
            HealthStatus::Fail(HealthError::FlashCRC) => "FAIL:flash\n",
            HealthStatus::Fail(HealthError::I2cInitFailed) => "FAIL:i2c\n",
            HealthStatus::Fail(HealthError::SpiInitFailed) => "FAIL:spi\n",
            HealthStatus::Fail(HealthError::UartInitFailed) => "FAIL:uart\n",
            HealthStatus::Fail(HealthError::DmaInitFailed) => "FAIL:dma\n",
        }
    }
}

/// The characters of the report's fixed parts and of every tag.
pub(crate) proof fn lemma_report_texts()
    ensures
        "READY\n"@ == seq!['R', 'E', 'A', 'D', 'Y', '\n'],
        "FAIL:"@ == seq!['F', 'A', 'I', 'L', ':'],
        "\n"@ == seq!['\n'],
        HealthError::AdcCalibration.tag() == seq!['a', 'd', 'c'],
        HealthError::TimerNotTicking.tag() == seq!['t', 'i', 'm'],
        HealthError::ClockOutOfRange.tag() == seq!['c', 'l', 'k'],
        HealthError::StackCanary.tag() == seq!['s', 't', 'a', 'c', 'k'],
        HealthError::RamTest.tag() == seq!['r', 'a', 'm'],
        HealthError::FlashCRC.tag() == seq!['f', 'l', 'a', 's', 'h'],
        HealthError::I2cInitFailed.tag() == seq!['i', '2', 'c'],
        HealthError::SpiInitFailed.tag() == seq!['s', 'p', 'i'],
        HealthError::UartInitFailed.tag() == seq!['u', 'a', 'r', 't'],
        HealthError::DmaInitFailed.tag() == seq!['d', 'm', 'a'],
{
    reveal_strlit("READY\n");
    reveal_strlit("FAIL:");
    reveal_strlit("\n");
    reveal_strlit("adc");
    reveal_strlit("tim");
    reveal_strlit("clk");
    reveal_strlit("stack");
    reveal_strlit("ram");
    reveal_strlit("flash");
    reveal_strlit("i2c");
    reveal_strlit("spi");
    reveal_strlit("uart");
    reveal_strlit("dma");
}

/// Every failure is reported as `FAIL:` followed by a non-empty tag and a
/// newline; the ready line is `READY\n`, which does not start with `FAIL:`.
pub proof fn lemma_report_shape(s: HealthStatus)
    ensures
        s == HealthStatus::Ready ==> s.report() == "READY\n"@,
        s matches HealthStatus::Fail(e) ==> {
            &&& s.report().len() == 5 + e.tag().len() + 1
            &&& s.report().subrange(0, 5) == "FAIL:"@
            &&& s.report().subrange(5, 5 + e.tag().len() as int) == e.tag()
            &&& s.report().last() == '\n'
            &&& e.tag().len() > 0
        },
        HealthStatus::Ready.report().subrange(0, 5) != "FAIL:"@,
{
    lemma_report_texts();
    if let HealthStatus::Fail(e) = s {
        let r = s.report();
        assert(r.subrange(0, 5) =~= "FAIL:"@);
        assert(r.subrange(5, 5 + e.tag().len() as int) =~= e.tag());
    }
    assert(HealthStatus::Ready.report().subrange(0, 5)[0] == 'R');
}

/// Distinct statuses are reported by distinct lines, so the report names
/// the status it came from.
pub proof fn lemma_report_distinct(a: HealthStatus, b: HealthStatus)
    requires
        a != b,
    ensures
        a.report() != b.report(),
{
    lemma_report_texts();
    lemma_report_shape(a);
    lemma_report_shape(b);
    if a.report() == b.report() {
        match (a, b) {
            (HealthStatus::Fail(x), HealthStatus::Fail(y)) => {
                assert(x.tag() == a.report().subrange(5, 5 + x.tag().len() as int));
                assert(y.tag() == b.report().subrange(5, 5 + y.tag().len() as int));
                assert(x.tag() == y.tag());
                assert(x.tag()[0] == y.tag()[0]);
                assert(x.tag()[x.tag().len() - 1] == y.tag()[y.tag().len() - 1]);
            },
            (HealthStatus::Ready, HealthStatus::Fail(_)) => {
                assert(a.report()[0] == b.report()[0]);
            },
            (HealthStatus::Fail(_), HealthStatus::Ready) => {
                assert(a.report()[0] == b.report()[0]);
            },
            _ => {},
        }
    }
}

} // verus!
