use vstd::prelude::*;
use vstd::string::StringSliceAdditionalSpecFns;
use vstd::utf8::{encode_utf8, is_ascii_chars, is_ascii_chars_encode_utf8};
use crate::health_status::{HealthError, HealthStatus, lemma_report_texts};

verus! {

/// What the board prints once its self test has passed.
pub const READY_MSG: &'static str = "READY:adc,tim,clk";

/// The prefix of every line the board prints for a failed self test.
pub const FAIL_MSG: &'static str = "FAIL:";

/// How long the host waits for the board's report, in nanoseconds (2 s).
pub const HEALTH_CHECK_TIMEOUT_NANOS: u128 = 2_000_000_000;

/// `needle` occurs as a contiguous run of bytes in `hay`.
pub open spec fn occurs_in(needle: Seq<u8>, hay: Seq<u8>) -> bool {
    exists|i: int|
        0 <= i && i + needle.len() <= hay.len() && #[trigger] hay.subrange(i, i + needle.len())
            == needle
}

/// Whether `needle` occurs in `hay`, as `str::contains` decides it on the
/// bytes of two strings.
pub fn contains_bytes(hay: &[u8], needle: &[u8]) -> (r: bool)
    ensures
        r == occurs_in(needle@, hay@),
{
    let n = needle.len();
    let len = hay.len();
    if n > len {
        return false;
    }
    if n == 0 {
        assert(hay@.subrange(0, 0 + needle@.len() as int) =~= needle@);
        return true;
    }
    let last = len - n;
    let mut i: usize = 0;
    while i <= last
        invariant
            n == needle@.len(),
            1 <= n <= hay@.len(),
            len == hay@.len(),
            last == len - n,
            0 <= i <= last + 1,
            forall|k: int| 0 <= k < i ==> #[trigger] hay@.subrange(k, k + n) != needle@,
        decreases last + 1 - i,
    {
        let mut j: usize = 0;
        let mut same = true;
        while j < n
            invariant
                n == needle@.len(),
                i <= last,
                n <= hay@.len(),
                len == hay@.len(),
                last == len - n,
                0 <= j <= n,
                same == (forall|m: int| 0 <= m < j ==> hay@[i + m] == needle@[m]),
            decreases n - j,
        {
            if hay[i + j] != needle[j] {
                same = false;
            }
            j = j + 1;
        }
        if same {
            assert(hay@.subrange(i as int, i + n) =~= needle@);
            return true;
        }
        i = i + 1;
    }
    proof {
        if occurs_in(needle@, hay@) {
            let k = choose|k: int|
                0 <= k && k + needle@.len() <= hay@.len() && #[trigger] hay@.subrange(
                    k,
                    k + needle@.len(),
                ) == needle@;
            assert(hay@.subrange(k, k + n) != needle@);
        }
    }
    false
}

/// What the host makes of the board's output so far.
#[derive(Debug, PartialEq, Eq, Structural, Clone, Copy)]
pub enum BoardPoll {
    /// The board reported that its self test passed.
    Ready,
    /// The board reported a failed self test.
    Failed,
    /// The board has not answered within the timeout.
    TimedOut,
    /// Nothing conclusive yet: keep polling.
    Waiting,
}

/// The host's verdict after `elapsed_nanos` on the text received so far:
/// the timeout is checked first, then the ready message, then a failure.
pub open spec fn poll_verdict(elapsed_nanos: u128, received: Seq<u8>) -> BoardPoll {
    if elapsed_nanos > HEALTH_CHECK_TIMEOUT_NANOS {
        BoardPoll::TimedOut
    } else if occurs_in(READY_MSG.spec_bytes(), received) {
        BoardPoll::Ready
    } else if occurs_in(FAIL_MSG.spec_bytes(), received) {
        BoardPoll::Failed
    } else {
        BoardPoll::Waiting
    }
}

/// Decides, after `elapsed_nanos` since polling began, what the text the
/// board has sent so far means.
pub fn board_poll(elapsed_nanos: u128, received: &str) -> (r: BoardPoll)
    ensures
        r == poll_verdict(elapsed_nanos, received.spec_bytes()),
{
    if elapsed_nanos > HEALTH_CHECK_TIMEOUT_NANOS {
        return BoardPoll::TimedOut;
    }
    let text = received.as_bytes();
    if contains_bytes(text, READY_MSG.as_bytes()) {
        BoardPoll::Ready
    } else if contains_bytes(text, FAIL_MSG.as_bytes()) {
        BoardPoll::Failed
    } else {
        BoardPoll::Waiting
    }
}

/// The host recognises every failure line the board prints: before the
/// timeout, a text that is the report of a failed self test reads as
/// `Failed`.
pub proof fn lemma_failure_report_detected(e: HealthError, elapsed_nanos: u128)
    requires
        elapsed_nanos <= HEALTH_CHECK_TIMEOUT_NANOS,
    ensures
        poll_verdict(elapsed_nanos, encode_utf8(HealthStatus::Fail(e).report()))
            == BoardPoll::Failed,
{
    lemma_report_texts();
    let chars = HealthStatus::Fail(e).report();
    assert(is_ascii_chars(chars));
    is_ascii_chars_encode_utf8(chars);
    let bytes = encode_utf8(chars);
    reveal_strlit("FAIL:");
    reveal_strlit("READY:adc,tim,clk");
    assert(is_ascii_chars(FAIL_MSG@));
    assert(is_ascii_chars(READY_MSG@));
    is_ascii_chars_encode_utf8(FAIL_MSG@);
    is_ascii_chars_encode_utf8(READY_MSG@);
    let fail = FAIL_MSG.spec_bytes();
    let ready = READY_MSG.spec_bytes();
    assert(bytes.len() <= 11);
    assert(ready.len() == 17);
    assert(!occurs_in(ready, bytes));
    assert(bytes.subrange(0, 0 + fail.len() as int) =~= fail);
}

proof fn lemma_occurs_in_middle(p: Seq<u8>, x: Seq<u8>, q: Seq<u8>)
    ensures
        occurs_in(x, p + x + q),
{
    let t = p + x + q;
    assert(t.subrange(p.len() as int, (p.len() + x.len()) as int) =~= x);
}

proof fn lemma_occurs_in_extended(x: Seq<u8>, r: Seq<u8>, more: Seq<u8>)
    requires
        occurs_in(x, r),
    ensures
        occurs_in(x, r + more),
{
    let i = choose|i: int| 0 <= i && i + x.len() <= r.len() && #[trigger] r.subrange(i, i + x.len()) == x;
    assert((r + more).subrange(i, i + x.len()) =~= r.subrange(i, i + x.len()));
}

/// Before the timeout, the ready message anywhere in the received text,
/// whatever comes before or after it, makes the board ready.
pub proof fn lemma_ready_anywhere(elapsed_nanos: u128, p: Seq<u8>, q: Seq<u8>)
    requires
        elapsed_nanos <= 2_000_000_000,
    ensures
        poll_verdict(elapsed_nanos, p + READY_MSG.spec_bytes() + q) == BoardPoll::Ready,
{
    lemma_occurs_in_middle(p, READY_MSG.spec_bytes(), q);
}

/// Before the timeout, the failure prefix anywhere in the received text
/// makes the board failed, unless the ready message also arrived.
pub proof fn lemma_failure_anywhere(elapsed_nanos: u128, p: Seq<u8>, q: Seq<u8>)
    requires
        elapsed_nanos <= 2_000_000_000,
        !occurs_in(READY_MSG.spec_bytes(), p + FAIL_MSG.spec_bytes() + q),
    ensures
        poll_verdict(elapsed_nanos, p + FAIL_MSG.spec_bytes() + q) == BoardPoll::Failed,
{
    lemma_occurs_in_middle(p, FAIL_MSG.spec_bytes(), q);
}

/// Past the two-second timeout the verdict is a timeout, whatever arrived;
/// before it, text holding neither message keeps the host waiting.
pub proof fn lemma_timeout_and_waiting(elapsed_nanos: u128, received: Seq<u8>)
    ensures
        elapsed_nanos > 2_000_000_000 ==> poll_verdict(elapsed_nanos, received)
            == BoardPoll::TimedOut,
        elapsed_nanos <= 2_000_000_000 && !occurs_in(READY_MSG.spec_bytes(), received) && !occurs_in(
            FAIL_MSG.spec_bytes(),
            received,
        ) ==> poll_verdict(elapsed_nanos, received) == BoardPoll::Waiting,
{
}

/// A verdict reached before the timeout is not undone by more text: once
/// ready, still ready; once failed, failed or ready.
pub proof fn lemma_verdict_kept_as_text_grows(elapsed_nanos: u128, received: Seq<u8>, more: Seq<u8>)
    requires
        elapsed_nanos <= 2_000_000_000,
    ensures
        poll_verdict(elapsed_nanos, received) == BoardPoll::Ready ==> poll_verdict(
            elapsed_nanos,
            received + more,
        ) == BoardPoll::Ready,
        poll_verdict(elapsed_nanos, received) == BoardPoll::Failed ==> (poll_verdict(
            elapsed_nanos,
            received + more,
        ) == BoardPoll::Failed || poll_verdict(elapsed_nanos, received + more) == BoardPoll::Ready),
{
    if occurs_in(READY_MSG.spec_bytes(), received) {
        lemma_occurs_in_extended(READY_MSG.spec_bytes(), received, more);
    }
    if occurs_in(FAIL_MSG.spec_bytes(), received) {
        lemma_occurs_in_extended(FAIL_MSG.spec_bytes(), received, more);
    }
}

} // verus!
