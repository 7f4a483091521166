//! Waiting for an input line by polling it.
//!
//! An edge here means that the line is in that state now, not that it has just
//! changed. A wake-up too many costs one packet read.

use vstd::prelude::*;

verus! {

/// What a caller waits for.
#[derive(Debug, Clone, Copy, PartialEq, Eq, Structural)]
pub enum WaitFor {
    Low,
    High,
    FallingEdge,
    RisingEdge,
    AnyEdge,
}

/// State of a line.
#[derive(Debug, Clone, Copy, PartialEq, Eq, Structural)]
pub enum LineState {
    Low,
    High,
}

impl WaitFor {
    /// The state that ends a wait. Any edge counts as a falling one.
    pub open spec fn ends_on(self) -> LineState {
        match self {
            WaitFor::Low => LineState::Low,
            WaitFor::High => LineState::High,
            WaitFor::FallingEdge => LineState::Low,
            WaitFor::RisingEdge => LineState::High,
            WaitFor::AnyEdge => LineState::Low,
        }
    }

    /// The state that ends a wait, which is what the line is to be asked for.
    pub fn line_state(self) -> (r: LineState)
        ensures
            r == self.ends_on(),
    {
        match self {
            WaitFor::Low => LineState::Low,
            WaitFor::High => LineState::High,
            WaitFor::FallingEdge => LineState::Low,
            WaitFor::RisingEdge => LineState::High,
            WaitFor::AnyEdge => LineState::Low,
        }
    }
}

/// Waits on a line `P` by polling.
pub struct PollWait<P> {
    pub pin: P,
    /// Time between two looks.
    pub period_us: u64,
}

/// Whether a look at the line was answered with yes. A failed look was not.
pub open spec fn says_yes<E>(answer: Result<bool, E>) -> bool {
    answer matches Ok(b) && b
}

impl<P> PollWait<P> {
    pub fn new(pin: P) -> (r: Self)
        ensures
            r.pin == pin,
            r.period_us == 500,
    {
        PollWait { pin, period_us: 500 }
    }

    /// Whether the line is low, from what it said when asked for low.
    pub fn is_low<E>(&self, answer: Result<bool, E>) -> (r: bool)
        ensures
            r == says_yes(answer),
    {
        match answer {
            Ok(b) => b,
            Err(_) => false,
        }
    }

    /// Whether the line is high, from what it said when asked for high.
    pub fn is_high<E>(&self, answer: Result<bool, E>) -> (r: bool)
        ensures
            r == says_yes(answer),
    {
        match answer {
            Ok(b) => b,
            Err(_) => false,
        }
    }

    /// One look of a wait: `None` ends it, otherwise the time in microseconds until
    /// the next look. `answer` is what the line said when asked for
    /// [`WaitFor::line_state`].
    pub fn poll<E>(&self, wait: WaitFor, answer: Result<bool, E>) -> (r: Option<u64>)
        ensures
            r == if says_yes(answer) {
                None::<u64>
            } else {
                Some(self.period_us)
            },
    {
        let there: bool = match wait.line_state() {
            LineState::Low => self.is_low(answer),
            LineState::High => self.is_high(answer),
        };
        if there {
            None
        } else {
            Some(self.period_us)
        }
    }
}

/// A wait ends with the first look that the line answers with yes; a no and a failed
/// look both mean another look after the polling period, half a millisecond.
pub proof fn law_waits_end_on_a_yes<P, E>(
    pin: P,
    line: PollWait<P>,
    wait: WaitFor,
    answer: Result<bool, E>,
    r: Option<u64>,
    low: bool,
    high: bool,
)
    requires
        call_ensures(PollWait::<P>::new, (pin,), line),
        call_ensures(PollWait::<P>::poll::<E>, (&line, wait, answer), r),
        call_ensures(PollWait::<P>::is_low::<E>, (&line, answer), low),
        call_ensures(PollWait::<P>::is_high::<E>, (&line, answer), high),
    ensures
        line.pin == pin,
        answer is Ok && answer->Ok_0 ==> r is None && low && high,
        !(answer is Ok && answer->Ok_0) ==> r == Some(500u64) && !low && !high,
{
}

/// Only waits for a high line and for a rising edge are over when the line is high;
/// all others are over when it is low.
pub proof fn law_lines_are_asked_for_their_state(wait: WaitFor, r: LineState)
    requires
        call_ensures(WaitFor::line_state, (wait,), r),
    ensures
        r is High <==> wait is High || wait is RisingEdge,
        r is Low <==> wait is Low || wait is FallingEdge || wait is AnyEdge,
{
}

} // verus!
