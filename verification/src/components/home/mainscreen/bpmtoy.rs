//! A tap-tempo counter: the user taps a key to the beat and sees the beats per minute.
use vstd::prelude::*;

use crate::strings::push_str;

verus! {

/// Three seconds, in nanoseconds: a longer pause between taps starts the count over.
pub const TAP_TIMEOUT: u64 = 3_000_000_000;

/// The state of the counter.
#[derive(Clone, Copy, Debug, PartialEq, Eq, Structural)]
pub enum State {
    /// Waiting for a first tap.
    Init,
    /// One tap seen; waiting for the second.
    NeedToTapMore,
    /// Counting: the number of intervals between taps and their total length (nanoseconds).
    Running { interval_count: u32, total_len: u64 },
}

/// What the counter shows.
#[derive(Clone, Copy, Debug, PartialEq, Eq, Structural)]
pub enum Display {
    /// The invitation to tap.
    InitMsg,
    /// "Continue tapping...".
    ContinueTapping,
    /// The tempo from this many intervals of this total length (nanoseconds):
    /// 60 s over the mean interval.
    Bpm { interval_count: u32, total_len: u64 },
}

/// The counter after a tap that comes `elapsed` nanoseconds after the previous one.
pub open spec fn after_tap(s: State, elapsed: u64) -> (State, Display) {
    match s {
        State::Init => (State::NeedToTapMore, Display::ContinueTapping),
        State::NeedToTapMore => if elapsed > TAP_TIMEOUT {
            (State::NeedToTapMore, Display::ContinueTapping)
        } else {
            (State::Running { interval_count: 1, total_len: elapsed }, Display::ContinueTapping)
        },
        State::Running { interval_count, total_len } => if elapsed > TAP_TIMEOUT {
            (State::NeedToTapMore, Display::ContinueTapping)
        } else {
            let c = (interval_count + 1) as u32;
            let t = (total_len + elapsed) as u64;
            (State::Running { interval_count: c, total_len: t }, Display::Bpm { interval_count: c, total_len: t })
        },
    }
}

/// The counter at a tick, `elapsed` nanoseconds after the last tap: a pause over the timeout
/// ends the count, showing the invitation again, or the tempo reached.
pub open spec fn after_tick(s: State, d: Display, elapsed: u64) -> (State, Display) {
    if elapsed > TAP_TIMEOUT {
        match s {
            State::NeedToTapMore => (State::Init, Display::InitMsg),
            State::Running { interval_count, total_len } => (State::Init, Display::Bpm { interval_count, total_len }),
            State::Init => (s, d),
        }
    } else {
        (s, d)
    }
}

/// The tap-tempo counter.
pub struct BPMToy {
    pub state: State,
    pub display: Display,
    pub init_msg: String,
}

impl BPMToy {
    /// Each counted interval is at most the timeout long, and at least one is counted.
    pub open spec fn wf(&self) -> bool {
        self.state matches State::Running { interval_count, total_len } ==> interval_count >= 1
            && total_len <= TAP_TIMEOUT * interval_count
    }

    /// The counter, inviting to tap the key `tap_key` when one is bound.
    pub fn new(tap_key: Option<String>) -> (r: Self)
        ensures
            r.wf(),
            r.state == State::Init,
            r.display == Display::InitMsg,
            r.init_msg@ == match tap_key {
                Some(t) => "Tap "@ + t@ + " for BPM"@,
                None => "Tap to BPM not bound!"@,
            },
    {
        let msg = match tap_key {
            Some(t) => {
                let mut m = String::from_str("Tap ");
                push_str(&mut m, t.as_str());
                push_str(&mut m, " for BPM");
                m
            },
            None => String::from_str("Tap to BPM not bound!"),
        };
        Self { init_msg: msg, state: State::Init, display: Display::InitMsg }
    }

    /// A tap, `elapsed` nanoseconds after the previous one.
    pub fn tap(&mut self, elapsed: u64)
        requires
            old(self).wf(),
            old(self).state matches State::Running { interval_count, .. } ==> interval_count < u32::MAX,
        ensures
            final(self).wf(),
            (final(self).state, final(self).display) == after_tap(old(self).state, elapsed),
            final(self).init_msg == old(self).init_msg,
    {
        let (s, d) = match self.state {
            State::Init => (State::NeedToTapMore, Display::ContinueTapping),
            State::NeedToTapMore => if elapsed > TAP_TIMEOUT {
                (State::NeedToTapMore, Display::ContinueTapping)
            } else {
                (State::Running { interval_count: 1, total_len: elapsed }, Display::ContinueTapping)
            },
            State::Running { interval_count, total_len } => if elapsed > TAP_TIMEOUT {
                (State::NeedToTapMore, Display::ContinueTapping)
            } else {
                assert(total_len + elapsed <= TAP_TIMEOUT * (interval_count + 1)) by (nonlinear_arith)
                    requires
                        total_len <= TAP_TIMEOUT * interval_count,
                        elapsed <= TAP_TIMEOUT,
                ;
                assert(TAP_TIMEOUT * (interval_count + 1) <= TAP_TIMEOUT * 0x1_0000_0000) by (nonlinear_arith)
                    requires
                        interval_count < u32::MAX,
                ;
                let c = interval_count + 1;
                let t = total_len + elapsed;
                (State::Running { interval_count: c, total_len: t }, Display::Bpm { interval_count: c, total_len: t })
            },
        };
        self.state = s;
        self.display = d;
    }

    /// A tick, `elapsed` nanoseconds after the last tap.
    pub fn on_tick(&mut self, elapsed: u64)
        requires
            old(self).wf(),
        ensures
            final(self).wf(),
            (final(self).state, final(self).display) == after_tick(old(self).state, old(self).display, elapsed),
            final(self).init_msg == old(self).init_msg,
    {
        if elapsed > TAP_TIMEOUT {
            match self.state {
                State::NeedToTapMore => {
                    self.state = State::Init;
                    self.display = Display::InitMsg;
                },
                State::Running { interval_count, total_len } => {
                    self.state = State::Init;
                    self.display = Display::Bpm { interval_count, total_len };
                },
                State::Init => {},
            }
        }
    }
}

/// Each tap within the timeout of the previous one, while counting, adds one interval.
pub proof fn lemma_tap_counts(c: u32, t: u64, elapsed: u64)
    requires
        c < u32::MAX,
        elapsed <= TAP_TIMEOUT,
        t + elapsed <= u64::MAX,
    ensures
        after_tap(State::Running { interval_count: c, total_len: t }, elapsed).0 matches State::Running {
            interval_count,
            total_len,
        } && interval_count == c + 1 && total_len == t + elapsed,
{
}

} // verus!
