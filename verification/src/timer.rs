//! The countdown timer state and its tick, reset and toggle operations.

use vstd::prelude::*;

verus! {

/// The whole state of one countdown timer.
///
/// `remaining_seconds` counts down to zero and is clamped there; a reset
/// restores it to `configured_seconds`. `reset_requested` is a transient
/// flag consumed by the next tick. `auto_repeat` makes a timer that reached
/// zero request its own reset. `chime_played` guards the chime so it fires
/// at most once per cycle.
#[derive(Clone, Copy, Debug, PartialEq, Eq, Structural)]
pub struct TimerState {
    pub remaining_seconds: u32,
    pub configured_seconds: u32,
    pub reset_requested: bool,
    pub auto_repeat: bool,
    pub chime_played: bool,
}

impl TimerState {
    /// The timer's invariant: the configured duration is positive, the
    /// countdown never exceeds it, and the chime guard is set only while
    /// the countdown sits at zero.
    pub open spec fn wf(self) -> bool {
        &&& self.configured_seconds >= 1
        &&& self.remaining_seconds <= self.configured_seconds
        &&& (self.chime_played ==> self.remaining_seconds == 0)
    }
}

/// Whether one tick from state `s` fires the chime: the countdown sits at
/// zero and the chime has not been played in this cycle.
pub open spec fn chime_spec(s: TimerState) -> bool {
    s.remaining_seconds == 0 && !s.chime_played
}

/// The state after one tick from `s`. The chime and auto-repeat checks come
/// first, then a pending reset is applied, and the decrement runs last, so
/// the countdown reads zero for one full tick before any reset takes hold.
pub open spec fn advance_spec(s: TimerState) -> TimerState {
    let do_reset = s.reset_requested || (s.remaining_seconds == 0 && s.auto_repeat);
    let restored = if do_reset {
        s.configured_seconds
    } else {
        s.remaining_seconds
    };
    let played = if do_reset {
        false
    } else {
        s.chime_played || chime_spec(s)
    };
    TimerState {
        remaining_seconds: if restored > 0 { (restored - 1) as u32 } else { 0 },
        configured_seconds: s.configured_seconds,
        reset_requested: false,
        auto_repeat: s.auto_repeat,
        chime_played: played,
    }
}

impl TimerState {
    /// A fresh timer: the countdown starts at the configured duration, with
    /// auto-repeat off and no reset pending.
    pub fn new(seconds: u32) -> (t: TimerState)
        requires
            seconds >= 1,
        ensures
            t.wf(),
            t.remaining_seconds == seconds,
            t.configured_seconds == seconds,
            !t.reset_requested,
            !t.auto_repeat,
            !t.chime_played,
    {
        TimerState {
            remaining_seconds: seconds,
            configured_seconds: seconds,
            reset_requested: false,
            auto_repeat: false,
            chime_played: false,
        }
    }

    /// One tick of the timer. The returned flag says whether the chime must
    /// be played now; playing it is the caller's side effect.
    pub fn advance_tick(&mut self) -> (chime: bool)
        requires
            old(self).wf(),
        ensures
            final(self).wf(),
            chime == chime_spec(*old(self)),
            *final(self) == advance_spec(*old(self)),
    {
        let mut chime = false;
        if self.remaining_seconds == 0 && !self.chime_played {
            chime = true;
            self.chime_played = true;
        }

        if self.remaining_seconds == 0 && self.auto_repeat {
            self.reset_requested = true;
        }

        if self.reset_requested {
            self.remaining_seconds = self.configured_seconds;
            self.chime_played = false;
            self.reset_requested = false;
        }

        if self.remaining_seconds > 0 {
            self.remaining_seconds = self.remaining_seconds - 1;
        }

        chime
    }

    /// Ask for a reset. Nothing else changes until the next tick consumes
    /// the flag; asking twice is the same as asking once.
    pub fn request_reset(&mut self)
        ensures
            *final(self) == (TimerState { reset_requested: true, ..*old(self) }),
            old(self).wf() ==> final(self).wf(),
    {
        self.reset_requested = true;
    }

    /// Flip the auto-repeat mode.
    pub fn toggle_auto_repeat(&mut self)
        ensures
            *final(self) == (TimerState { auto_repeat: !old(self).auto_repeat, ..*old(self) }),
            old(self).wf() ==> final(self).wf(),
    {
        self.auto_repeat = !self.auto_repeat;
    }

    /// Apply one key press: `q` asks to quit, `r` requests a reset, `a`
    /// toggles auto-repeat, and every other key is ignored.
    pub fn handle_key(&mut self, key: char) -> (quit: bool)
        ensures
            quit == (key == 'q'),
            key == 'r' ==> *final(self) == (TimerState { reset_requested: true, ..*old(self) }),
            key == 'a' ==> *final(self) == (TimerState {
                auto_repeat: !old(self).auto_repeat,
                ..*old(self)
            }),
            key != 'r' && key != 'a' ==> *final(self) == *old(self),
            old(self).wf() ==> final(self).wf(),
    {
        if key == 'r' {
            self.request_reset();
        }
        if key == 'a' {
            self.toggle_auto_repeat();
        }
        key == 'q'
    }
}

/// The bounded wait before the next poll: the time left until the tick
/// boundary, clamped to zero once the boundary has passed.
pub fn poll_timeout_ms(tick_interval_ms: u64, elapsed_ms: u64) -> (timeout: u64)
    ensures
        elapsed_ms >= tick_interval_ms ==> timeout == 0,
        elapsed_ms < tick_interval_ms ==> timeout == tick_interval_ms - elapsed_ms,
{
    if elapsed_ms >= tick_interval_ms {
        0
    } else {
        tick_interval_ms - elapsed_ms
    }
}

/// A tick on a running countdown with no reset pending only counts down:
/// the remaining time drops by exactly one, the configured duration is
/// untouched, and no chime fires.
pub proof fn lemma_tick_counts_down(s: TimerState)
    requires
        s.wf(),
        s.remaining_seconds >= 1,
        !s.reset_requested,
    ensures
        advance_spec(s).remaining_seconds == s.remaining_seconds - 1,
        advance_spec(s).configured_seconds == s.configured_seconds,
        !chime_spec(s),
{
}

/// A tick on an expired countdown whose chime is still owed, with neither
/// auto-repeat nor a pending reset, fires the chime exactly once: this tick
/// chimes, sets the guard, leaves the countdown at zero, and the next tick
/// does not chime again.
pub proof fn lemma_expired_tick_chimes_once(s: TimerState)
    requires
        s.wf(),
        s.remaining_seconds == 0,
        !s.chime_played,
        !s.auto_repeat,
        !s.reset_requested,
    ensures
        chime_spec(s),
        advance_spec(s).chime_played,
        advance_spec(s).remaining_seconds == 0,
        !chime_spec(advance_spec(s)),
{
}

/// With auto-repeat on and the countdown at zero, one tick both fires the
/// chime (if it is still owed) and applies the automatic reset: the chime
/// guard is cleared, the request is consumed, and the countdown is restored
/// to the configured duration before the same tick's final decrement runs.
pub proof fn lemma_auto_repeat_restarts(s: TimerState)
    requires
        s.wf(),
        s.remaining_seconds == 0,
        s.auto_repeat,
    ensures
        chime_spec(s) == !s.chime_played,
        advance_spec(s).remaining_seconds == s.configured_seconds - 1,
        !advance_spec(s).chime_played,
        !advance_spec(s).reset_requested,
{
}

/// A pending reset takes effect at the next tick, whichever way it was
/// requested: that tick restores the countdown to the configured duration,
/// clears the chime guard, consumes the request, and then runs the same
/// tick's final decrement.
pub proof fn lemma_pending_reset_applies(s: TimerState)
    requires
        s.wf(),
        s.reset_requested,
    ensures
        advance_spec(s).remaining_seconds == s.configured_seconds - 1,
        !advance_spec(s).chime_played,
        !advance_spec(s).reset_requested,
{
}

} // verus!
