//! The timer: time elapsed since a start, capped by a duration that can be
//! changed while it runs.
//!
//! Instants and durations are whole nanoseconds. An instant is a reading of
//! a clock that never runs backwards, counted from an origin of the
//! caller's choosing.

use vstd::prelude::*;

verus! {

/// The duration a new timer runs for: fifteen seconds.
pub const DEFAULT_MAX: u64 = 15_000_000_000;

/// The shortest duration that counts as a span of time. A timer whose
/// duration is below it is shown as complete. It is the smallest step of a
/// single-precision number near one, taken as seconds and rounded up to a
/// whole nanosecond.
pub const SHORTEST_SPAN: u64 = 120;

/// What can happen to the timer.
#[derive(Debug, Clone, Copy)]
pub enum Message {
    /// The clock was read.
    Tick(u64),
    /// The slider was moved to a new duration.
    SliderChanged(u64),
    /// The reset button was pressed, with the clock reading at that moment.
    ButtonPressed(u64),
}

/// How far along the timer is: `part` out of `whole`, with `whole` never
/// zero.
#[derive(Debug, Clone, Copy, PartialEq, Eq, Structural)]
pub struct Progress {
    pub part: u64,
    pub whole: u64,
}

#[derive(Debug, Clone, Copy, PartialEq, Eq, Structural)]
pub struct Timer {
    pub start: u64,
    pub elapsed: u64,
    pub max: u64,
}

/// The time from `start` to `now`, capped at `max`; nothing if `now` lies
/// before `start`.
pub open spec fn capped_elapsed(start: int, now: int, max: int) -> int {
    if now <= start {
        0
    } else if now - start <= max {
        now - start
    } else {
        max
    }
}

impl Timer {
    /// The timer after `message`.
    pub open spec fn next(self, message: Message) -> Timer {
        match message {
            Message::Tick(now) => Timer {
                elapsed: capped_elapsed(self.start as int, now as int, self.max as int) as u64,
                ..self
            },
            Message::SliderChanged(max) => Timer { max, ..self },
            Message::ButtonPressed(now) => Timer { start: now, elapsed: 0, ..self },
        }
    }

    /// The timer after each of `messages` in turn.
    pub open spec fn run(self, messages: Seq<Message>) -> Timer
        decreases messages.len(),
    {
        if messages.len() == 0 {
            self
        } else {
            self.run(messages.drop_last()).next(messages.last())
        }
    }

    pub open spec fn spec_progress(self) -> Progress {
        if self.max < SHORTEST_SPAN {
            Progress { part: 1, whole: 1 }
        } else {
            Progress { part: self.elapsed, whole: self.max }
        }
    }

    /// A timer started at `now`, with nothing elapsed yet.
    pub fn new(now: u64) -> (r: Self)
        ensures
            r == (Timer { start: now, elapsed: 0, max: DEFAULT_MAX }),
    {
        Timer { start: now, elapsed: 0, max: DEFAULT_MAX }
    }

    /// The share of the duration that has elapsed.
    pub fn progress(&self) -> (r: Progress)
        ensures
            r == self.spec_progress(),
            r.whole > 0,
    {
        if self.max < SHORTEST_SPAN {
            Progress { part: 1, whole: 1 }
        } else {
            Progress { part: self.elapsed, whole: self.max }
        }
    }

    /// Applies `message`. A tick never leaves more elapsed than the
    /// duration allows.
    pub fn update(&mut self, message: Message)
        ensures
            *final(self) == old(self).next(message),
            message is Tick ==> final(self).elapsed <= final(self).max,
    {
        match message {
            Message::Tick(now) => {
                let since_start = now.saturating_sub(self.start);
                self.elapsed = if since_start <= self.max {
                    since_start
                } else {
                    self.max
                };
            },
            Message::SliderChanged(max) => {
                self.max = max;
            },
            Message::ButtonPressed(now) => {
                self.start = now;
                self.elapsed = 0;
            },
        }
    }
}

/// The messages that report the clock readings `readings`, in order.
pub open spec fn ticks(readings: Seq<u64>) -> Seq<Message> {
    Seq::new(readings.len(), |i: int| Message::Tick(readings[i]))
}

/// Ticks change neither the start nor the duration, and after at least one
/// of them the timer shows the time from its start to the last reading,
/// capped at the duration.
pub proof fn lemma_ticks_show_capped_time(timer: Timer, readings: Seq<u64>)
    ensures
        timer.run(ticks(readings)).start == timer.start,
        timer.run(ticks(readings)).max == timer.max,
        readings.len() > 0 ==> timer.run(ticks(readings)).elapsed == capped_elapsed(
            timer.start as int,
            readings.last() as int,
            timer.max as int,
        ),
    decreases readings.len(),
{
    if readings.len() > 0 {
        assert(ticks(readings).drop_last() =~= ticks(readings.drop_last()));
        assert(ticks(readings).last() == Message::Tick(readings.last()));
        lemma_ticks_show_capped_time(timer, readings.drop_last());
    }
}

/// After a reset and any number of ticks, the timer shows the time that has
/// passed since the reset while that is within the duration, and the
/// duration from then on: it never shows more.
pub proof fn lemma_elapsed_since_reset(timer: Timer, reset_at: u64, readings: Seq<u64>)
    requires
        readings.len() > 0,
        reset_at <= readings.last(),
    ensures
        ({
            let passed = readings.last() - reset_at;
            let shown = timer.next(Message::ButtonPressed(reset_at)).run(ticks(readings)).elapsed;
            &&& passed <= timer.max ==> shown == passed
            &&& passed >= timer.max ==> shown == timer.max
            &&& shown <= timer.max
        }),
{
    lemma_ticks_show_capped_time(timer.next(Message::ButtonPressed(reset_at)), readings);
}

/// Moving the slider to a duration above the elapsed time lets the elapsed
/// time rise again at the next tick, from the same start: it follows the
/// clock up to the new duration.
pub proof fn lemma_longer_duration_resumes(timer: Timer, max: u64, now: u64)
    requires
        timer.elapsed < max,
        timer.start <= now,
        timer.elapsed < now - timer.start,
    ensures
        ({
            let after = timer.next(Message::SliderChanged(max)).next(Message::Tick(now));
            &&& after.start == timer.start
            &&& after.elapsed > timer.elapsed
            &&& after.elapsed == capped_elapsed(timer.start as int, now as int, max as int)
        }),
{
}

} // verus!
