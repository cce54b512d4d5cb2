//! Running score of a quiz session: guesses, streaks and response times.

use vstd::prelude::*;

verus! {

/// The score of a session. Durations are whole milliseconds; the mean response
/// time is kept as the running total of all recorded durations, so that it is
/// exact and needs no history.
#[derive(Clone, Copy, Debug, PartialEq, Eq, Structural)]
pub struct Stats {
    pub total_guesses: u32,
    pub correct_guesses: u32,
    pub current_streak: u32,
    pub best_streak: u32,
    pub last_duration_ms: u64,
    pub total_duration_ms: u64,
}

impl Stats {
    /// The counts agree with one another.
    pub open spec fn wf(&self) -> bool {
        &&& self.correct_guesses <= self.total_guesses
        &&& self.current_streak <= self.best_streak
        &&& self.best_streak <= self.correct_guesses
        &&& self.last_duration_ms <= self.total_duration_ms
        &&& self.total_guesses == 0 ==> self.total_duration_ms == 0
    }

    /// Whether one more guess taking `elapsed_ms` can be counted without overflow.
    pub open spec fn has_room_for(&self, elapsed_ms: u64) -> bool {
        &&& self.total_guesses < u32::MAX
        &&& self.total_duration_ms + elapsed_ms <= u64::MAX
    }

    /// The score before any guess.
    pub open spec fn empty() -> Stats {
        Stats {
            total_guesses: 0,
            correct_guesses: 0,
            current_streak: 0,
            best_streak: 0,
            last_duration_ms: 0,
            total_duration_ms: 0,
        }
    }

    /// A score with nothing recorded.
    pub fn new() -> (r: Stats)
        ensures
            r.wf(),
            r == Stats::empty(),
    {
        Stats {
            total_guesses: 0,
            correct_guesses: 0,
            current_streak: 0,
            best_streak: 0,
            last_duration_ms: 0,
            total_duration_ms: 0,
        }
    }

    /// The score after a correct guess that took `elapsed_ms`.
    pub open spec fn after_correct(self, elapsed_ms: u64) -> Stats {
        let streak = (self.current_streak + 1) as u32;
        Stats {
            total_guesses: (self.total_guesses + 1) as u32,
            correct_guesses: (self.correct_guesses + 1) as u32,
            current_streak: streak,
            best_streak: if streak > self.best_streak { streak } else { self.best_streak },
            last_duration_ms: elapsed_ms,
            total_duration_ms: (self.total_duration_ms + elapsed_ms) as u64,
        }
    }

    /// The score after a wrong guess that took `elapsed_ms`.
    pub open spec fn after_incorrect(self, elapsed_ms: u64) -> Stats {
        Stats {
            total_guesses: (self.total_guesses + 1) as u32,
            current_streak: 0,
            last_duration_ms: elapsed_ms,
            total_duration_ms: (self.total_duration_ms + elapsed_ms) as u64,
            ..self
        }
    }

    /// Records a correct guess that took `elapsed_ms`: one more guess, one more
    /// correct, the streak grows and the best streak follows it.
    pub fn increment_correct(&mut self, elapsed_ms: u64)
        requires
            old(self).wf(),
            old(self).has_room_for(elapsed_ms),
        ensures
            final(self).wf(),
            *final(self) == old(self).after_correct(elapsed_ms),
    {
        self.total_guesses = self.total_guesses + 1;
        self.correct_guesses = self.correct_guesses + 1;
        self.current_streak = self.current_streak + 1;
        if self.current_streak > self.best_streak {
            self.best_streak = self.current_streak;
        }
        self.update_durations(elapsed_ms);
    }

    /// Records a wrong guess that took `elapsed_ms`; the streak starts over.
    pub fn increment_incorrect(&mut self, elapsed_ms: u64)
        requires
            old(self).wf(),
            old(self).has_room_for(elapsed_ms),
        ensures
            final(self).wf(),
            *final(self) == old(self).after_incorrect(elapsed_ms),
    {
        self.total_guesses = self.total_guesses + 1;
        self.current_streak = 0;
        self.update_durations(elapsed_ms);
    }

    /// Takes in the duration of the guess just counted.
    fn update_durations(&mut self, elapsed_ms: u64)
        requires
            old(self).total_duration_ms + elapsed_ms <= u64::MAX,
        ensures
            *final(self) == (Stats {
                last_duration_ms: elapsed_ms,
                total_duration_ms: (old(self).total_duration_ms + elapsed_ms) as u64,
                ..*old(self)
            }),
    {
        self.last_duration_ms = elapsed_ms;
        self.total_duration_ms = self.total_duration_ms + elapsed_ms;
    }

    /// The mean response time in milliseconds, rounded down; 0 before any guess.
    pub fn avg_duration_ms(&self) -> (r: u64)
        ensures
            r == if self.total_guesses == 0 {
                0
            } else {
                self.total_duration_ms as int / self.total_guesses as int
            },
    {
        if self.total_guesses == 0 {
            0
        } else {
            self.total_duration_ms / (self.total_guesses as u64)
        }
    }

    /// The share of correct guesses in tenths of a percent, rounded down.
    pub fn accuracy_permille(&self) -> (r: u32)
        requires
            self.wf(),
            self.total_guesses > 0,
        ensures
            r == self.correct_guesses as int * 1000 / self.total_guesses as int,
            r <= 1000,
    {
        let scaled = (self.correct_guesses as u64) * 1000;
        let r = scaled / (self.total_guesses as u64);
        assert(r <= 1000) by (nonlinear_arith)
            requires
                r == scaled / (self.total_guesses as u64),
                scaled == self.correct_guesses as int * 1000,
                self.correct_guesses <= self.total_guesses,
                self.total_guesses > 0,
        ;
        r as u32
    }
}

impl Default for Stats {
    fn default() -> (r: Stats)
        ensures
            r == Stats::empty(),
    {
        Stats::new()
    }
}

/// Starting from any valid score, a wrong guess right after a right one ends
/// the streak, and the best streak keeps what the right guess reached; from an
/// empty score that best streak is 1.
pub proof fn lemma_wrong_after_right(s: Stats, right_ms: u64, wrong_ms: u64)
    requires
        s.wf(),
        s.has_room_for(right_ms),
        s.after_correct(right_ms).has_room_for(wrong_ms),
    ensures
        s.after_correct(right_ms).after_incorrect(wrong_ms).wf(),
        s.after_correct(right_ms).after_incorrect(wrong_ms).current_streak == 0,
        s.after_correct(right_ms).after_incorrect(wrong_ms).best_streak
            == s.after_correct(right_ms).best_streak,
        s.after_correct(right_ms).after_incorrect(wrong_ms).best_streak >= 1,
        s == Stats::empty() ==> s.after_correct(right_ms).after_incorrect(wrong_ms).best_streak == 1,
{
}

/// Every recorded guess keeps the score valid: no more correct guesses than
/// guesses, and the current streak never above the best one.
pub proof fn lemma_updates_keep_valid(s: Stats, elapsed_ms: u64)
    requires
        s.wf(),
        s.has_room_for(elapsed_ms),
    ensures
        s.after_correct(elapsed_ms).wf(),
        s.after_incorrect(elapsed_ms).wf(),
{
}

} // verus!
