//! The review schedule: how an answer moves a card's ease factor, its
//! interval and the day it is due again.
//!
//! The rule is SM-2. An answer is graded from 0 to 5. Every answer moves the
//! ease factor by `0.1 - (5 - q) * (0.08 + (5 - q) * 0.02)`, and the factor
//! never falls under 1.3. A grade under 3 is a failure: the card starts over
//! and is due the next day. A grade of 3 or more is a success: the first one
//! in a row makes the card due in one day, the second in six, and each one
//! after that multiplies the interval by the ease factor.
//!
//! Ease factors are counted in hundredths, so that the whole rule is integer
//! arithmetic. Where a count would pass what its field can hold it stays at
//! the largest value.

use crate::models::flashcard::{SRSData, MIN_EASE};
use crate::time::{Timestamp, MILLIS_PER_DAY};
use vstd::prelude::*;

verus! {

/// The lowest grade that counts as a success.
pub const PASSING_SCORE: u8 = 3;

/// How well a card was answered, from 0 to 5.
#[derive(Debug, Clone, Copy, PartialEq, Eq, Structural)]
pub enum Quality {
    /// 0: nothing came to mind.
    Blackout,
    /// 1: wrong, though the right answer was familiar once shown.
    Wrong,
    /// 2: wrong, though the right answer seemed easy once shown.
    NearMiss,
    /// 3: right, with serious difficulty.
    Hard,
    /// 4: right, after some hesitation.
    Good,
    /// 5: right at once.
    Perfect,
}

/// The outcome of a quiz question that is only marked right or wrong.
#[derive(Debug, Clone, Copy, PartialEq, Eq, Structural)]
pub enum ReviewOutcome {
    Correct,
    Incorrect,
}

impl Quality {
    /// The grade as a number from 0 to 5.
    pub open spec fn spec_score(self) -> int {
        match self {
            Quality::Blackout => 0,
            Quality::Wrong => 1,
            Quality::NearMiss => 2,
            Quality::Hard => 3,
            Quality::Good => 4,
            Quality::Perfect => 5,
        }
    }

    /// Whether the grade counts as a success.
    pub open spec fn spec_passes(self) -> bool {
        self.spec_score() >= PASSING_SCORE
    }

    /// The grade as a number from 0 to 5.
    pub fn score(self) -> (q: u8)
        ensures
            q == self.spec_score(),
            q <= 5,
    {
        match self {
            Quality::Blackout => 0,
            Quality::Wrong => 1,
            Quality::NearMiss => 2,
            Quality::Hard => 3,
            Quality::Good => 4,
            Quality::Perfect => 5,
        }
    }

    /// The grade for a number; `None` for a number above 5.
    pub fn from_score(q: u8) -> (quality: Option<Quality>)
        ensures
            quality is Some <==> q <= 5,
            quality matches Some(grade) ==> grade.spec_score() == q,
    {
        if q == 0 {
            Some(Quality::Blackout)
        } else if q == 1 {
            Some(Quality::Wrong)
        } else if q == 2 {
            Some(Quality::NearMiss)
        } else if q == 3 {
            Some(Quality::Hard)
        } else if q == 4 {
            Some(Quality::Good)
        } else if q == 5 {
            Some(Quality::Perfect)
        } else {
            None
        }
    }

    /// Whether the grade counts as a success.
    pub fn passes(self) -> (b: bool)
        ensures
            b == self.spec_passes(),
    {
        self.score() >= PASSING_SCORE
    }
}

impl ReviewOutcome {
    /// The grade of a right or wrong answer: 5 for right, 2 for wrong.
    pub open spec fn spec_quality(self) -> Quality {
        match self {
            ReviewOutcome::Correct => Quality::Perfect,
            ReviewOutcome::Incorrect => Quality::NearMiss,
        }
    }

    /// The grade of a right or wrong answer: 5 for right, 2 for wrong.
    pub fn quality(self) -> (q: Quality)
        ensures
            q == self.spec_quality(),
    {
        match self {
            ReviewOutcome::Correct => Quality::Perfect,
            ReviewOutcome::Incorrect => Quality::NearMiss,
        }
    }
}

/// By how many hundredths a grade of `q` moves the ease factor:
/// `0.1 - (5 - q) * (0.08 + (5 - q) * 0.02)`, times one hundred.
pub open spec fn ease_change(q: int) -> int {
    10 - (5 - q) * (8 + (5 - q) * 2)
}

/// The ease factor after a grade of `q`, in hundredths: moved by the change
/// for `q`, and not under the floor.
pub open spec fn next_ease(ease: int, q: int) -> int {
    let moved = ease + ease_change(q);
    if moved < MIN_EASE {
        MIN_EASE as int
    } else if moved > u32::MAX {
        u32::MAX as int
    } else {
        moved
    }
}

/// `interval` times an ease factor given in hundredths, rounded to the
/// nearest whole number of days, halves upwards.
pub open spec fn scaled_interval(interval: int, ease: int) -> int {
    (interval * ease + 50) / 100
}

/// The repetition count after a grade: zero after a failure, one more after
/// a success.
pub open spec fn next_repetitions(repetitions: int, quality: Quality) -> int {
    if !quality.spec_passes() {
        0
    } else if repetitions + 1 > u32::MAX {
        u32::MAX as int
    } else {
        repetitions + 1
    }
}

/// The interval in days after a grade, given the repetition count and the
/// ease factor that the grade led to.
pub open spec fn next_interval(
    interval: int,
    quality: Quality,
    repetitions_after: int,
    ease_after: int,
) -> int {
    if !quality.spec_passes() {
        1
    } else if repetitions_after == 1 {
        1
    } else if repetitions_after == 2 {
        6
    } else if scaled_interval(interval, ease_after) > u32::MAX {
        u32::MAX as int
    } else {
        scaled_interval(interval, ease_after)
    }
}

/// The state of a card after it was answered with `quality` at `now`.
pub open spec fn next_state(state: SRSData, quality: Quality, now: Timestamp) -> SRSData {
    let ease = next_ease(state.ease_factor as int, quality.spec_score());
    let repetitions = next_repetitions(state.repetitions as int, quality);
    let interval = next_interval(state.interval as int, quality, repetitions, ease);
    SRSData {
        ease_factor: ease as u32,
        interval: interval as u32,
        repetitions: repetitions as u32,
        next_review: now.spec_plus_days(interval),
        is_new: false,
    }
}

/// The change of the ease factor for each of the six grades, in hundredths:
/// only a perfect answer raises the factor, and a good one leaves it as it is.
pub proof fn lemma_ease_change_by_grade()
    ensures
        ease_change(0) == -80,
        ease_change(1) == -54,
        ease_change(2) == -32,
        ease_change(3) == -14,
        ease_change(4) == 0,
        ease_change(5) == 10,
{
    assert(ease_change(0) == -80) by (nonlinear_arith);
    assert(ease_change(1) == -54) by (nonlinear_arith);
    assert(ease_change(2) == -32) by (nonlinear_arith);
    assert(ease_change(3) == -14) by (nonlinear_arith);
    assert(ease_change(4) == 0) by (nonlinear_arith);
    assert(ease_change(5) == 10) by (nonlinear_arith);
}

/// The hundredths by which a grade moves the ease factor.
fn ease_step(quality: Quality) -> (change: i64)
    ensures
        change == ease_change(quality.spec_score()),
        -80 <= change <= 10,
{
    proof {
        lemma_ease_change_by_grade();
    }
    match quality {
        Quality::Blackout => -80,
        Quality::Wrong => -54,
        Quality::NearMiss => -32,
        Quality::Hard => -14,
        Quality::Good => 0,
        Quality::Perfect => 10,
    }
}

/// An interval multiplied by an ease factor in hundredths and rounded, held
/// at the largest count of days where the product passes it.
fn scale(interval: u32, ease: u32) -> (days: u32)
    ensures
        days == if scaled_interval(interval as int, ease as int) > u32::MAX {
            u32::MAX as int
        } else {
            scaled_interval(interval as int, ease as int)
        },
{
    assert(interval * ease <= 0xFFFF_FFFF * 0xFFFF_FFFF) by (nonlinear_arith)
        requires
            interval <= 0xFFFF_FFFF,
            ease <= 0xFFFF_FFFF,
    ;
    let product: u64 = (interval as u64) * (ease as u64);
    let rounded: u64 = (product + 50) / 100;
    if rounded > u32::MAX as u64 {
        u32::MAX
    } else {
        rounded as u32
    }
}

/// Computes the state of a card after it was answered with `quality` at
/// `now`. Every state and every grade has exactly one next state: the
/// schedule reads no clock and draws no number.
pub fn schedule(state: &SRSData, quality: Quality, now: Timestamp) -> (next: SRSData)
    ensures
        next == next_state(*state, quality, now),
        next.ease_factor >= MIN_EASE,
        next.spec_is_valid(),
        !next.is_new,
{
    let moved: i64 = state.ease_factor as i64 + ease_step(quality);
    let ease: u32 = if moved < MIN_EASE as i64 {
        MIN_EASE
    } else if moved > u32::MAX as i64 {
        u32::MAX
    } else {
        moved as u32
    };
    if !quality.passes() {
        SRSData {
            ease_factor: ease,
            interval: 1,
            repetitions: 0,
            next_review: now.plus_days(1),
            is_new: false,
        }
    } else {
        let repetitions: u32 = if state.repetitions == u32::MAX {
            u32::MAX
        } else {
            state.repetitions + 1
        };
        let interval: u32 = if repetitions == 1 {
            1
        } else if repetitions == 2 {
            6
        } else {
            scale(state.interval, ease)
        };
        SRSData {
            ease_factor: ease,
            interval,
            repetitions,
            next_review: now.plus_days(interval),
            is_new: false,
        }
    }
}

/// Computes the state of a card after a question that was only marked right
/// or wrong.
pub fn review(state: &SRSData, outcome: ReviewOutcome, now: Timestamp) -> (next: SRSData)
    ensures
        next == next_state(*state, outcome.spec_quality(), now),
        next.ease_factor >= MIN_EASE,
        !next.is_new,
{
    schedule(state, outcome.quality(), now)
}

/// After any review the ease factor is at least 1.3, and the card is no
/// longer new.
pub proof fn lemma_ease_has_floor(state: SRSData, quality: Quality, now: Timestamp)
    ensures
        next_state(state, quality, now).ease_factor >= MIN_EASE,
        !next_state(state, quality, now).is_new,
{
}

/// A failed review starts the card over, whatever its state was: no
/// repetitions, an interval of one day, due one day after the review. The
/// ease factor does not rise.
pub proof fn lemma_failure_resets(state: SRSData, quality: Quality, now: Timestamp)
    requires
        !quality.spec_passes(),
    ensures
        next_state(state, quality, now).repetitions == 0,
        next_state(state, quality, now).interval == 1,
        next_state(state, quality, now).next_review == now.spec_plus_days(1),
        next_state(state, quality, now).ease_factor <= state.ease_factor
            || next_state(state, quality, now).ease_factor == MIN_EASE,
{
    lemma_ease_change_by_grade();
}

/// A successful review adds exactly one repetition, as long as the count
/// still fits.
pub proof fn lemma_success_counts(state: SRSData, quality: Quality, now: Timestamp)
    requires
        quality.spec_passes(),
        state.repetitions < u32::MAX,
    ensures
        next_state(state, quality, now).repetitions == state.repetitions + 1,
{
}

/// After a successful review the interval is at least one day and the card
/// is due strictly later than the review. This leaves out a card with two or
/// more repetitions and an interval of zero days, which no review produces
/// and whose interval stays zero, and a review at the last representable
/// point in time.
pub proof fn lemma_success_postpones(state: SRSData, quality: Quality, now: Timestamp)
    requires
        quality.spec_passes(),
        state.repetitions < 2 || state.interval >= 1,
        now.millis < i64::MAX,
    ensures
        next_state(state, quality, now).interval >= 1,
        next_state(state, quality, now).next_review.millis > now.millis,
{
    let ease = next_ease(state.ease_factor as int, quality.spec_score());
    let repetitions = next_repetitions(state.repetitions as int, quality);
    let interval = next_interval(state.interval as int, quality, repetitions, ease);
    if repetitions != 1 && repetitions != 2 {
        assert(state.interval >= 1);
        assert(state.interval * ease >= 130) by (nonlinear_arith)
            requires
                state.interval >= 1,
                ease >= 130,
        ;
        assert(scaled_interval(state.interval as int, ease) >= 1);
    }
    assert(interval >= 1);
    assert(interval * MILLIS_PER_DAY >= MILLIS_PER_DAY) by (nonlinear_arith)
        requires
            interval >= 1,
    ;
}

/// A card that is reviewed from its first state on always satisfies what
/// [`lemma_success_postpones`] asks: after any review, a card with
/// repetitions has an interval of at least one day.
pub proof fn lemma_interval_follows_repetitions(state: SRSData, quality: Quality, now: Timestamp)
    requires
        state.repetitions >= 1 ==> state.interval >= 1,
    ensures
        next_state(state, quality, now).repetitions >= 1 ==> next_state(
            state,
            quality,
            now,
        ).interval >= 1,
        next_state(state, quality, now).interval >= 1,
{
    let ease = next_ease(state.ease_factor as int, quality.spec_score());
    let repetitions = next_repetitions(state.repetitions as int, quality);
    if quality.spec_passes() && repetitions != 1 && repetitions != 2 {
        assert(state.interval * ease >= 130) by (nonlinear_arith)
            requires
                state.interval >= 1,
                ease >= 130,
        ;
    }
}

} // verus!
