//! The spaced-repetition scheduler: stages, their names, review intervals and
//! what a review does to an item.
//!
//! An item climbs one stage for each correct answer, up to stage 9
//! ("Burned"), and falls back after a wrong one, never below stage 1. Times
//! are nanoseconds since the Unix epoch (UTC).
use vstd::prelude::*;

use crate::clock::{utc_now_nanos, MAX_CLOCK_NANOS, MIN_CLOCK_NANOS};

verus! {

/// The lowest stage: a new item starts here and no wrong answer drops below it.
pub const FIRST_STAGE: i64 = 1i64;

/// The highest stage ("Burned"): an item that reaches it is no longer reviewed.
pub const BURNED_STAGE: i64 = 9i64;

/// Nanoseconds in an hour.
pub const NANOS_PER_HOUR: i128 = 3_600_000_000_000i128;

/// Nanoseconds in a day.
pub const NANOS_PER_DAY: i128 = 86_400_000_000_000i128;

/// Nanoseconds in a week.
pub const NANOS_PER_WEEK: i128 = 604_800_000_000_000i128;

/// One question that a user reviews, with its place in the scheduler.
#[derive(Clone, Copy, Debug)]
pub struct SrsItem {
    pub id: i64,
    pub question_id: i64,
    pub user_id: i64,
    pub srs_stage: i64,
    pub incorrect_count: i64,
    /// When the item is next due, in nanoseconds since the Unix epoch.
    pub next_review_date: i128,
    pub created_at: i128,
    pub updated_at: i128,
}

/// The record of one review: whether it was answered correctly and how it
/// moved the item.
#[derive(Clone, Copy, Debug)]
pub struct SrsReview {
    pub id: i64,
    pub srs_item_id: i64,
    pub is_correct: bool,
    pub previous_stage: i64,
    pub new_stage: i64,
    pub review_date: i128,
}

/// How many items of a user stand at each stage.
#[derive(Clone, Copy, Debug)]
pub struct SrsStats {
    pub total_items: i64,
    pub apprentice_1: i64,
    pub apprentice_2: i64,
    pub apprentice_3: i64,
    pub apprentice_4: i64,
    pub guru_1: i64,
    pub guru_2: i64,
    pub master: i64,
    pub enlightened: i64,
    pub burned: i64,
}

/// The rules of the spaced-repetition system.
pub struct SrsSystem {}

/// `n / 2` rounded up, for every integer `n`.
pub open spec fn ceil_half(n: int) -> int {
    (n + 1) / 2
}

/// How hard a wrong answer weighs: twice as much from stage 5 ("Guru") up.
pub open spec fn penalty_factor(stage: int) -> int {
    if stage >= 5 {
        2
    } else {
        1
    }
}

/// How many stages a wrong answer costs, given the number of wrong answers
/// counted so far (this one included).
pub open spec fn penalty(stage: int, incorrect_count: int) -> int {
    ceil_half(incorrect_count) * penalty_factor(stage)
}

/// The stage after a review: one up after a correct answer, capped at 9;
/// after a wrong one, down by the penalty, floored at 1.
pub open spec fn next_stage(stage: int, is_correct: bool, incorrect_count: int) -> int {
    if is_correct {
        if stage + 1 <= 9 {
            stage + 1
        } else {
            9
        }
    } else {
        let lowered = stage - penalty(stage, incorrect_count);
        if lowered >= 1 {
            lowered
        } else {
            1
        }
    }
}

/// Whether the intermediate values of `next_stage` fit in an `i64`.
pub open spec fn next_stage_fits(stage: int, is_correct: bool, incorrect_count: int) -> bool {
    if is_correct {
        stage + 1 <= i64::MAX
    } else {
        &&& i64::MIN <= penalty(stage, incorrect_count) <= i64::MAX
        &&& i64::MIN <= stage - penalty(stage, incorrect_count) <= i64::MAX
    }
}

/// The name of a stage.
pub open spec fn stage_name(stage: int) -> Seq<char> {
    if stage == 1 {
        "Apprentice 1"@
    } else if stage == 2 {
        "Apprentice 2"@
    } else if stage == 3 {
        "Apprentice 3"@
    } else if stage == 4 {
        "Apprentice 4"@
    } else if stage == 5 {
        "Guru 1"@
    } else if stage == 6 {
        "Guru 2"@
    } else if stage == 7 {
        "Master"@
    } else if stage == 8 {
        "Enlightened"@
    } else if stage == 9 {
        "Burned"@
    } else {
        "Unknown"@
    }
}

/// How long after a review an item at `stage` is due again, in
/// nanoseconds: 4 and 8 hours, 1 and 2 days, 1, 2, 4 and 16 weeks for
/// stages 1 to 8, ten years (520 weeks) for a burned item, and 4 hours for
/// any other stage.
pub open spec fn review_interval(stage: int) -> int {
    if stage == 1 {
        4 * NANOS_PER_HOUR
    } else if stage == 2 {
        8 * NANOS_PER_HOUR
    } else if stage == 3 {
        NANOS_PER_DAY as int
    } else if stage == 4 {
        2 * NANOS_PER_DAY
    } else if stage == 5 {
        NANOS_PER_WEEK as int
    } else if stage == 6 {
        2 * NANOS_PER_WEEK
    } else if stage == 7 {
        4 * NANOS_PER_WEEK
    } else if stage == 8 {
        16 * NANOS_PER_WEEK
    } else if stage == 9 {
        520 * NANOS_PER_WEEK
    } else {
        4 * NANOS_PER_HOUR
    }
}

/// The item after a review answered at time `now`: the wrong-answer count
/// grows by one after a wrong answer, the stage moves by `next_stage`, the
/// item is due again one interval of its new stage after `now`, and its
/// update time is `now`.
pub open spec fn reviewed_item(item: SrsItem, is_correct: bool, now: int) -> SrsItem {
    let count = if is_correct {
        item.incorrect_count as int
    } else {
        item.incorrect_count + 1
    };
    let stage = next_stage(item.srs_stage as int, is_correct, count);
    SrsItem {
        srs_stage: stage as i64,
        incorrect_count: count as i64,
        next_review_date: (now + review_interval(stage)) as i128,
        updated_at: now as i128,
        ..item
    }
}

/// The item that a user meets for the first time at time `now`: stage 1,
/// no wrong answers, due one interval of stage 1 after `now`, created and
/// updated at `now`.
pub open spec fn fresh_item(id: i64, question_id: i64, user_id: i64, now: int) -> SrsItem {
    SrsItem {
        id,
        question_id,
        user_id,
        srs_stage: FIRST_STAGE,
        incorrect_count: 0,
        next_review_date: (now + review_interval(FIRST_STAGE as int)) as i128,
        created_at: now as i128,
        updated_at: now as i128,
    }
}

/// Whether a review of `item` at time `now` can be computed: the stage and
/// the count in `i64`, the due date in `i128`.
pub open spec fn review_fits(item: SrsItem, is_correct: bool, now: int) -> bool {
    let count = if is_correct {
        item.incorrect_count as int
    } else {
        item.incorrect_count + 1
    };
    &&& count <= i64::MAX
    &&& next_stage_fits(item.srs_stage as int, is_correct, count)
    &&& i128::MIN <= now + review_interval(next_stage(item.srs_stage as int, is_correct, count))
        <= i128::MAX
}

/// `n / 2` rounded up.
fn ceil_half_i64(n: i64) -> (r: i64)
    ensures
        r == ceil_half(n as int),
{
    if n >= 0 {
        n / 2 + n % 2
    } else {
        let m: i128 = -(n as i128);
        let half: i128 = m / 2;
        (-half) as i64
    }
}

impl SrsSystem {
    /// The stage of an item after a review. `incorrect_count` counts the
    /// wrong answers so far, this one included.
    pub fn calculate_next_stage(current_stage: i64, is_correct: bool, incorrect_count: i64) -> (r:
        i64)
        requires
            next_stage_fits(current_stage as int, is_correct, incorrect_count as int),
        ensures
            r == next_stage(current_stage as int, is_correct, incorrect_count as int),
    {
        if is_correct {
            let raised = current_stage + 1;
            if raised <= BURNED_STAGE {
                raised
            } else {
                BURNED_STAGE
            }
        } else {
            let adjustment = ceil_half_i64(incorrect_count);
            let factor: i64 = if current_stage >= 5 {
                2
            } else {
                1
            };
            let penalty = adjustment * factor;
            let lowered = current_stage - penalty;
            if lowered >= FIRST_STAGE {
                lowered
            } else {
                FIRST_STAGE
            }
        }
    }

    /// How long after a review an item at `stage` is due again, in
    /// nanoseconds.
    pub fn review_interval_nanos(stage: i64) -> (r: i128)
        ensures
            r == review_interval(stage as int),
    {
        match stage {
            1 => 4 * NANOS_PER_HOUR,
            2 => 8 * NANOS_PER_HOUR,
            3 => NANOS_PER_DAY,
            4 => 2 * NANOS_PER_DAY,
            5 => NANOS_PER_WEEK,
            6 => 2 * NANOS_PER_WEEK,
            7 => 4 * NANOS_PER_WEEK,
            8 => 16 * NANOS_PER_WEEK,
            9 => 520 * NANOS_PER_WEEK,
            _ => 4 * NANOS_PER_HOUR,
        }
    }

    /// When an item that reaches `stage` at time `now` is due again.
    pub fn next_review_date_at(now: i128, stage: i64) -> (r: i128)
        requires
            i128::MIN <= now + review_interval(stage as int) <= i128::MAX,
        ensures
            r == now + review_interval(stage as int),
    {
        now + Self::review_interval_nanos(stage)
    }

    /// When an item that reaches `stage` now is due again: the clock's
    /// reading plus the interval of `stage`.
    pub fn calculate_next_review_date(stage: i64) -> (r: i128)
        ensures
            MIN_CLOCK_NANOS <= r - review_interval(stage as int) <= MAX_CLOCK_NANOS,
    {
        let now = utc_now_nanos();
        Self::next_review_date_at(now, stage)
    }

    /// The name of a stage.
    pub fn get_stage_name(stage: i64) -> (r: &'static str)
        ensures
            r@ == stage_name(stage as int),
    {
        match stage {
            1 => "Apprentice 1",
            2 => "Apprentice 2",
            3 => "Apprentice 3",
            4 => "Apprentice 4",
            5 => "Guru 1",
            6 => "Guru 2",
            7 => "Master",
            8 => "Enlightened",
            9 => "Burned",
            _ => "Unknown",
        }
    }

    /// The item with id `id` that the user `user_id` meets for the first
    /// time at `now`, on question `question_id`.
    pub fn new_item(id: i64, question_id: i64, user_id: i64, now: i128) -> (r: SrsItem)
        requires
            now + review_interval(FIRST_STAGE as int) <= i128::MAX,
        ensures
            r == fresh_item(id, question_id, user_id, now as int),
    {
        SrsItem {
            id,
            question_id,
            user_id,
            srs_stage: FIRST_STAGE,
            incorrect_count: 0,
            next_review_date: Self::next_review_date_at(now, FIRST_STAGE),
            created_at: now,
            updated_at: now,
        }
    }

    /// The item after a review answered at time `now`.
    pub fn apply_review(item: &SrsItem, is_correct: bool, now: i128) -> (r: SrsItem)
        requires
            review_fits(*item, is_correct, now as int),
        ensures
            r == reviewed_item(*item, is_correct, now as int),
    {
        let incorrect_count = if is_correct {
            item.incorrect_count
        } else {
            item.incorrect_count + 1
        };
        let stage = Self::calculate_next_stage(item.srs_stage, is_correct, incorrect_count);
        let next_review_date = Self::next_review_date_at(now, stage);
        SrsItem {
            srs_stage: stage,
            incorrect_count,
            next_review_date,
            updated_at: now,
            ..*item
        }
    }

    /// The item after a review answered at time `now`, or nothing when the
    /// review's arithmetic does not fit.
    pub fn checked_review(item: &SrsItem, is_correct: bool, now: i128) -> (r: Option<SrsItem>)
        ensures
            r is Some <==> review_fits(*item, is_correct, now as int),
            r matches Some(reviewed) ==> reviewed == reviewed_item(*item, is_correct, now as int),
    {
        let count: i128 = if is_correct {
            item.incorrect_count as i128
        } else {
            item.incorrect_count as i128 + 1
        };
        if count > i64::MAX as i128 {
            return None;
        }
        let stage = item.srs_stage as i128;
        let next: i128 = if is_correct {
            if stage + 1 > i64::MAX as i128 {
                return None;
            }
            if stage + 1 <= 9 {
                stage + 1
            } else {
                9
            }
        } else {
            let adjustment = ceil_half_i64(count as i64) as i128;
            let factor: i128 = if stage >= 5 {
                2
            } else {
                1
            };
            let penalty = adjustment * factor;
            if penalty > i64::MAX as i128 || penalty < i64::MIN as i128 {
                return None;
            }
            let lowered = stage - penalty;
            if lowered > i64::MAX as i128 || lowered < i64::MIN as i128 {
                return None;
            }
            if lowered >= 1 {
                lowered
            } else {
                1
            }
        };
        assert(next == next_stage(item.srs_stage as int, is_correct, count as int));
        let interval = Self::review_interval_nanos(next as i64);
        if now > i128::MAX - interval {
            return None;
        }
        Some(Self::apply_review(item, is_correct, now))
    }
}

} // verus!

verus! {

/// A stage between 1 and 9 stays between 1 and 9 after any review whose
/// wrong-answer count is not negative: capped at 9 ("Burned"), floored at 1.
pub proof fn lemma_next_stage_in_range(stage: int, is_correct: bool, incorrect_count: int)
    requires
        FIRST_STAGE <= stage <= BURNED_STAGE,
        incorrect_count >= 0,
    ensures
        FIRST_STAGE <= next_stage(stage, is_correct, incorrect_count) <= BURNED_STAGE,
{
}

/// A correct answer raises a stage below 9 by exactly one, and keeps a
/// burned item burned.
pub proof fn lemma_correct_answer_raises(stage: int, incorrect_count: int)
    requires
        stage <= BURNED_STAGE,
    ensures
        stage < BURNED_STAGE ==> next_stage(stage, true, incorrect_count) == stage + 1,
        stage == BURNED_STAGE ==> next_stage(stage, true, incorrect_count) == BURNED_STAGE,
{
}

/// A wrong answer never raises the stage of an item, and never leaves it
/// below stage 1.
pub proof fn lemma_wrong_answer_never_raises(stage: int, incorrect_count: int)
    requires
        stage >= FIRST_STAGE,
        incorrect_count >= 0,
    ensures
        FIRST_STAGE <= next_stage(stage, false, incorrect_count) <= stage,
{
}

/// Every interval is positive, and a higher stage (between 1 and 9) waits
/// at least as long as a lower one.
pub proof fn lemma_review_intervals_grow(lower: int, higher: int)
    requires
        FIRST_STAGE <= lower <= higher <= BURNED_STAGE,
    ensures
        0 < review_interval(lower) <= review_interval(higher),
{
}

/// After a review the wrong-answer count grows by one exactly when the
/// answer was wrong, and the item is due strictly later than the review.
pub proof fn lemma_review_effects(item: SrsItem, is_correct: bool, now: i128)
    requires
        review_fits(item, is_correct, now as int),
    ensures
        reviewed_item(item, is_correct, now as int).incorrect_count == item.incorrect_count + if is_correct {
            0int
        } else {
            1int
        },
        reviewed_item(item, is_correct, now as int).next_review_date > now,
        reviewed_item(item, is_correct, now as int).updated_at == now,
        reviewed_item(item, is_correct, now as int).id == item.id,
        reviewed_item(item, is_correct, now as int).question_id == item.question_id,
        reviewed_item(item, is_correct, now as int).user_id == item.user_id,
        reviewed_item(item, is_correct, now as int).created_at == item.created_at,
{
}

} // verus!

verus! {

/// The stage after a review, with the arithmetic written out. A correct
/// answer gives `min(s + 1, 9)`. A wrong answer, counted as the `c`-th
/// (`c >= 0`), costs `ceil(c / 2)` stages below stage 5 ("Guru") and
/// `2 * ceil(c / 2)` stages from stage 5 up, and never leaves the item
/// below stage 1.
pub proof fn lemma_stage_arithmetic(s: int, c: int)
    requires
        c >= 0,
    ensures
        s + 1 <= 9 ==> next_stage(s, true, c) == s + 1,
        s + 1 > 9 ==> next_stage(s, true, c) == 9,
        s >= 5 && s - 2 * ((c + 1) / 2) >= 1 ==> next_stage(s, false, c) == s - 2 * ((c + 1) / 2),
        s >= 5 && s - 2 * ((c + 1) / 2) < 1 ==> next_stage(s, false, c) == 1,
        s < 5 && s - (c + 1) / 2 >= 1 ==> next_stage(s, false, c) == s - (c + 1) / 2,
        s < 5 && s - (c + 1) / 2 < 1 ==> next_stage(s, false, c) == 1,
        s >= 5 ==> penalty_factor(s) == 2,
        s < 5 ==> penalty_factor(s) == 1,
        c % 2 == 0 ==> (c + 1) / 2 == c / 2,
        c % 2 == 1 ==> (c + 1) / 2 == c / 2 + 1,
{
}

/// A wrong answer from stage 5 up costs exactly twice what it costs below
/// stage 5, before the floor at stage 1: from two stages that both stay
/// above the floor, the loss at the higher one is double the loss at the
/// lower one.
pub proof fn lemma_guru_penalty_doubles(low: int, high: int, c: int)
    requires
        1 <= low < 5 <= high,
        c >= 0,
        next_stage(low, false, c) > 1,
        next_stage(high, false, c) > 1,
    ensures
        high - next_stage(high, false, c) == 2 * (low - next_stage(low, false, c)),
{
}

/// The names of the stages: Apprentice 1 to 4, Guru 1 and 2, Master,
/// Enlightened, Burned for stages 1 to 9, and "Unknown" for any other.
pub proof fn lemma_stage_names(s: int)
    ensures
        s == 1 ==> stage_name(s) == "Apprentice 1"@,
        s == 2 ==> stage_name(s) == "Apprentice 2"@,
        s == 3 ==> stage_name(s) == "Apprentice 3"@,
        s == 4 ==> stage_name(s) == "Apprentice 4"@,
        s == 5 ==> stage_name(s) == "Guru 1"@,
        s == 6 ==> stage_name(s) == "Guru 2"@,
        s == 7 ==> stage_name(s) == "Master"@,
        s == 8 ==> stage_name(s) == "Enlightened"@,
        s == 9 ==> stage_name(s) == "Burned"@,
        (s < 1 || s > 9) ==> stage_name(s) == "Unknown"@,
{
}

/// The intervals, in hours: 4, 8, 24, 48 for the Apprentice stages, one,
/// two, four and sixteen weeks for Guru 1 to Enlightened, 520 weeks for a
/// burned item, and 4 hours for a stage outside 1 to 9. Each stage from 1 to
/// 9 waits strictly longer than the one before.
pub proof fn lemma_interval_table(s: int)
    ensures
        s == 1 ==> review_interval(s) == 4 * 3_600_000_000_000,
        s == 2 ==> review_interval(s) == 8 * 3_600_000_000_000,
        s == 3 ==> review_interval(s) == 24 * 3_600_000_000_000,
        s == 4 ==> review_interval(s) == 48 * 3_600_000_000_000,
        s == 5 ==> review_interval(s) == 7 * 24 * 3_600_000_000_000,
        s == 6 ==> review_interval(s) == 14 * 24 * 3_600_000_000_000,
        s == 7 ==> review_interval(s) == 28 * 24 * 3_600_000_000_000,
        s == 8 ==> review_interval(s) == 112 * 24 * 3_600_000_000_000,
        s == 9 ==> review_interval(s) == 520 * 7 * 24 * 3_600_000_000_000,
        (s < 1 || s > 9) ==> review_interval(s) == 4 * 3_600_000_000_000,
        1 <= s < 9 ==> review_interval(s) < review_interval(s + 1),
{
}

/// A review at `now` writes the new stage, the new count and the due date
/// `now` plus the interval of the new stage, and nothing else but the
/// update time: with the wrong-answer count written out.
pub proof fn lemma_review_written_out(item: SrsItem, is_correct: bool, now: i128)
    requires
        review_fits(item, is_correct, now as int),
    ensures
        ({
            let c = if is_correct {
                item.incorrect_count as int
            } else {
                item.incorrect_count + 1
            };
            let r = reviewed_item(item, is_correct, now as int);
            &&& r.incorrect_count == c
            &&& r.srs_stage == next_stage(item.srs_stage as int, is_correct, c)
            &&& r.next_review_date == now + review_interval(r.srs_stage as int)
            &&& r.updated_at == now
            &&& r.created_at == item.created_at
            &&& r.id == item.id
            &&& r.question_id == item.question_id
            &&& r.user_id == item.user_id
        }),
{
}

} // verus!

verus! {

/// A new item starts at stage 1 with no wrong answers, is created and
/// updated at `now`, and is due 4 hours after `now`.
pub proof fn lemma_fresh_item_written_out(id: i64, question_id: i64, user_id: i64, now: i128)
    requires
        now + 4 * 3_600_000_000_000 <= i128::MAX,
    ensures
        ({
            let i = fresh_item(id, question_id, user_id, now as int);
            &&& i.id == id && i.question_id == question_id && i.user_id == user_id
            &&& i.srs_stage == 1
            &&& i.incorrect_count == 0
            &&& i.next_review_date == now + 4 * 3_600_000_000_000
            &&& i.created_at == now && i.updated_at == now
        }),
{
}

} // verus!
