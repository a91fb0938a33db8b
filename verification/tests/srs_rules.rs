use quiz_srs::clock::{utc_now_nanos, MAX_CLOCK_NANOS, MIN_CLOCK_NANOS};
use quiz_srs::srs::{
    SrsItem, SrsSystem, NANOS_PER_DAY, NANOS_PER_HOUR, NANOS_PER_WEEK,
};

#[test]
fn test_calculate_next_stage_correct() {
    assert_eq!(SrsSystem::calculate_next_stage(1, true, 0), 2);
    assert_eq!(SrsSystem::calculate_next_stage(8, true, 0), 9);
    assert_eq!(SrsSystem::calculate_next_stage(9, true, 0), 9); // Cap at 9
}

#[test]
fn test_calculate_next_stage_incorrect() {
    // Stage 4, incorrect once
    assert_eq!(SrsSystem::calculate_next_stage(4, false, 1), 3);

    // Stage 6, incorrect 3 times (penalty = ceil(3/2) * 2 = 4)
    assert_eq!(SrsSystem::calculate_next_stage(6, false, 3), 2);

    // Stage 1, incorrect (floor at 1)
    assert_eq!(SrsSystem::calculate_next_stage(1, false, 1), 1);
}

#[test]
fn test_stage_names() {
    assert_eq!(SrsSystem::get_stage_name(1), "Apprentice 1");
    assert_eq!(SrsSystem::get_stage_name(5), "Guru 1");
    assert_eq!(SrsSystem::get_stage_name(9), "Burned");
}

#[test]
fn every_stage_has_its_name() {
    let names = [
        (0, "Unknown"),
        (1, "Apprentice 1"),
        (2, "Apprentice 2"),
        (3, "Apprentice 3"),
        (4, "Apprentice 4"),
        (5, "Guru 1"),
        (6, "Guru 2"),
        (7, "Master"),
        (8, "Enlightened"),
        (9, "Burned"),
        (10, "Unknown"),
        (-3, "Unknown"),
    ];
    for (stage, name) in names {
        assert_eq!(SrsSystem::get_stage_name(stage), name);
    }
}

#[test]
fn wrong_answer_penalty_rounds_half_up_and_doubles_from_guru() {
    // ceil(0/2) = 0: no penalty
    assert_eq!(SrsSystem::calculate_next_stage(4, false, 0), 4);
    // ceil(2/2) = 1, below stage 5
    assert_eq!(SrsSystem::calculate_next_stage(4, false, 2), 3);
    // ceil(5/2) = 3, below stage 5
    assert_eq!(SrsSystem::calculate_next_stage(4, false, 5), 1);
    // stage 5: penalty doubled, ceil(1/2) * 2 = 2
    assert_eq!(SrsSystem::calculate_next_stage(5, false, 1), 3);
    // stage 8: ceil(2/2) * 2 = 2
    assert_eq!(SrsSystem::calculate_next_stage(8, false, 2), 6);
    // stage 9: ceil(1/2) * 2 = 2
    assert_eq!(SrsSystem::calculate_next_stage(9, false, 1), 7);
    // a large count floors at 1
    assert_eq!(SrsSystem::calculate_next_stage(9, false, 1000), 1);
    // a negative count: ceil(-3/2) = -1, so the stage rises by one
    assert_eq!(SrsSystem::calculate_next_stage(3, false, -3), 4);
}

#[test]
fn correct_answer_caps_but_does_not_lift_low_stages() {
    assert_eq!(SrsSystem::calculate_next_stage(0, true, 0), 1);
    assert_eq!(SrsSystem::calculate_next_stage(-5, true, 7), -4);
    assert_eq!(SrsSystem::calculate_next_stage(20, true, 0), 9);
    assert_eq!(SrsSystem::calculate_next_stage(-5, false, 0), 1);
}

#[test]
fn stages_stay_between_one_and_nine() {
    for stage in 1..=9 {
        for count in 0..=20 {
            for is_correct in [true, false] {
                let next = SrsSystem::calculate_next_stage(stage, is_correct, count);
                assert!((1..=9).contains(&next));
                if is_correct {
                    assert!(next >= stage);
                } else {
                    assert!(next <= stage);
                }
            }
        }
    }
}

#[test]
fn review_intervals_follow_the_stage_table() {
    assert_eq!(SrsSystem::review_interval_nanos(1), 4 * NANOS_PER_HOUR);
    assert_eq!(SrsSystem::review_interval_nanos(2), 8 * NANOS_PER_HOUR);
    assert_eq!(SrsSystem::review_interval_nanos(3), NANOS_PER_DAY);
    assert_eq!(SrsSystem::review_interval_nanos(4), 2 * NANOS_PER_DAY);
    assert_eq!(SrsSystem::review_interval_nanos(5), NANOS_PER_WEEK);
    assert_eq!(SrsSystem::review_interval_nanos(6), 2 * NANOS_PER_WEEK);
    assert_eq!(SrsSystem::review_interval_nanos(7), 4 * NANOS_PER_WEEK);
    assert_eq!(SrsSystem::review_interval_nanos(8), 16 * NANOS_PER_WEEK);
    assert_eq!(SrsSystem::review_interval_nanos(9), 520 * NANOS_PER_WEEK);
    assert_eq!(SrsSystem::review_interval_nanos(0), 4 * NANOS_PER_HOUR);
    assert_eq!(SrsSystem::review_interval_nanos(42), 4 * NANOS_PER_HOUR);
    assert_eq!(NANOS_PER_HOUR, 3_600_000_000_000);
    assert_eq!(NANOS_PER_DAY, 24 * NANOS_PER_HOUR);
    assert_eq!(NANOS_PER_WEEK, 7 * NANOS_PER_DAY);
    for stage in 1..9 {
        assert!(
            SrsSystem::review_interval_nanos(stage) < SrsSystem::review_interval_nanos(stage + 1)
        );
    }
}

#[test]
fn next_review_date_adds_the_interval() {
    assert_eq!(SrsSystem::next_review_date_at(1_000, 1), 1_000 + 14_400_000_000_000);
    assert_eq!(SrsSystem::next_review_date_at(0, 9), 314_496_000_000_000_000);
    assert_eq!(SrsSystem::next_review_date_at(-86_400_000_000_000, 3), 0);
    // sub-microsecond parts are kept
    assert_eq!(SrsSystem::next_review_date_at(123, 2), 28_800_000_000_123);
}

fn clock_nanos() -> i128 {
    let now = chrono::Utc::now();
    now.timestamp() as i128 * 1_000_000_000 + now.timestamp_subsec_nanos() as i128
}

#[test]
fn next_review_date_is_the_clock_plus_the_interval() {
    let before = clock_nanos();
    let due = SrsSystem::calculate_next_review_date(2);
    let after = clock_nanos();
    let interval = 8 * NANOS_PER_HOUR;
    assert!(before + interval <= due && due <= after + interval);
    assert!(MIN_CLOCK_NANOS <= due - interval && due - interval <= MAX_CLOCK_NANOS);

    let before = clock_nanos();
    let burned = SrsSystem::calculate_next_review_date(9);
    let after = clock_nanos();
    assert!(before + 520 * NANOS_PER_WEEK <= burned && burned <= after + 520 * NANOS_PER_WEEK);
}

fn item(stage: i64, incorrect_count: i64) -> SrsItem {
    SrsItem {
        id: 7,
        question_id: 11,
        user_id: 1,
        srs_stage: stage,
        incorrect_count,
        next_review_date: 100,
        created_at: 50,
        updated_at: 60,
    }
}

#[test]
fn correct_review_raises_the_stage_and_keeps_the_count() {
    let now = 1_700_000_000_000_000;
    let r = SrsSystem::apply_review(&item(3, 2), true, now);
    assert_eq!(r.srs_stage, 4);
    assert_eq!(r.incorrect_count, 2);
    assert_eq!(r.next_review_date, now + 2 * NANOS_PER_DAY);
    assert_eq!(r.updated_at, now);
    assert_eq!((r.id, r.question_id, r.user_id, r.created_at), (7, 11, 1, 50));
}

#[test]
fn wrong_review_counts_and_lowers_the_stage() {
    let now = 5_000;
    // count becomes 3: penalty ceil(3/2) * 2 = 4 at stage 6
    let r = SrsSystem::apply_review(&item(6, 2), false, now);
    assert_eq!(r.incorrect_count, 3);
    assert_eq!(r.srs_stage, 2);
    assert_eq!(r.next_review_date, now + 8 * NANOS_PER_HOUR);
    assert_eq!(r.updated_at, now);
    assert_eq!((r.id, r.question_id, r.user_id, r.created_at), (7, 11, 1, 50));

    // a burned item that is answered correctly stays burned
    let b = SrsSystem::apply_review(&item(9, 0), true, now);
    assert_eq!(b.srs_stage, 9);
    assert_eq!(b.next_review_date, now + 520 * NANOS_PER_WEEK);
}

#[test]
fn checked_review_refuses_overflow_only() {
    let now = 1_000_000;
    let r = SrsSystem::checked_review(&item(6, 2), false, now).expect("fits");
    assert_eq!((r.srs_stage, r.incorrect_count), (2, 3));
    assert_eq!(r.next_review_date, now + 8 * NANOS_PER_HOUR);

    assert!(SrsSystem::checked_review(&item(3, i64::MAX), false, now).is_none());
    assert!(SrsSystem::checked_review(&item(i64::MAX, 0), true, now).is_none());
    assert!(SrsSystem::checked_review(&item(3, 0), true, i128::MAX).is_none());
    assert!(SrsSystem::checked_review(&item(3, 0), true, i64::MAX as i128).is_some());
    // a correct answer leaves a maximal wrong-answer count alone
    let kept = SrsSystem::checked_review(&item(3, i64::MAX), true, now).expect("fits");
    assert_eq!(kept.incorrect_count, i64::MAX);
    assert_eq!(kept.srs_stage, 4);
}

#[test]
fn clock_reading_matches_chrono() {
    let before = clock_nanos();
    let now = utc_now_nanos();
    let after = clock_nanos();
    assert!(before <= now && now <= after);
}

#[test]
fn fresh_item_starts_at_stage_one() {
    let now = 2_000_000;
    let i = SrsSystem::new_item(5, 6, 7, now);
    assert_eq!((i.id, i.question_id, i.user_id), (5, 6, 7));
    assert_eq!((i.srs_stage, i.incorrect_count), (1, 0));
    assert_eq!(i.next_review_date, now + 4 * NANOS_PER_HOUR);
    assert_eq!((i.created_at, i.updated_at), (now, now));
    let early = SrsSystem::new_item(1, 1, 1, -NANOS_PER_DAY);
    assert_eq!(early.next_review_date, -20 * NANOS_PER_HOUR);
}
