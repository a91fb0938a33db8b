use quiz_srs::quiz::Question;
use quiz_srs::srs::SrsItem;
use quiz_srs::srs_quiz::{QuestionLookup, SessionStats, SrsQuiz};

fn item(id: i64, question_id: i64, stage: i64) -> SrsItem {
    SrsItem {
        id,
        question_id,
        user_id: 2,
        srs_stage: stage,
        incorrect_count: 0,
        next_review_date: 0,
        created_at: 0,
        updated_at: 0,
    }
}

fn question(id: i64, correct: usize) -> Question {
    Question {
        id: Some(id),
        text: format!("question {id}"),
        answers: ["a".to_string(), "b".to_string(), "c".to_string(), "d".to_string()],
        correct,
    }
}

fn session() -> SrsQuiz {
    SrsQuiz::from_review_queue(vec![item(1, 100, 4), item(2, 200, 9)], 2)
}

#[test]
fn new_session_starts_empty_handed() {
    let quiz = session();
    assert_eq!(quiz.current_index, 0);
    assert_eq!(quiz.selected_answer, 0);
    assert_eq!(quiz.user_id, 2);
    assert!(quiz.question_cache.is_empty());
    assert_eq!(quiz.session_stats.total_reviews, 0);
    assert_eq!(quiz.get_progress(), (0, 2));
    assert!(!quiz.is_finished());
    let stats = SessionStats::default();
    assert_eq!(
        (
            stats.correct_answers,
            stats.incorrect_answers,
            stats.total_reviews,
            stats.items_leveled_up,
            stats.items_leveled_down
        ),
        (0, 0, 0, 0, 0)
    );
}

#[test]
fn questions_are_fetched_once_then_cached() {
    let mut quiz = session();
    match quiz.current_question_lookup() {
        QuestionLookup::Fetch(id) => assert_eq!(id, 100),
        _ => panic!("expected a fetch"),
    }
    quiz.cache_question(100, question(100, 1));
    match quiz.current_question_lookup() {
        QuestionLookup::Cached(q) => {
            assert_eq!(q.id, Some(100));
            assert_eq!(q.correct, 1);
        }
        _ => panic!("expected a cached question"),
    }
    quiz.current_index = 2;
    assert!(matches!(quiz.current_question_lookup(), QuestionLookup::Finished));
    assert!(quiz.is_finished());
    assert!(quiz.get_current_srs_item().is_none());
    assert!(quiz.get_stage_info().is_none());
}

#[test]
fn reviews_are_counted_and_replace_the_item() {
    let mut quiz = session();
    let mut up = item(1, 100, 5);
    up.incorrect_count = 0;
    quiz.record_review(true, up);
    assert_eq!(quiz.session_stats.total_reviews, 1);
    assert_eq!(quiz.session_stats.correct_answers, 1);
    assert_eq!(quiz.session_stats.items_leveled_up, 1);
    assert_eq!(quiz.current_items[0].srs_stage, 5);

    quiz.record_review(false, item(1, 100, 3));
    assert_eq!(quiz.session_stats.total_reviews, 2);
    assert_eq!(quiz.session_stats.incorrect_answers, 1);
    assert_eq!(quiz.session_stats.items_leveled_down, 1);

    quiz.record_review(false, item(1, 100, 3));
    assert_eq!(quiz.session_stats.total_reviews, 3);
    assert_eq!(quiz.session_stats.incorrect_answers, 2);
    assert_eq!(quiz.session_stats.items_leveled_up, 1);
    assert_eq!(quiz.session_stats.items_leveled_down, 1);
}

#[test]
fn answers_to_the_current_item_are_judged_by_its_question() {
    let mut quiz = session();
    assert_eq!(quiz.review_request(1, &question(100, 1)), Some((100, true)));
    assert_eq!(quiz.review_request(2, &question(100, 1)), Some((100, false)));
    quiz.current_index = 2;
    assert_eq!(quiz.review_request(1, &question(100, 1)), None);
}

#[test]
fn finished_session_records_nothing() {
    let mut quiz = session();
    quiz.current_index = 2;
    quiz.record_review(true, item(9, 900, 5));
    assert_eq!(quiz.session_stats.total_reviews, 0);
    assert_eq!(quiz.current_items[0].id, 1);
    assert_eq!(quiz.current_items[1].id, 2);
}

#[test]
fn review_navigation_stops_at_both_ends() {
    let mut quiz = session();
    quiz.move_selection_down();
    quiz.next_question();
    assert_eq!(quiz.current_index, 1);
    assert_eq!(quiz.selected_answer, 0);
    quiz.move_selection_down();
    quiz.next_question();
    assert_eq!(quiz.current_index, 1);
    assert_eq!(quiz.selected_answer, 1);
    quiz.prev_question();
    assert_eq!(quiz.current_index, 0);
    assert_eq!(quiz.selected_answer, 0);
    quiz.prev_question();
    assert_eq!(quiz.current_index, 0);
    quiz.move_selection_up();
    assert_eq!(quiz.selected_answer, 0);
    for _ in 0..5 {
        quiz.move_selection_down();
    }
    assert_eq!(quiz.selected_answer, 3);
}

#[test]
fn stage_info_names_the_next_stage() {
    let mut quiz = session();
    assert_eq!(
        quiz.get_stage_info(),
        Some(("Apprentice 4".to_string(), "Next: Guru 1".to_string()))
    );
    quiz.next_question();
    assert_eq!(
        quiz.get_stage_info(),
        Some(("Burned".to_string(), "Burned - No more reviews".to_string()))
    );
}

#[test]
fn resetting_the_queue_keeps_the_counts() {
    let mut quiz = session();
    quiz.cache_question(100, question(100, 0));
    quiz.record_review(true, item(1, 100, 5));
    quiz.next_question();
    quiz.move_selection_down();
    quiz.reset_review_queue(vec![item(3, 300, 2)]);
    assert_eq!(quiz.current_index, 0);
    assert_eq!(quiz.selected_answer, 0);
    assert!(quiz.question_cache.is_empty());
    assert_eq!(quiz.current_items.len(), 1);
    assert_eq!(quiz.session_stats.total_reviews, 1);
}

#[test]
fn full_counts_that_a_review_does_not_raise_do_not_matter() {
    let mut quiz = session();
    quiz.session_stats.incorrect_answers = usize::MAX;
    quiz.session_stats.items_leveled_down = usize::MAX;
    quiz.record_review(true, item(1, 100, 5));
    assert_eq!(quiz.session_stats.total_reviews, 1);
    assert_eq!(quiz.session_stats.correct_answers, 1);
    assert_eq!(quiz.session_stats.items_leveled_up, 1);
    assert_eq!(quiz.session_stats.incorrect_answers, usize::MAX);
}
