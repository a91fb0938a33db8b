use quiz_srs::quiz::{AnswerMark, Question, Quiz};
use quiz_srs::srs::SrsItem;

fn question(id: Option<i64>, text: &str, correct: usize) -> Question {
    Question {
        id,
        text: text.to_string(),
        answers: [
            "first".to_string(),
            "second".to_string(),
            "third".to_string(),
            "fourth".to_string(),
        ],
        correct,
    }
}

fn item(id: i64, question_id: i64, stage: i64, incorrect_count: i64) -> SrsItem {
    SrsItem {
        id,
        question_id,
        user_id: 1,
        srs_stage: stage,
        incorrect_count,
        next_review_date: 0,
        created_at: 0,
        updated_at: 0,
    }
}

fn three_question_quiz() -> Quiz {
    let items = vec![item(1, 10, 1, 0), item(2, 20, 5, 3), item(3, 30, 9, 0)];
    let questions = vec![
        question(Some(10), "q1", 0),
        question(Some(20), "q2", 2),
        question(None, "q3", 3),
    ];
    Quiz::from_review_session(items, questions, 1)
}

#[test]
fn review_session_starts_at_the_first_question() {
    let quiz = three_question_quiz();
    assert_eq!(quiz.quiz_data.title, "SRS Review - 3 questions");
    assert_eq!(quiz.quiz_data.description, "Spaced repetition system review session");
    assert_eq!(quiz.current_question, 0);
    assert_eq!(quiz.selected_answer, 0);
    assert_eq!(quiz.user_answers, vec![None, None, None]);
    assert!(!quiz.show_results);
    assert_eq!(quiz.score, 0);
    assert_eq!(quiz.user_id, 1);
    assert!(quiz.has_questions());
    assert_eq!(quiz.get_current_question().text, "q1");
}

#[test]
fn empty_review_session_says_no_reviews_are_due() {
    let quiz = Quiz::from_review_session(vec![], vec![], 4);
    assert_eq!(quiz.quiz_data.title, "No reviews due");
    assert!(!quiz.has_questions());
    assert_eq!(quiz.get_score_percentage(), 0);
    assert_eq!(quiz.get_current_srs_item().map(|i| i.id), None);
    assert_eq!(quiz.get_srs_stage_name(), None);
    assert_eq!(quiz.get_srs_progress_info(), None);
}

#[test]
fn reloading_a_session_resets_it_and_keeps_the_user() {
    let mut quiz = three_question_quiz();
    quiz.select_answer();
    quiz.next_question();
    quiz.user_id = 9;
    quiz.load_review_session(vec![item(5, 50, 2, 0)], vec![question(Some(50), "only", 1)]);
    assert_eq!(quiz.quiz_data.title, "SRS Review - 1 questions");
    assert_eq!(quiz.current_question, 0);
    assert_eq!(quiz.user_answers, vec![None]);
    assert_eq!(quiz.user_id, 9);
    assert_eq!(quiz.srs_items.len(), 1);
}

#[test]
fn navigation_restores_the_chosen_answer() {
    let mut quiz = three_question_quiz();
    quiz.move_selection_down();
    quiz.move_selection_down();
    assert_eq!(quiz.selected_answer, 2);
    quiz.select_answer();
    assert_eq!(quiz.get_current_answer(), Some(2));
    quiz.next_question();
    assert_eq!(quiz.current_question, 1);
    assert_eq!(quiz.selected_answer, 0);
    quiz.prev_question();
    assert_eq!(quiz.current_question, 0);
    assert_eq!(quiz.selected_answer, 2);
    quiz.prev_question();
    assert_eq!(quiz.current_question, 0);
}

#[test]
fn cursor_stays_on_the_four_answers() {
    let mut quiz = three_question_quiz();
    quiz.move_selection_up();
    assert_eq!(quiz.selected_answer, 0);
    for _ in 0..10 {
        quiz.move_selection_down();
    }
    assert_eq!(quiz.selected_answer, 3);
    quiz.move_selection_up();
    assert_eq!(quiz.selected_answer, 2);
}

#[test]
fn finishing_the_quiz_scores_it() {
    let mut quiz = three_question_quiz();
    // q1: answer 0, correct
    quiz.select_answer();
    quiz.next_question();
    // q2: answer 1, wrong (correct is 2)
    quiz.move_selection_down();
    quiz.select_answer();
    quiz.next_question();
    // q3: answer 3, correct
    quiz.move_selection_down();
    quiz.move_selection_down();
    quiz.move_selection_down();
    quiz.select_answer();
    assert!(!quiz.show_results);
    quiz.next_question();
    assert!(quiz.show_results);
    assert_eq!(quiz.current_question, 2);
    assert_eq!(quiz.score, 2);
    assert_eq!(quiz.get_score_percentage(), 66);
    assert_eq!(quiz.get_score_message(), "Good effort! Keep practicing! 👍");
    assert_eq!(
        quiz.results_text(),
        "Quiz Complete! 🎉\n\nSRS Review - 3 questions\n\nYour Score: 2 out of 3 (66%)\n\nGood effort! Keep practicing! 👍"
    );
}

#[test]
fn score_counts_only_matching_answers() {
    let mut quiz = three_question_quiz();
    quiz.user_answers = vec![Some(0), Some(2), None];
    quiz.calculate_score();
    assert_eq!(quiz.score, 2);
    quiz.user_answers = vec![Some(1), None, Some(0)];
    quiz.calculate_score();
    assert_eq!(quiz.score, 0);
    quiz.user_answers = vec![Some(0), Some(2), Some(3)];
    quiz.calculate_score();
    assert_eq!(quiz.score, 3);
    assert_eq!(quiz.get_score_percentage(), 100);
    assert_eq!(quiz.get_score_message(), "Perfect! Excellent work! 🌟");
}

#[test]
fn score_messages_follow_the_thresholds() {
    let mut quiz = Quiz::from_review_session(
        vec![],
        (0..4).map(|i| question(Some(i), "q", 0)).collect(),
        1,
    );
    quiz.score = 3;
    assert_eq!(quiz.get_score_percentage(), 75);
    assert_eq!(quiz.get_score_message(), "Great job! Well done! 👏");
    quiz.score = 2;
    assert_eq!(quiz.get_score_percentage(), 50);
    assert_eq!(quiz.get_score_message(), "Good effort! Keep practicing! 👍");
    quiz.score = 1;
    assert_eq!(quiz.get_score_percentage(), 25);
    assert_eq!(quiz.get_score_message(), "Don't give up! Try again! 💪");
    quiz.score = 0;
    assert_eq!(quiz.get_score_message(), "Don't give up! Try again! 💪");
}

#[test]
fn restart_forgets_answers_and_score() {
    let mut quiz = three_question_quiz();
    quiz.select_answer();
    quiz.next_question();
    quiz.next_question();
    quiz.next_question();
    assert!(quiz.show_results);
    quiz.restart();
    assert_eq!(quiz.current_question, 0);
    assert_eq!(quiz.selected_answer, 0);
    assert_eq!(quiz.user_answers, vec![None, None, None]);
    assert!(!quiz.show_results);
    assert_eq!(quiz.score, 0);
}

#[test]
fn stage_texts_of_the_current_item() {
    let mut quiz = three_question_quiz();
    assert_eq!(quiz.get_current_srs_item().map(|i| i.id), Some(1));
    assert_eq!(quiz.get_srs_stage_name(), Some("Apprentice 1".to_string()));
    assert_eq!(quiz.get_srs_progress_info(), Some("Apprentice 1".to_string()));
    quiz.next_question();
    assert_eq!(quiz.get_srs_stage_name(), Some("Guru 1".to_string()));
    assert_eq!(quiz.get_srs_progress_info(), Some("Guru 1 (Failed 3 times)".to_string()));
}

#[test]
fn answers_ask_the_review_system_only_for_questions_with_ids() {
    let mut quiz = three_question_quiz();
    assert_eq!(quiz.review_request(0), Some((10, true)));
    assert_eq!(quiz.review_request(3), Some((10, false)));
    quiz.next_question();
    quiz.next_question();
    assert_eq!(quiz.review_request(3), None);
}

#[test]
fn review_results_replace_the_current_item() {
    let mut quiz = three_question_quiz();
    quiz.next_question();
    quiz.record_review_result(item(2, 20, 3, 4));
    assert_eq!(quiz.srs_items[1].srs_stage, 3);
    assert_eq!(quiz.srs_items[1].incorrect_count, 4);
    assert_eq!(quiz.srs_items[0].srs_stage, 1);
    let mut short = Quiz::from_review_session(vec![], vec![question(Some(1), "q", 0)], 1);
    short.record_review_result(item(1, 1, 2, 0));
    assert!(short.srs_items.is_empty());
}

#[test]
fn answer_marks_show_cursor_and_choice() {
    let mut quiz = three_question_quiz();
    quiz.move_selection_down();
    quiz.select_answer();
    quiz.move_selection_down();
    assert_eq!(quiz.answer_mark(2), AnswerMark::Highlighted);
    assert_eq!(quiz.answer_mark(1), AnswerMark::Chosen);
    assert_eq!(quiz.answer_mark(0), AnswerMark::Plain);
    assert_eq!(quiz.answer_mark(3), AnswerMark::Plain);
}

#[test]
fn cloned_question_is_equal() {
    let q = question(Some(3), "text", 1);
    let c = q.clone();
    assert_eq!(c.id, Some(3));
    assert_eq!(c.text, "text");
    assert_eq!(c.answers, q.answers);
    assert_eq!(c.correct, 1);
}

#[test]
fn scoring_ignores_empty_slots_past_the_last_question() {
    let mut quiz = three_question_quiz();
    quiz.user_answers = vec![Some(0), Some(2), Some(3), None, None];
    quiz.calculate_score();
    assert_eq!(quiz.score, 3);
}
