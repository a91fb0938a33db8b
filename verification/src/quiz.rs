//! A quiz session: the questions, the answers given so far, the cursor that
//! picks an answer, and the score.
use vstd::prelude::*;

use crate::srs::{stage_name, SrsItem, SrsSystem};
use crate::text::{decimal, owned_string, push_decimal, push_signed_decimal, signed_decimal};

verus! {

/// A multiple-choice question with four answers; `correct` is the index of
/// the right one.
pub struct Question {
    pub id: Option<i64>,
    pub text: String,
    pub answers: [String; 4],
    pub correct: usize,
}

impl Clone for Question {
    fn clone(&self) -> (r: Self)
        ensures
            r == *self,
    {
        let answers = [
            self.answers[0].clone(),
            self.answers[1].clone(),
            self.answers[2].clone(),
            self.answers[3].clone(),
        ];
        assert(answers =~= self.answers) by {
            broadcast use vstd::array::group_array_axioms;
        }
        Question { id: self.id, text: self.text.clone(), answers, correct: self.correct }
    }
}

/// The questions of a quiz with its title and description.
pub struct QuizData {
    pub title: String,
    pub description: String,
    pub questions: Vec<Question>,
}

/// How an answer is shown: under the cursor, chosen earlier, or neither.
#[derive(Clone, Copy, Debug, PartialEq, Eq)]
pub enum AnswerMark {
    Highlighted,
    Chosen,
    Plain,
}

/// A quiz session over the items that a spaced-repetition review has due.
pub struct Quiz {
    pub quiz_data: QuizData,
    /// The index of the question on screen.
    pub current_question: usize,
    /// The index of the answer under the cursor.
    pub selected_answer: usize,
    /// The answer chosen for each question, if any.
    pub user_answers: Vec<Option<usize>>,
    pub show_results: bool,
    pub score: usize,
    /// The review item of each question, in the same order.
    pub srs_items: Vec<SrsItem>,
    pub user_id: i64,
}

/// The title of a review session over `n` due items.
pub open spec fn review_title(n: nat) -> Seq<char> {
    if n == 0 {
        "No reviews due"@
    } else {
        "SRS Review - "@ + decimal(n) + " questions"@
    }
}

/// The description of every review session.
pub open spec fn review_description() -> Seq<char> {
    "Spaced repetition system review session"@
}

/// How many of the first `answers.len()` questions were answered correctly.
pub open spec fn count_correct(answers: Seq<Option<usize>>, questions: Seq<Question>) -> nat
    decreases answers.len(),
{
    if answers.len() == 0 {
        0
    } else {
        let i = answers.len() - 1;
        count_correct(answers.drop_last(), questions) + if answers[i] == Some(
            questions[i].correct,
        ) {
            1nat
        } else {
            0nat
        }
    }
}

/// A sequence of `n` unanswered questions.
pub open spec fn no_answers(n: nat) -> Seq<Option<usize>> {
    Seq::new(n, |i: int| None::<usize>)
}

/// The answer chosen for a question, or the first answer when none was.
pub open spec fn answer_or_first(a: Option<usize>) -> usize {
    match a {
        Some(x) => x,
        None => 0,
    }
}

/// The answer under the cursor after moving it up: one up, stopping at the
/// first.
pub open spec fn cursor_up(selected: usize) -> usize {
    if selected > 0 {
        (selected - 1) as usize
    } else {
        0
    }
}

/// The answer under the cursor after moving it down: one down, stopping at
/// the fourth.
pub open spec fn cursor_down(selected: usize) -> usize {
    if selected < 3 {
        (selected + 1) as usize
    } else {
        selected
    }
}

/// The score in percent, rounded down, as the `u32` that reports it.
pub open spec fn score_percentage(score: nat, total: nat) -> u32 {
    if total == 0 {
        0
    } else {
        ((score * 100) / total) as u32
    }
}

/// The message that goes with a score in percent.
pub open spec fn score_message(percentage: u32) -> Seq<char> {
    if percentage == 100 {
        "Perfect! Excellent work! 🌟"@
    } else if 75 <= percentage <= 99 {
        "Great job! Well done! 👏"@
    } else if 50 <= percentage <= 74 {
        "Good effort! Keep practicing! 👍"@
    } else {
        "Don't give up! Try again! 💪"@
    }
}

/// What the progress line says of a review item: the name of its stage, and
/// how often it was failed when it was.
pub open spec fn progress_info(item: SrsItem) -> Seq<char> {
    if item.incorrect_count > 0 {
        stage_name(item.srs_stage as int) + " (Failed "@ + signed_decimal(
            item.incorrect_count as int,
        ) + " times)"@
    } else {
        stage_name(item.srs_stage as int)
    }
}

/// The text of the results screen.
pub open spec fn results_text(title: Seq<char>, score: nat, total: nat) -> Seq<char> {
    let percentage = score_percentage(score, total);
    "Quiz Complete! 🎉\n\n"@ + title + "\n\nYour Score: "@ + decimal(score) + " out of "@
        + decimal(total) + " ("@ + decimal(percentage as nat) + "%)\n\n"@ + score_message(
        percentage,
    )
}

/// The state of a quiz session, as the contracts see it.
pub struct QuizView {
    pub title: Seq<char>,
    pub description: Seq<char>,
    pub questions: Seq<Question>,
    pub current_question: usize,
    pub selected_answer: usize,
    pub user_answers: Seq<Option<usize>>,
    pub show_results: bool,
    pub score: usize,
    pub srs_items: Seq<SrsItem>,
    pub user_id: i64,
}

impl View for Quiz {
    type V = QuizView;

    open spec fn view(&self) -> QuizView {
        QuizView {
            title: self.quiz_data.title@,
            description: self.quiz_data.description@,
            questions: self.quiz_data.questions@,
            current_question: self.current_question,
            selected_answer: self.selected_answer,
            user_answers: self.user_answers@,
            show_results: self.show_results,
            score: self.score,
            srs_items: self.srs_items@,
            user_id: self.user_id,
        }
    }
}

impl QuizView {
    /// The session is consistent: one answer slot per question, and the
    /// current question exists unless there are none.
    pub open spec fn wf(self) -> bool {
        &&& self.user_answers.len() == self.questions.len()
        &&& (self.current_question < self.questions.len() || self.current_question == 0)
    }

    /// No answer is recorded past the last question.
    pub open spec fn answers_within_questions(self) -> bool {
        forall|i: int|
            self.questions.len() <= i < self.user_answers.len() ==> #[trigger] self.user_answers[i]
                is None
    }

    /// The current question has an answer slot, as `select_answer` needs.
    pub open spec fn can_select(self) -> bool {
        self.current_question < self.user_answers.len()
    }

    /// What `prev_question` reads exists: the answer slot of the previous
    /// question, when there is one.
    pub open spec fn can_prev(self) -> bool {
        self.current_question > 0 ==> self.current_question - 1 < self.user_answers.len()
    }

    /// What `next_question` reads exists: there are questions; the next
    /// question, when there is one, has an answer slot; and on the last
    /// question no answer is recorded past the last question, as scoring
    /// needs.
    pub open spec fn can_next(self) -> bool {
        &&& self.questions.len() > 0
        &&& self.current_question + 1 < self.questions.len() ==> self.current_question + 1
            < self.user_answers.len()
        &&& self.current_question + 1 >= self.questions.len() ==> self.answers_within_questions()
    }

    /// The number of questions answered correctly.
    pub open spec fn correct_count(self) -> nat {
        count_correct(self.user_answers, self.questions)
    }

    /// A review session over `srs_items`, whose questions are `questions`,
    /// for `user_id`, at its start.
    pub open spec fn review_session(srs_items: Seq<SrsItem>, questions: Seq<Question>, user_id: i64) -> QuizView {
        QuizView {
            title: review_title(srs_items.len()),
            description: review_description(),
            questions,
            current_question: 0,
            selected_answer: 0,
            user_answers: no_answers(questions.len()),
            show_results: false,
            score: 0,
            srs_items,
            user_id,
        }
    }

    /// The state after `next_question`: the next question with its chosen
    /// answer (or the first) under the cursor; on the last question, the
    /// score computed and the results shown.
    pub open spec fn after_next_question(self) -> QuizView {
        if self.current_question + 1 < self.questions.len() {
            QuizView {
                current_question: (self.current_question + 1) as usize,
                selected_answer: answer_or_first(self.user_answers[self.current_question + 1]),
                ..self
            }
        } else {
            QuizView { score: self.correct_count() as usize, show_results: true, ..self }
        }
    }

    /// The state after `prev_question`: the previous question, if any, with
    /// its chosen answer (or the first) under the cursor.
    pub open spec fn after_prev_question(self) -> QuizView {
        if self.current_question > 0 {
            QuizView {
                current_question: (self.current_question - 1) as usize,
                selected_answer: answer_or_first(self.user_answers[self.current_question - 1]),
                ..self
            }
        } else {
            self
        }
    }

    /// The state after `select_answer`: the answer under the cursor is the
    /// answer to the current question.
    pub open spec fn after_select_answer(self) -> QuizView {
        QuizView {
            user_answers: self.user_answers.update(
                self.current_question as int,
                Some(self.selected_answer),
            ),
            ..self
        }
    }

    /// The state after `move_selection_up`.
    pub open spec fn after_move_up(self) -> QuizView {
        QuizView { selected_answer: cursor_up(self.selected_answer), ..self }
    }

    /// The state after `move_selection_down`.
    pub open spec fn after_move_down(self) -> QuizView {
        QuizView { selected_answer: cursor_down(self.selected_answer), ..self }
    }

    /// The state after `calculate_score`.
    pub open spec fn after_calculate_score(self) -> QuizView {
        QuizView { score: self.correct_count() as usize, ..self }
    }

    /// The state after the review system sent back `item` for the current
    /// question: the item takes the place of the current question's item,
    /// when that place exists.
    pub open spec fn after_review_result(self, item: SrsItem) -> QuizView {
        if self.current_question < self.srs_items.len() {
            QuizView {
                srs_items: self.srs_items.update(self.current_question as int, item),
                ..self
            }
        } else {
            self
        }
    }

    /// What an answer to the question on screen asks of the review system:
    /// the question's id and whether `answer` is its correct answer, or
    /// nothing when the question has no id.
    pub open spec fn request(self, answer: usize) -> Option<(i64, bool)> {
        let question = self.questions[self.current_question as int];
        match question.id {
            Some(id) => Some((id, answer == question.correct)),
            None => None,
        }
    }

    /// How answer `i` of the question on screen is shown.
    pub open spec fn mark(self, i: usize) -> AnswerMark {
        if i == self.selected_answer {
            AnswerMark::Highlighted
        } else if self.user_answers[self.current_question as int] == Some(i) {
            AnswerMark::Chosen
        } else {
            AnswerMark::Plain
        }
    }

    /// The state after `restart`: first question, cursor on the first
    /// answer, no answers, no score, results hidden.
    pub open spec fn after_restart(self) -> QuizView {
        QuizView {
            current_question: 0,
            selected_answer: 0,
            user_answers: no_answers(self.questions.len()),
            show_results: false,
            score: 0,
            ..self
        }
    }
}

impl Quiz {
    /// A fresh review session over `srs_items`, whose questions are
    /// `questions`, for `user_id`.
    pub fn from_review_session(srs_items: Vec<SrsItem>, questions: Vec<Question>, user_id: i64) -> (r:
        Quiz)
        ensures
            r@ == QuizView::review_session(srs_items@, questions@, user_id),
            r@.wf(),
    {
        let quiz_data = Self::review_data(&srs_items, questions);
        let user_answers = unanswered(quiz_data.questions.len());
        Quiz {
            quiz_data,
            current_question: 0,
            selected_answer: 0,
            user_answers,
            show_results: false,
            score: 0,
            srs_items,
            user_id,
        }
    }

    /// Starts the session over with `srs_items` and their `questions`,
    /// keeping the user.
    pub fn load_review_session(&mut self, srs_items: Vec<SrsItem>, questions: Vec<Question>)
        ensures
            final(self)@ == QuizView::review_session(srs_items@, questions@, old(self).user_id),
            final(self)@.wf(),
    {
        let quiz_data = Self::review_data(&srs_items, questions);
        self.user_answers = unanswered(quiz_data.questions.len());
        self.quiz_data = quiz_data;
        self.srs_items = srs_items;
        self.current_question = 0;
        self.selected_answer = 0;
        self.show_results = false;
        self.score = 0;
    }

    fn review_data(srs_items: &Vec<SrsItem>, questions: Vec<Question>) -> (r: QuizData)
        ensures
            r.title@ == review_title(srs_items@.len()),
            r.description@ == review_description(),
            r.questions@ == questions@,
    {
        let title = if srs_items.len() == 0 {
            owned_string("No reviews due")
        } else {
            let mut t = owned_string("SRS Review - ");
            push_decimal(&mut t, srs_items.len() as u64);
            t.append(" questions");
            t
        };
        QuizData {
            title,
            description: owned_string("Spaced repetition system review session"),
            questions,
        }
    }

    /// Moves to the next question, whose chosen answer (or the first one)
    /// goes under the cursor; on the last question, computes the score and
    /// shows the results instead.
    pub fn next_question(&mut self)
        requires
            old(self)@.can_next(),
        ensures
            final(self)@ == old(self)@.after_next_question(),
            old(self)@.wf() ==> final(self)@.wf(),
    {
        if self.current_question < self.quiz_data.questions.len() - 1 {
            self.current_question = self.current_question + 1;
            self.selected_answer = match self.get_current_answer() {
                Some(a) => a,
                None => 0,
            };
        } else {
            self.calculate_score();
            self.show_results = true;
        }
    }

    /// Moves to the previous question, if there is one, whose chosen answer
    /// (or the first one) goes under the cursor.
    pub fn prev_question(&mut self)
        requires
            old(self)@.can_prev(),
        ensures
            final(self)@ == old(self)@.after_prev_question(),
            old(self)@.wf() ==> final(self)@.wf(),
    {
        if self.current_question > 0 {
            self.current_question = self.current_question - 1;
            self.selected_answer = match self.get_current_answer() {
                Some(a) => a,
                None => 0,
            };
        }
    }

    /// Records the answer under the cursor as the answer to the current
    /// question.
    pub fn select_answer(&mut self)
        requires
            old(self).current_question < old(self).user_answers@.len(),
        ensures
            final(self)@ == old(self)@.after_select_answer(),
    {
        let i = self.current_question;
        let a = self.selected_answer;
        self.user_answers.set(i, Some(a));
    }

    /// Whether the session has a question to show.
    pub fn has_questions(&self) -> (r: bool)
        ensures
            r == (self@.questions.len() > 0 && self.current_question < self@.questions.len()),
    {
        !self.quiz_data.questions.is_empty() && self.current_question
            < self.quiz_data.questions.len()
    }

    /// Moves the cursor one answer up, stopping at the first.
    pub fn move_selection_up(&mut self)
        ensures
            final(self)@ == old(self)@.after_move_up(),
    {
        if self.selected_answer > 0 {
            self.selected_answer = self.selected_answer - 1;
        }
    }

    /// Moves the cursor one answer down, stopping at the fourth.
    pub fn move_selection_down(&mut self)
        ensures
            final(self)@ == old(self)@.after_move_down(),
    {
        if self.selected_answer < 3 {
            self.selected_answer = self.selected_answer + 1;
        }
    }

    /// The question on screen.
    pub fn get_current_question(&self) -> (r: &Question)
        requires
            self.current_question < self@.questions.len(),
        ensures
            *r == self@.questions[self.current_question as int],
    {
        &self.quiz_data.questions[self.current_question]
    }

    /// The answer chosen for the question on screen, if any.
    pub fn get_current_answer(&self) -> (r: Option<usize>)
        requires
            self.current_question < self.user_answers@.len(),
        ensures
            r == self.user_answers@[self.current_question as int],
    {
        self.user_answers[self.current_question]
    }

    /// Sets the score to the number of questions whose chosen answer is the
    /// correct one.
    pub fn calculate_score(&mut self)
        requires
            old(self)@.answers_within_questions(),
        ensures
            final(self)@ == old(self)@.after_calculate_score(),
            final(self).score <= final(self).user_answers@.len(),
    {
        let mut score: usize = 0;
        let n = self.user_answers.len();
        let mut i: usize = 0;
        while i < n
            invariant
                n == self.user_answers@.len(),
                self@.answers_within_questions(),
                i <= n,
                score == count_correct(self.user_answers@.take(i as int), self.quiz_data.questions@),
                score <= i,
            decreases n - i,
        {
            let ghost prefix = self.user_answers@.take(i as int);
            let is_right = match self.user_answers[i] {
                Some(answer) => answer == self.quiz_data.questions[i].correct,
                None => false,
            };
            if is_right {
                score = score + 1;
            }
            assert(self.user_answers@.take(i + 1).drop_last() =~= prefix);
            i = i + 1;
        }
        assert(self.user_answers@.take(n as int) =~= self.user_answers@);
        self.score = score;
    }

    /// Starts the quiz over: first question, cursor on the first answer, no
    /// answers, no score, results hidden.
    pub fn restart(&mut self)
        ensures
            final(self)@ == old(self)@.after_restart(),
            final(self)@.wf(),
    {
        self.current_question = 0;
        self.selected_answer = 0;
        self.user_answers = unanswered(self.quiz_data.questions.len());
        self.show_results = false;
        self.score = 0;
    }

    /// The score in percent of the number of questions, rounded down; 0 for
    /// a quiz without questions.
    pub fn get_score_percentage(&self) -> (r: u32)
        requires
            self.score * 100 <= usize::MAX,
        ensures
            r == score_percentage(self.score as nat, self@.questions.len()),
    {
        let n = self.quiz_data.questions.len();
        if n == 0 {
            0
        } else {
            ((self.score * 100) / n) as u32
        }
    }

    /// The message for the score.
    pub fn get_score_message(&self) -> (r: &'static str)
        requires
            self.score * 100 <= usize::MAX,
        ensures
            r@ == score_message(score_percentage(self.score as nat, self@.questions.len())),
    {
        let percentage = self.get_score_percentage();
        if percentage == 100 {
            "Perfect! Excellent work! 🌟"
        } else if 75 <= percentage && percentage <= 99 {
            "Great job! Well done! 👏"
        } else if 50 <= percentage && percentage <= 74 {
            "Good effort! Keep practicing! 👍"
        } else {
            "Don't give up! Try again! 💪"
        }
    }

    /// The review item of the question on screen, if there is one.
    pub fn get_current_srs_item(&self) -> (r: Option<&SrsItem>)
        ensures
            self.current_question < self.srs_items@.len() ==> r == Some(
                &self.srs_items@[self.current_question as int],
            ),
            self.current_question >= self.srs_items@.len() ==> (r is None),
    {
        if self.current_question < self.srs_items.len() {
            Some(&self.srs_items[self.current_question])
        } else {
            None
        }
    }

    /// The name of the stage of the current review item, if there is one.
    pub fn get_srs_stage_name(&self) -> (r: Option<String>)
        ensures
            self.current_question < self.srs_items@.len() ==> (r matches Some(s) && s@
                == stage_name(self.srs_items@[self.current_question as int].srs_stage as int)),
            self.current_question >= self.srs_items@.len() ==> (r is None),
    {
        match self.get_current_srs_item() {
            Some(item) => Some(owned_string(SrsSystem::get_stage_name(item.srs_stage))),
            None => None,
        }
    }

    /// The progress line of the current review item, if there is one: the
    /// name of its stage, and how often it was failed when it was.
    pub fn get_srs_progress_info(&self) -> (r: Option<String>)
        ensures
            self.current_question < self.srs_items@.len() ==> (r matches Some(s) && s@
                == progress_info(self.srs_items@[self.current_question as int])),
            self.current_question >= self.srs_items@.len() ==> (r is None),
    {
        match self.get_current_srs_item() {
            Some(item) => {
                let stage_name = SrsSystem::get_stage_name(item.srs_stage);
                let incorrect_count = item.incorrect_count;
                if incorrect_count > 0 {
                    let mut s = owned_string(stage_name);
                    s.append(" (Failed ");
                    push_signed_decimal(&mut s, incorrect_count);
                    s.append(" times)");
                    Some(s)
                } else {
                    Some(owned_string(stage_name))
                }
            },
            None => None,
        }
    }

    /// What an answer to the question on screen asks of the review system:
    /// the question's id and whether `answer` is the correct one, or nothing
    /// when the question has no id.
    pub fn review_request(&self, answer: usize) -> (r: Option<(i64, bool)>)
        requires
            self.current_question < self@.questions.len(),
        ensures
            r == self@.request(answer),
            ({
                let q = self.quiz_data.questions@[self.current_question as int];
                match q.id {
                    Some(id) => r == Some((id, answer == q.correct)),
                    None => r is None,
                }
            }),
    {
        let question = &self.quiz_data.questions[self.current_question];
        match question.id {
            Some(id) => Some((id, answer == question.correct)),
            None => None,
        }
    }

    /// Puts the review item that the review system sent back in the place
    /// of the current question's item, when that place exists.
    pub fn record_review_result(&mut self, item: SrsItem)
        ensures
            final(self)@ == old(self)@.after_review_result(item),
    {
        if self.current_question < self.srs_items.len() {
            let i = self.current_question;
            self.srs_items.set(i, item);
        }
    }

    /// How answer `answer_index` is shown: under the cursor, chosen earlier
    /// for the question on screen, or neither.
    pub fn answer_mark(&self, answer_index: usize) -> (r: AnswerMark)
        requires
            answer_index != self.selected_answer ==> self.current_question
                < self.user_answers@.len(),
        ensures
            r == self@.mark(answer_index),
            answer_index == self.selected_answer ==> r == AnswerMark::Highlighted,
            answer_index != self.selected_answer && self.user_answers@[self.current_question as int]
                == Some(answer_index) ==> r == AnswerMark::Chosen,
            answer_index != self.selected_answer && self.user_answers@[self.current_question as int]
                != Some(answer_index) ==> r == AnswerMark::Plain,
    {
        if answer_index == self.selected_answer {
            AnswerMark::Highlighted
        } else {
            match self.get_current_answer() {
                Some(a) => if a == answer_index {
                    AnswerMark::Chosen
                } else {
                    AnswerMark::Plain
                },
                None => AnswerMark::Plain,
            }
        }
    }

    /// The text of the results screen: the title, the score out of the
    /// number of questions, the percentage and its message.
    pub fn results_text(&self) -> (r: String)
        requires
            self.score * 100 <= usize::MAX,
        ensures
            r@ == results_text(self.quiz_data.title@, self.score as nat, self@.questions.len()),
    {
        let percentage = self.get_score_percentage();
        let mut s = owned_string("Quiz Complete! 🎉\n\n");
        s.append(self.quiz_data.title.as_str());
        s.append("\n\nYour Score: ");
        push_decimal(&mut s, self.score as u64);
        s.append(" out of ");
        push_decimal(&mut s, self.quiz_data.questions.len() as u64);
        s.append(" (");
        push_decimal(&mut s, percentage as u64);
        s.append("%)\n\n");
        s.append(self.get_score_message());
        s
    }
}

/// `n` unanswered questions.
fn unanswered(n: usize) -> (r: Vec<Option<usize>>)
    ensures
        r@ == no_answers(n as nat),
{
    let mut v: Vec<Option<usize>> = Vec::new();
    let mut i: usize = 0;
    while i < n
        invariant
            i <= n,
            v@ == no_answers(i as nat),
        decreases n - i,
    {
        v.push(None);
        i = i + 1;
        assert(v@ =~= no_answers(i as nat));
    }
    v
}

} // verus!

verus! {

/// No more answers are right than there are answers.
pub proof fn lemma_count_correct_bounded(answers: Seq<Option<usize>>, questions: Seq<Question>)
    ensures
        count_correct(answers, questions) <= answers.len(),
    decreases answers.len(),
{
    if answers.len() > 0 {
        lemma_count_correct_bounded(answers.drop_last(), questions);
    }
}

/// The score of a consistent session is at most the number of questions,
/// so its percentage is at most 100.
pub proof fn lemma_score_bounded(q: QuizView)
    requires
        q.wf(),
    ensures
        q.correct_count() <= q.questions.len(),
        score_percentage(q.correct_count(), q.questions.len()) <= 100,
{
    lemma_count_correct_bounded(q.user_answers, q.questions);
    let s = q.correct_count();
    let t = q.questions.len();
    if t > 0 {
        assert((s * 100) / t <= 100) by (nonlinear_arith)
            requires
                s <= t,
                t > 0,
        ;
    }
}

/// A consistent session can take every step: going back always, and, when
/// it has questions, recording an answer and going on, also after recording.
pub proof fn lemma_wf_allows_every_step(q: QuizView)
    requires
        q.wf(),
    ensures
        q.can_prev(),
        q.answers_within_questions(),
        q.questions.len() > 0 ==> q.can_select() && q.can_next() && q.after_select_answer().can_next(),
{
}

/// Every operation on a consistent session leaves it consistent.
pub proof fn lemma_operations_keep_wf(q: QuizView, item: SrsItem)
    requires
        q.wf(),
    ensures
        q.after_move_up().wf(),
        q.after_move_down().wf(),
        q.after_prev_question().wf(),
        q.after_calculate_score().wf(),
        q.after_restart().wf(),
        q.after_review_result(item).wf(),
        q.questions.len() > 0 ==> q.after_select_answer().wf(),
        q.questions.len() > 0 ==> q.after_next_question().wf(),
{
}

/// The cursor never leaves the four answers once it is on one of them.
pub proof fn lemma_cursor_stays_on_answers(q: QuizView)
    requires
        q.selected_answer <= 3,
    ensures
        q.after_move_up().selected_answer <= 3,
        q.after_move_down().selected_answer <= 3,
{
}

/// What `select_answer` records is what `get_current_answer` reads back,
/// and the answers to the other questions stay as they were.
pub proof fn lemma_selected_answer_read_back(q: QuizView)
    requires
        q.current_question < q.user_answers.len(),
    ensures
        q.after_select_answer().user_answers[q.current_question as int] == Some(q.selected_answer),
        q.after_select_answer().user_answers.len() == q.user_answers.len(),
        forall|i: int|
            0 <= i < q.user_answers.len() && i != q.current_question ==> #[trigger] q.after_select_answer().user_answers[i]
                == q.user_answers[i],
{
}

/// Going to the next question and back returns to the same question, with
/// its answer (or the first) under the cursor; the answers, the score and
/// whether the results show stay as they were.
pub proof fn lemma_prev_undoes_next(q: QuizView)
    requires
        q.user_answers.len() == q.questions.len(),
        q.current_question + 1 < q.questions.len() <= usize::MAX,
    ensures
        q.after_next_question().after_prev_question() == (QuizView {
            selected_answer: answer_or_first(q.user_answers[q.current_question as int]),
            ..q
        }),
{
}

/// Restarting forgets every answer and the score, whatever came before:
/// restarting twice is restarting once, and nothing counts as right after a
/// restart.
pub proof fn lemma_restart_forgets(q: QuizView)
    ensures
        q.after_restart().after_restart() == q.after_restart(),
        q.after_restart().correct_count() == 0,
        q.after_restart().questions == q.questions,
{
    lemma_no_answers_score_nothing(q.questions.len(), q.questions);
}

/// No question counts as right when none is answered.
pub proof fn lemma_no_answers_score_nothing(n: nat, questions: Seq<Question>)
    ensures
        count_correct(no_answers(n), questions) == 0,
    decreases n,
{
    if n > 0 {
        assert(no_answers(n).drop_last() =~= no_answers((n - 1) as nat));
        lemma_no_answers_score_nothing((n - 1) as nat, questions);
    }
}

} // verus!

verus! {

/// Moving on from a question that is not the last shows the next question
/// with the answer recorded for it under the cursor (the first answer when
/// none is), and changes nothing else; moving on from the last question
/// keeps the question, shows the results and scores the quiz.
pub proof fn lemma_next_question_written_out(q: QuizView)
    requires
        q.current_question + 1 < q.questions.len() <= usize::MAX,
        q.user_answers.len() == q.questions.len(),
    ensures
        q.after_next_question().current_question == q.current_question + 1,
        q.after_next_question().selected_answer == match q.user_answers[q.current_question + 1] {
            Some(a) => a,
            None => 0,
        },
        q.after_next_question().user_answers == q.user_answers,
        q.after_next_question().show_results == q.show_results,
        q.after_next_question().score == q.score,
        q.after_next_question().questions == q.questions,
{
}

/// On the last question, moving on keeps the question and the answers, and
/// shows the results with the number of right answers as the score.
pub proof fn lemma_next_on_last_question(q: QuizView)
    requires
        q.questions.len() > 0,
        q.current_question + 1 >= q.questions.len(),
        q.user_answers.len() <= usize::MAX,
    ensures
        q.after_next_question().current_question == q.current_question,
        q.after_next_question().selected_answer == q.selected_answer,
        q.after_next_question().user_answers == q.user_answers,
        q.after_next_question().show_results,
        q.after_next_question().score == count_correct(q.user_answers, q.questions),
{
    lemma_count_correct_bounded(q.user_answers, q.questions);
}

/// Going back from a question other than the first shows the previous
/// question with the answer recorded for it under the cursor (the first
/// answer when none is); on the first question nothing changes.
pub proof fn lemma_prev_question_written_out(q: QuizView)
    requires
        q.current_question <= q.user_answers.len(),
    ensures
        q.current_question > 0 ==> q.after_prev_question().current_question == q.current_question
            - 1 && q.after_prev_question().selected_answer == match q.user_answers[q.current_question
            - 1] {
            Some(a) => a,
            None => 0,
        } && q.after_prev_question().user_answers == q.user_answers,
        q.current_question == 0 ==> q.after_prev_question() == q,
{
}

/// Going forward, back and forward again ends where the first step did, and
/// at every step the cursor sits on the answer recorded for the question on
/// screen.
pub proof fn lemma_next_prev_next_round_trip(q: QuizView)
    requires
        q.current_question + 1 < q.questions.len() <= usize::MAX,
        q.user_answers.len() == q.questions.len(),
    ensures
        q.after_next_question().after_prev_question().after_next_question()
            == q.after_next_question(),
        q.after_next_question().selected_answer == answer_or_first(
            q.user_answers[q.after_next_question().current_question as int],
        ),
        q.after_next_question().after_prev_question().selected_answer == answer_or_first(
            q.user_answers[q.current_question as int],
        ),
{
}

/// The cursor moves by one answer within the four answers: up stops at the
/// first, down stops at the fourth, and nothing else changes.
pub proof fn lemma_cursor_moves_written_out(q: QuizView)
    ensures
        q.selected_answer >= 1 ==> q.after_move_up().selected_answer == q.selected_answer - 1,
        q.selected_answer == 0 ==> q.after_move_up().selected_answer == 0,
        q.selected_answer <= 2 ==> q.after_move_down().selected_answer == q.selected_answer + 1,
        q.selected_answer >= 3 ==> q.after_move_down().selected_answer == q.selected_answer,
        q.after_move_up().user_answers == q.user_answers,
        q.after_move_up().current_question == q.current_question,
        q.after_move_down().user_answers == q.user_answers,
        q.after_move_down().current_question == q.current_question,
{
}

/// After a restart no question has an answer, the first question is on
/// screen with the first answer under the cursor, the score is 0 and the
/// results are hidden; the questions stay.
pub proof fn lemma_restart_written_out(q: QuizView)
    ensures
        q.after_restart().user_answers.len() == q.questions.len(),
        forall|i: int|
            0 <= i < q.questions.len() ==> #[trigger] q.after_restart().user_answers[i] is None,
        q.after_restart().current_question == 0,
        q.after_restart().selected_answer == 0,
        q.after_restart().score == 0,
        !q.after_restart().show_results,
        q.after_restart().questions == q.questions,
{
}

/// When every question is answered with its correct answer, every question
/// counts; and one more answered question adds one exactly when its answer
/// is the correct one.
pub proof fn lemma_count_correct_counts_matches(answers: Seq<Option<usize>>, questions: Seq<Question>)
    requires
        answers.len() <= questions.len(),
    ensures
        (forall|i: int| 0 <= i < answers.len() ==> #[trigger] answers[i] == Some(
            questions[i].correct,
        )) ==> count_correct(answers, questions) == answers.len(),
        (forall|i: int| 0 <= i < answers.len() ==> #[trigger] answers[i] != Some(
            questions[i].correct,
        )) ==> count_correct(answers, questions) == 0,
        forall|a: Option<usize>|
            answers.len() < questions.len() ==> #[trigger] count_correct(answers.push(a), questions)
                == count_correct(answers, questions) + if a == Some(
                questions[answers.len() as int].correct,
            ) {
                1int
            } else {
                0int
            },
    decreases answers.len(),
{
    if answers.len() > 0 {
        lemma_count_correct_counts_matches(answers.drop_last(), questions);
    }
    assert forall|a: Option<usize>| answers.len() < questions.len() implies #[trigger] count_correct(
        answers.push(a),
        questions,
    ) == count_correct(answers, questions) + if a == Some(questions[answers.len() as int].correct) {
        1int
    } else {
        0int
    } by {
        assert(answers.push(a).drop_last() =~= answers);
    }
}

/// The percentage is the score out of the number of questions, rounded
/// down: `p * total <= score * 100 < (p + 1) * total`, and 0 without
/// questions.
pub proof fn lemma_percentage_rounds_down(score: nat, total: nat)
    requires
        score <= total,
    ensures
        total == 0 ==> score_percentage(score, total) == 0,
        total > 0 ==> score_percentage(score, total) as int * total <= score * 100,
        total > 0 ==> score * 100 < (score_percentage(score, total) as int + 1) * total,
        score_percentage(score, total) <= 100,
        total > 0 && score == total ==> score_percentage(score, total) == 100,
{
    if total > 0 {
        let p = (score * 100) / total;
        assert(p <= 100) by (nonlinear_arith)
            requires
                score <= total,
                total > 0,
                p == (score * 100) / total,
        ;
        assert(p * total <= score * 100 && score * 100 < (p + 1) * total) by (nonlinear_arith)
            requires
                total > 0,
                p == (score * 100) / total,
        ;
        assert(score == total ==> p == 100) by (nonlinear_arith)
            requires
                total > 0,
                p == (score * 100) / total,
        ;
    }
}

/// The message for each percentage: "Perfect! Excellent work! 🌟" exactly
/// at 100, "Great job! Well done! 👏" from 75 to 99, "Good effort! Keep
/// practicing! 👍" from 50 to 74, and "Don't give up! Try again! 💪" below
/// 50 and above 100.
pub proof fn lemma_score_messages(p: u32)
    ensures
        p == 100 ==> score_message(p) == "Perfect! Excellent work! 🌟"@,
        75 <= p <= 99 ==> score_message(p) == "Great job! Well done! 👏"@,
        50 <= p <= 74 ==> score_message(p) == "Good effort! Keep practicing! 👍"@,
        (p < 50 || p > 100) ==> score_message(p) == "Don't give up! Try again! 💪"@,
{
}

} // verus!

verus! {

/// A review session starts on its first question with the first answer
/// under the cursor, no answers, no score and the results hidden, over the
/// given questions and items. Its title says "No reviews due" when nothing
/// is due, and otherwise "SRS Review - ", the number of due items in
/// decimal, and " questions".
pub proof fn lemma_review_session_start(items: Seq<SrsItem>, questions: Seq<Question>, user_id: i64)
    ensures
        ({
            let q = QuizView::review_session(items, questions, user_id);
            &&& q.current_question == 0
            &&& q.selected_answer == 0
            &&& q.score == 0
            &&& !q.show_results
            &&& q.questions == questions
            &&& q.srs_items == items
            &&& q.user_id == user_id
            &&& q.user_answers.len() == questions.len()
            &&& forall|i: int| 0 <= i < questions.len() ==> #[trigger] q.user_answers[i] is None
            &&& items.len() == 0 ==> q.title == "No reviews due"@
            &&& items.len() > 0 ==> q.title == "SRS Review - "@ + decimal(items.len())
                + " questions"@
            &&& q.description == "Spaced repetition system review session"@
        }),
{
}

/// The progress line of an item names its stage, and adds " (Failed ",
/// the wrong-answer count in decimal and " times)" exactly when the item
/// was failed at least once.
pub proof fn lemma_progress_info_text(item: SrsItem)
    ensures
        item.incorrect_count > 0 ==> progress_info(item) == stage_name(item.srs_stage as int)
            + " (Failed "@ + decimal(item.incorrect_count as nat) + " times)"@,
        item.incorrect_count <= 0 ==> progress_info(item) == stage_name(item.srs_stage as int),
{
}

/// The results text is "Quiz Complete! 🎉", a blank line, the title, a
/// blank line, "Your Score: " with the score, " out of " with the number of
/// questions, the percentage in brackets, a blank line and the message of
/// that percentage.
pub proof fn lemma_results_text_pieces(title: Seq<char>, score: nat, total: nat)
    ensures
        results_text(title, score, total) == "Quiz Complete! 🎉\n\n"@ + title + "\n\nYour Score: "@
            + decimal(score) + " out of "@ + decimal(total) + " ("@ + decimal(
            score_percentage(score, total) as nat,
        ) + "%)\n\n"@ + score_message(score_percentage(score, total)),
{
}

} // verus!

verus! {

/// An answer to a question with an id asks about that id and is right
/// exactly when it is the question's correct answer; a question without an
/// id asks nothing.
pub proof fn lemma_request_written_out(q: QuizView, answer: usize)
    requires
        q.current_question < q.questions.len(),
    ensures
        ({
            let question = q.questions[q.current_question as int];
            &&& question.id is None ==> q.request(answer) is None
            &&& question.id is Some ==> (q.request(answer) matches Some((id, right)) && id
                == question.id->0 && (right <==> answer == question.correct))
        }),
{
}

/// The answer under the cursor is highlighted, whatever was chosen; any
/// other answer shows as chosen exactly when it is the answer recorded for
/// the question on screen.
pub proof fn lemma_marks_written_out(q: QuizView, i: usize)
    ensures
        q.mark(q.selected_answer) == AnswerMark::Highlighted,
        i != q.selected_answer ==> (q.mark(i) == AnswerMark::Chosen <==> q.user_answers[q.current_question as int] == Some(i)),
        i != q.selected_answer ==> q.mark(i) != AnswerMark::Highlighted,
{
}

/// Scoring sets the score to the number of right answers and changes
/// nothing else; a result sent back by the review system replaces the
/// current question's item when it has one, keeps every other item and
/// changes nothing else.
pub proof fn lemma_score_and_review_result_written_out(q: QuizView, item: SrsItem)
    requires
        q.user_answers.len() <= usize::MAX,
    ensures
        q.after_calculate_score().score == count_correct(q.user_answers, q.questions),
        q.after_calculate_score().user_answers == q.user_answers,
        q.after_calculate_score().current_question == q.current_question,
        q.after_calculate_score().show_results == q.show_results,
        q.current_question < q.srs_items.len() ==> q.after_review_result(item).srs_items[q.current_question as int] == item,
        q.after_review_result(item).srs_items.len() == q.srs_items.len(),
        forall|j: int|
            0 <= j < q.srs_items.len() && j != q.current_question ==> #[trigger] q.after_review_result(item).srs_items[j] == q.srs_items[j],
        q.after_review_result(item).user_answers == q.user_answers,
        q.after_review_result(item).score == q.score,
{
    lemma_count_correct_bounded(q.user_answers, q.questions);
}

} // verus!
