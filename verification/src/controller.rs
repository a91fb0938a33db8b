//! What a key press does to the program: the quiz screen and the results
//! screen each answer a handful of keys.
use vstd::prelude::*;

use crate::quiz::{lemma_wf_allows_every_step, Quiz, QuizView};

verus! {

/// A key the program reacts to.
#[derive(Clone, Copy, Debug, PartialEq, Eq)]
pub enum KeyInput {
    Char(char),
    Esc,
    Up,
    Down,
    Enter,
    Left,
    Right,
    Other,
}

/// The state of the program: the quiz, and whether the user asked to leave.
pub struct App {
    pub quiz: Quiz,
    pub should_quit: bool,
}

/// The state of the program, as the contracts see it.
pub struct AppView {
    pub quiz: QuizView,
    pub should_quit: bool,
}

impl View for App {
    type V = AppView;

    open spec fn view(&self) -> AppView {
        AppView { quiz: self.quiz@, should_quit: self.should_quit }
    }
}

/// Whether `key` records the answer under the cursor on the quiz screen
/// (Enter, Right and Space do).
pub open spec fn key_selects_answer(key: KeyInput) -> bool {
    key == KeyInput::Enter || key == KeyInput::Right || key == KeyInput::Char(' ')
}

impl AppView {
    /// Whether the program can take `key`: on the quiz screen, Left needs
    /// what `prev_question` reads, Space needs an answer slot for the
    /// current question, and Enter and Right need that slot and what
    /// `next_question` reads after the answer is recorded. Every other key,
    /// and every key on the results screen, can always be taken.
    pub open spec fn accepts(self, key: KeyInput) -> bool {
        let q = self.quiz;
        if key == KeyInput::Char('q') || key == KeyInput::Esc || q.show_results {
            true
        } else if key == KeyInput::Left {
            q.can_prev()
        } else if key == KeyInput::Char(' ') {
            q.can_select()
        } else if key == KeyInput::Enter || key == KeyInput::Right {
            q.can_select() && q.after_select_answer().can_next()
        } else {
            true
        }
    }

    /// The state after a key press. On either screen `q` and Esc ask to
    /// leave. On the quiz screen Up and Down move the cursor, Left goes one
    /// question back, Space records the answer under the cursor, and Enter
    /// and Right record it and go on. On the results screen Enter and `r`
    /// start the quiz over. Every other key changes nothing.
    pub open spec fn after_key(self, key: KeyInput) -> AppView {
        let q = self.quiz;
        if key == KeyInput::Char('q') || key == KeyInput::Esc {
            AppView { should_quit: true, ..self }
        } else if q.show_results {
            if key == KeyInput::Enter || key == KeyInput::Char('r') {
                AppView { quiz: q.after_restart(), ..self }
            } else {
                self
            }
        } else {
            let quiz = if key == KeyInput::Up {
                q.after_move_up()
            } else if key == KeyInput::Down {
                q.after_move_down()
            } else if key == KeyInput::Left {
                q.after_prev_question()
            } else if key == KeyInput::Char(' ') {
                q.after_select_answer()
            } else if key == KeyInput::Enter || key == KeyInput::Right {
                q.after_select_answer().after_next_question()
            } else {
                q
            };
            AppView { quiz, ..self }
        }
    }
}

impl App {
    /// Applies a key press.
    pub fn handle_key(&mut self, key: KeyInput)
        requires
            old(self)@.accepts(key),
        ensures
            final(self)@ == old(self)@.after_key(key),
            old(self)@.quiz.wf() ==> final(self)@.quiz.wf(),
    {
        match key {
            KeyInput::Char('q') | KeyInput::Esc => {
                self.should_quit = true;
            },
            KeyInput::Up => {
                if !self.quiz.show_results {
                    self.quiz.move_selection_up();
                }
            },
            KeyInput::Down => {
                if !self.quiz.show_results {
                    self.quiz.move_selection_down();
                }
            },
            KeyInput::Enter => {
                if self.quiz.show_results {
                    self.quiz.restart();
                } else {
                    self.quiz.select_answer();
                    self.quiz.next_question();
                }
            },
            KeyInput::Left => {
                if !self.quiz.show_results {
                    self.quiz.prev_question();
                }
            },
            KeyInput::Right => {
                if !self.quiz.show_results {
                    self.quiz.select_answer();
                    self.quiz.next_question();
                }
            },
            KeyInput::Char(' ') => {
                if !self.quiz.show_results {
                    self.quiz.select_answer();
                }
            },
            KeyInput::Char('r') => {
                if self.quiz.show_results {
                    self.quiz.restart();
                }
            },
            _ => {},
        }
    }
}

} // verus!

verus! {

/// The keys do what the help line promises. Esc and `q` quit and leave the
/// quiz as it is; on the results screen Enter and `r` restart, and the
/// arrows and Space change nothing; on the quiz screen Up and Down only
/// move the cursor, Left goes to the previous question, and Space, Enter
/// and Right record the answer under the cursor for the current question.
pub proof fn lemma_keys_do_what_the_help_line_says(a: AppView, key: KeyInput)
    requires
        a.accepts(key),
    ensures
        (key == KeyInput::Esc || key == KeyInput::Char('q')) ==> a.after_key(key).should_quit
            && a.after_key(key).quiz == a.quiz,
        a.quiz.show_results && (key == KeyInput::Enter || key == KeyInput::Char('r'))
            ==> a.after_key(key).quiz == a.quiz.after_restart() && !a.after_key(key).quiz.show_results,
        a.quiz.show_results && (key == KeyInput::Up || key == KeyInput::Down || key
            == KeyInput::Left || key == KeyInput::Right || key == KeyInput::Char(' '))
            ==> a.after_key(key) == a,
        !a.quiz.show_results && (key == KeyInput::Up || key == KeyInput::Down) ==> a.after_key(
            key,
        ).quiz.user_answers == a.quiz.user_answers && a.after_key(key).quiz.current_question
            == a.quiz.current_question && a.after_key(key).should_quit == a.should_quit,
        !a.quiz.show_results && key == KeyInput::Left ==> a.after_key(key).quiz
            == a.quiz.after_prev_question(),
        !a.quiz.show_results && key_selects_answer(key) ==> a.after_key(
            key,
        ).quiz.user_answers[a.quiz.current_question as int] == Some(a.quiz.selected_answer),
        a.quiz.wf() ==> a.after_key(key).quiz.wf(),
        a.quiz.wf() && (!a.quiz.show_results && key_selects_answer(key) ==> a.quiz.questions.len()
            > 0) ==> a.accepts(key),
{
    if a.quiz.wf() {
        lemma_wf_allows_every_step(a.quiz);
    }
}

} // verus!

verus! {

/// A key that the screen on show does not list changes nothing. On the quiz
/// screen only Esc, `q`, Up, Down, Left, Space, Enter and Right act; on the
/// results screen only Esc, `q`, Enter and `r`. In particular `r` on the
/// quiz screen keeps every answer given so far.
pub proof fn lemma_unlisted_keys_change_nothing(a: AppView, key: KeyInput)
    ensures
        !a.quiz.show_results && key != KeyInput::Esc && key != KeyInput::Char('q') && key
            != KeyInput::Up && key != KeyInput::Down && key != KeyInput::Left && key
            != KeyInput::Char(' ') && key != KeyInput::Enter && key != KeyInput::Right
            ==> a.after_key(key) == a,
        a.quiz.show_results && key != KeyInput::Esc && key != KeyInput::Char('q') && key
            != KeyInput::Enter && key != KeyInput::Char('r') ==> a.after_key(key) == a,
        !a.quiz.show_results ==> a.after_key(KeyInput::Char('r')) == a,
        a.after_key(key).quiz.questions == a.quiz.questions,
{
}

/// What the listed keys do on the quiz screen, step by step: Up and Down
/// move the cursor by one within the four answers, Left goes one question
/// back, Space records the answer under the cursor for the question on
/// screen, and Enter and Right record it and then move on.
pub proof fn lemma_quiz_screen_keys(a: AppView)
    requires
        !a.quiz.show_results,
    ensures
        a.after_key(KeyInput::Up).quiz == a.quiz.after_move_up(),
        a.after_key(KeyInput::Down).quiz == a.quiz.after_move_down(),
        a.after_key(KeyInput::Left).quiz == a.quiz.after_prev_question(),
        a.after_key(KeyInput::Char(' ')).quiz.user_answers == a.quiz.user_answers.update(
            a.quiz.current_question as int,
            Some(a.quiz.selected_answer),
        ),
        a.after_key(KeyInput::Char(' ')).quiz.current_question == a.quiz.current_question,
        a.after_key(KeyInput::Enter) == a.after_key(KeyInput::Right),
        a.after_key(KeyInput::Enter).quiz == a.quiz.after_select_answer().after_next_question(),
        a.after_key(KeyInput::Up).should_quit == a.should_quit,
        a.after_key(KeyInput::Enter).should_quit == a.should_quit,
{
}

} // verus!
