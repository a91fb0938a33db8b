//! A review session that walks through the due items of a user one by one,
//! counting how the reviews went.
use std::collections::HashMap;
use vstd::prelude::*;
use vstd::std_specs::hash::obeys_key_model;

use crate::quiz::{cursor_down, cursor_up, Question};
use crate::srs::{stage_name, SrsItem, SrsSystem, BURNED_STAGE};
use crate::text::owned_string;

verus! {

broadcast use vstd::std_specs::hash::group_hash_axioms;

/// The counts of a review session.
pub struct SessionStats {
    pub correct_answers: usize,
    pub incorrect_answers: usize,
    pub total_reviews: usize,
    pub items_leveled_up: usize,
    pub items_leveled_down: usize,
}

impl Default for SessionStats {
    fn default() -> (r: Self)
        ensures
            r == SessionStats::zero(),
    {
        SessionStats {
            correct_answers: 0,
            incorrect_answers: 0,
            total_reviews: 0,
            items_leveled_up: 0,
            items_leveled_down: 0,
        }
    }
}

impl SessionStats {
    /// Nothing counted yet.
    pub open spec fn zero() -> SessionStats {
        SessionStats {
            correct_answers: 0,
            incorrect_answers: 0,
            total_reviews: 0,
            items_leveled_up: 0,
            items_leveled_down: 0,
        }
    }

    /// Every review was either right or wrong, and moved its item up, down,
    /// or not at all.
    pub open spec fn consistent(self) -> bool {
        &&& self.total_reviews == self.correct_answers + self.incorrect_answers
        &&& self.items_leveled_up + self.items_leveled_down <= self.total_reviews
    }

    /// The counts after one more review, answered correctly or not, that
    /// moved its item from `previous_stage` to `new_stage`.
    pub open spec fn after_review(self, is_correct: bool, previous_stage: i64, new_stage: i64) -> SessionStats {
        SessionStats {
            total_reviews: (self.total_reviews + 1) as usize,
            correct_answers: if is_correct {
                (self.correct_answers + 1) as usize
            } else {
                self.correct_answers
            },
            incorrect_answers: if is_correct {
                self.incorrect_answers
            } else {
                (self.incorrect_answers + 1) as usize
            },
            items_leveled_up: if new_stage > previous_stage {
                (self.items_leveled_up + 1) as usize
            } else {
                self.items_leveled_up
            },
            items_leveled_down: if new_stage < previous_stage {
                (self.items_leveled_down + 1) as usize
            } else {
                self.items_leveled_down
            },
        }
    }

    /// Whether a review, answered correctly or not, that moved its item from
    /// `previous_stage` to `new_stage` can be counted without overflow: the
    /// total and each count that the review raises are below the maximum.
    pub open spec fn can_count_review(self, is_correct: bool, previous_stage: i64, new_stage: i64) -> bool {
        &&& self.total_reviews < usize::MAX
        &&& is_correct ==> self.correct_answers < usize::MAX
        &&& !is_correct ==> self.incorrect_answers < usize::MAX
        &&& new_stage > previous_stage ==> self.items_leveled_up < usize::MAX
        &&& new_stage < previous_stage ==> self.items_leveled_down < usize::MAX
    }
}

/// Where the question of the current item comes from.
pub enum QuestionLookup {
    /// Every item has been reviewed.
    Finished,
    /// The question is in the cache.
    Cached(Question),
    /// The question with this id has to be fetched.
    Fetch(i64),
}

/// A review session over the due items of one user.
pub struct SrsQuiz {
    pub current_items: Vec<SrsItem>,
    pub current_index: usize,
    pub selected_answer: usize,
    pub session_stats: SessionStats,
    pub user_id: i64,
    /// The questions fetched so far, by id.
    pub question_cache: HashMap<i64, Question>,
}

/// The pair of texts that describe the stage of an item: its name, and what
/// comes next.
pub open spec fn stage_info(stage: i64) -> (Seq<char>, Seq<char>) {
    (
        stage_name(stage as int),
        if stage < 9 {
            "Next: "@ + stage_name(stage + 1)
        } else {
            "Burned - No more reviews"@
        },
    )
}

/// Where the question of the item at `index` comes from: nowhere past the
/// last item, the cache when it holds the item's question, a fetch of the
/// item's question otherwise.
pub open spec fn question_lookup(
    items: Seq<SrsItem>,
    index: usize,
    cache: Map<i64, Question>,
) -> QuestionLookup {
    if index >= items.len() {
        QuestionLookup::Finished
    } else {
        let id = items[index as int].question_id;
        if cache.contains_key(id) {
            QuestionLookup::Cached(cache[id])
        } else {
            QuestionLookup::Fetch(id)
        }
    }
}

/// The state of a review session, as the contracts see it.
pub struct SrsQuizView {
    pub items: Seq<SrsItem>,
    pub index: usize,
    pub selected_answer: usize,
    pub stats: SessionStats,
    pub user_id: i64,
    pub cache: Map<i64, Question>,
}

impl View for SrsQuiz {
    type V = SrsQuizView;

    open spec fn view(&self) -> SrsQuizView {
        SrsQuizView {
            items: self.current_items@,
            index: self.current_index,
            selected_answer: self.selected_answer,
            stats: self.session_stats,
            user_id: self.user_id,
            cache: self.question_cache@,
        }
    }
}

impl SrsQuizView {
    /// A session over `items` for `user_id` at its start.
    pub open spec fn start(items: Seq<SrsItem>, user_id: i64) -> SrsQuizView {
        SrsQuizView {
            items,
            index: 0,
            selected_answer: 0,
            stats: SessionStats::zero(),
            user_id,
            cache: Map::empty(),
        }
    }

    /// Whether every item has been reviewed.
    pub open spec fn finished(self) -> bool {
        self.index >= self.items.len()
    }

    /// What an answer to the current item asks of the review system, given
    /// the correct answer of its question.
    pub open spec fn request(self, answer: usize, correct: usize) -> Option<(i64, bool)> {
        if self.finished() {
            None
        } else {
            Some((self.items[self.index as int].question_id, answer == correct))
        }
    }

    /// The state after a review of the current item was counted and the
    /// item sent back put in its place; nothing changes once every item is
    /// reviewed.
    pub open spec fn after_record(self, is_correct: bool, item: SrsItem) -> SrsQuizView {
        if self.finished() {
            self
        } else {
            SrsQuizView {
                stats: self.stats.after_review(
                    is_correct,
                    self.items[self.index as int].srs_stage,
                    item.srs_stage,
                ),
                items: self.items.update(self.index as int, item),
                ..self
            }
        }
    }

    /// The state after `next_question`: the next item with the cursor on
    /// the first answer, unless the current item is the last.
    pub open spec fn after_next(self) -> SrsQuizView {
        if self.index + 1 < self.items.len() {
            SrsQuizView { index: (self.index + 1) as usize, selected_answer: 0, ..self }
        } else {
            self
        }
    }

    /// The state after `prev_question`: the previous item with the cursor
    /// on the first answer, unless the current item is the first.
    pub open spec fn after_prev(self) -> SrsQuizView {
        if self.index > 0 {
            SrsQuizView { index: (self.index - 1) as usize, selected_answer: 0, ..self }
        } else {
            self
        }
    }

    /// The state after `move_selection_up`.
    pub open spec fn after_move_up(self) -> SrsQuizView {
        SrsQuizView { selected_answer: cursor_up(self.selected_answer), ..self }
    }

    /// The state after `move_selection_down`.
    pub open spec fn after_move_down(self) -> SrsQuizView {
        SrsQuizView { selected_answer: cursor_down(self.selected_answer), ..self }
    }

    /// The state after a new queue of due items replaces the old one.
    pub open spec fn after_reset(self, items: Seq<SrsItem>) -> SrsQuizView {
        SrsQuizView { items, index: 0, selected_answer: 0, cache: Map::empty(), ..self }
    }

    /// The state after a fetched question is cached.
    pub open spec fn after_cache(self, question_id: i64, question: Question) -> SrsQuizView {
        SrsQuizView { cache: self.cache.insert(question_id, question), ..self }
    }
}

impl SrsQuiz {
    /// A session over `current_items` for `user_id`, at the first item,
    /// with nothing counted and nothing cached.
    pub fn from_review_queue(current_items: Vec<SrsItem>, user_id: i64) -> (r: SrsQuiz)
        ensures
            r@ == SrsQuizView::start(current_items@, user_id),
            r.current_items == current_items,
            r.current_index == 0,
            r.selected_answer == 0,
            r.session_stats == SessionStats::zero(),
            r.user_id == user_id,
            r.question_cache@ == Map::<i64, Question>::empty(),
    {
        SrsQuiz {
            current_items,
            current_index: 0,
            selected_answer: 0,
            session_stats: SessionStats::default(),
            user_id,
            question_cache: HashMap::new(),
        }
    }

    /// Where the question of the current item comes from: nowhere once
    /// every item is reviewed, the cache when it holds the question, a fetch
    /// of the item's question otherwise.
    pub fn current_question_lookup(&self) -> (r: QuestionLookup)
        ensures
            r == question_lookup(self.current_items@, self.current_index, self.question_cache@),
    {
        if self.current_index >= self.current_items.len() {
            return QuestionLookup::Finished;
        }
        let id = self.current_items[self.current_index].question_id;
        assert(obeys_key_model::<i64>());
        match self.question_cache.get(&id) {
            Some(q) => QuestionLookup::Cached(q.clone()),
            None => QuestionLookup::Fetch(id),
        }
    }

    /// Keeps a fetched question for later lookups.
    pub fn cache_question(&mut self, question_id: i64, question: Question)
        ensures
            final(self)@ == old(self)@.after_cache(question_id, question),
            final(self).question_cache@ == old(self).question_cache@.insert(question_id, question),
            final(self).current_items == old(self).current_items,
            final(self).current_index == old(self).current_index,
            final(self).selected_answer == old(self).selected_answer,
            final(self).session_stats == old(self).session_stats,
            final(self).user_id == old(self).user_id,
    {
        assert(obeys_key_model::<i64>());
        self.question_cache.insert(question_id, question);
    }

    /// The current item, unless every item is reviewed.
    pub fn get_current_srs_item(&self) -> (r: Option<&SrsItem>)
        ensures
            self.current_index < self.current_items@.len() ==> r == Some(
                &self.current_items@[self.current_index as int],
            ),
            self.current_index >= self.current_items@.len() ==> (r is None),
    {
        if self.current_index >= self.current_items.len() {
            None
        } else {
            Some(&self.current_items[self.current_index])
        }
    }

    /// What an answer to the current item asks of the review system: the
    /// item's question id and whether `answer` is the question's correct
    /// one; nothing once every item is reviewed.
    pub fn review_request(&self, answer: usize, question: &Question) -> (r: Option<(i64, bool)>)
        ensures
            r == self@.request(answer, question.correct),
            self.current_index >= self.current_items@.len() ==> (r is None),
            self.current_index < self.current_items@.len() ==> r == Some(
                (
                    self.current_items@[self.current_index as int].question_id,
                    answer == question.correct,
                ),
            ),
    {
        if self.current_index >= self.current_items.len() {
            None
        } else {
            Some((self.current_items[self.current_index].question_id, answer == question.correct))
        }
    }

    /// Counts a review of the current item, answered correctly or not, and
    /// puts the item that the review system sent back in its place; once
    /// every item is reviewed, nothing changes.
    pub fn record_review(&mut self, is_correct: bool, updated_item: SrsItem)
        requires
            old(self).current_index < old(self).current_items@.len()
                ==> old(self).session_stats.can_count_review(
                is_correct,
                old(self).current_items@[old(self).current_index as int].srs_stage,
                updated_item.srs_stage,
            ),
        ensures
            final(self)@ == old(self)@.after_record(is_correct, updated_item),
            old(self).current_index < old(self).current_items@.len() ==> final(self).session_stats
                == old(self).session_stats.after_review(
                is_correct,
                old(self).current_items@[old(self).current_index as int].srs_stage,
                updated_item.srs_stage,
            ),
            old(self).current_index < old(self).current_items@.len() ==> final(self).current_items@
                == old(self).current_items@.update(old(self).current_index as int, updated_item),
            old(self).current_index >= old(self).current_items@.len() ==> final(self).session_stats
                == old(self).session_stats && final(self).current_items == old(self).current_items,
            final(self).current_index == old(self).current_index,
            final(self).selected_answer == old(self).selected_answer,
            final(self).user_id == old(self).user_id,
            final(self).question_cache == old(self).question_cache,
            old(self).session_stats.consistent() ==> final(self).session_stats.consistent(),
    {
        if self.current_index >= self.current_items.len() {
            return;
        }
        let previous_stage = self.current_items[self.current_index].srs_stage;
        self.session_stats.total_reviews = self.session_stats.total_reviews + 1;
        if is_correct {
            self.session_stats.correct_answers = self.session_stats.correct_answers + 1;
        } else {
            self.session_stats.incorrect_answers = self.session_stats.incorrect_answers + 1;
        }
        if updated_item.srs_stage > previous_stage {
            self.session_stats.items_leveled_up = self.session_stats.items_leveled_up + 1;
        } else if updated_item.srs_stage < previous_stage {
            self.session_stats.items_leveled_down = self.session_stats.items_leveled_down + 1;
        }
        let i = self.current_index;
        self.current_items.set(i, updated_item);
    }

    /// Moves to the next item, unless the current one is the last; the
    /// cursor goes back to the first answer.
    pub fn next_question(&mut self)
        requires
            old(self).current_items@.len() > 0,
        ensures
            final(self)@ == old(self)@.after_next(),
            old(self).current_index < old(self).current_items@.len() - 1 ==> final(self).current_index
                == old(self).current_index + 1 && final(self).selected_answer == 0,
            old(self).current_index >= old(self).current_items@.len() - 1 ==> final(self).current_index
                == old(self).current_index && final(self).selected_answer == old(self).selected_answer,
            final(self).current_items == old(self).current_items,
            final(self).session_stats == old(self).session_stats,
            final(self).user_id == old(self).user_id,
            final(self).question_cache == old(self).question_cache,
    {
        if self.current_index < self.current_items.len() - 1 {
            self.current_index = self.current_index + 1;
            self.selected_answer = 0;
        }
    }

    /// Moves to the previous item, if there is one; the cursor goes back to
    /// the first answer.
    pub fn prev_question(&mut self)
        ensures
            final(self)@ == old(self)@.after_prev(),
            old(self).current_index > 0 ==> final(self).current_index == old(self).current_index - 1
                && final(self).selected_answer == 0,
            old(self).current_index == 0 ==> final(self).current_index == 0
                && final(self).selected_answer == old(self).selected_answer,
            final(self).current_items == old(self).current_items,
            final(self).session_stats == old(self).session_stats,
            final(self).user_id == old(self).user_id,
            final(self).question_cache == old(self).question_cache,
    {
        if self.current_index > 0 {
            self.current_index = self.current_index - 1;
            self.selected_answer = 0;
        }
    }

    /// Moves the cursor one answer up, stopping at the first.
    pub fn move_selection_up(&mut self)
        ensures
            final(self)@ == old(self)@.after_move_up(),
            final(self).selected_answer == if old(self).selected_answer > 0 {
                (old(self).selected_answer - 1) as usize
            } else {
                0
            },
            final(self).current_items == old(self).current_items,
            final(self).current_index == old(self).current_index,
            final(self).session_stats == old(self).session_stats,
            final(self).user_id == old(self).user_id,
            final(self).question_cache == old(self).question_cache,
    {
        if self.selected_answer > 0 {
            self.selected_answer = self.selected_answer - 1;
        }
    }

    /// Moves the cursor one answer down, stopping at the fourth.
    pub fn move_selection_down(&mut self)
        ensures
            final(self)@ == old(self)@.after_move_down(),
            final(self).selected_answer == if old(self).selected_answer < 3 {
                (old(self).selected_answer + 1) as usize
            } else {
                old(self).selected_answer
            },
            final(self).current_items == old(self).current_items,
            final(self).current_index == old(self).current_index,
            final(self).session_stats == old(self).session_stats,
            final(self).user_id == old(self).user_id,
            final(self).question_cache == old(self).question_cache,
    {
        if self.selected_answer < 3 {
            self.selected_answer = self.selected_answer + 1;
        }
    }

    /// Whether every item has been reviewed.
    pub fn is_finished(&self) -> (r: bool)
        ensures
            r == self@.finished(),
            r == (self.current_index >= self.current_items@.len()),
    {
        self.current_index >= self.current_items.len()
    }

    /// The index of the current item and the number of items.
    pub fn get_progress(&self) -> (r: (usize, usize))
        ensures
            r == (self.current_index, self.current_items@.len() as usize),
    {
        (self.current_index, self.current_items.len())
    }

    /// Starts over with a new queue of due items: first item, cursor on the
    /// first answer, empty cache; the counts of the session stay.
    pub fn reset_review_queue(&mut self, current_items: Vec<SrsItem>)
        ensures
            final(self)@ == old(self)@.after_reset(current_items@),
            final(self).current_items == current_items,
            final(self).current_index == 0,
            final(self).selected_answer == 0,
            final(self).question_cache@ == Map::<i64, Question>::empty(),
            final(self).session_stats == old(self).session_stats,
            final(self).user_id == old(self).user_id,
    {
        self.current_items = current_items;
        self.current_index = 0;
        self.selected_answer = 0;
        self.question_cache.clear();
    }

    /// The name of the current item's stage and what comes next, unless
    /// every item is reviewed.
    pub fn get_stage_info(&self) -> (r: Option<(String, String)>)
        ensures
            self.current_index < self.current_items@.len() ==> (r matches Some((a, b)) && (a@, b@)
                == stage_info(self.current_items@[self.current_index as int].srs_stage)),
            self.current_index >= self.current_items@.len() ==> (r is None),
    {
        match self.get_current_srs_item() {
            Some(item) => {
                let name = owned_string(SrsSystem::get_stage_name(item.srs_stage));
                let next = if item.srs_stage < BURNED_STAGE {
                    let mut s = owned_string("Next: ");
                    s.append(SrsSystem::get_stage_name(item.srs_stage + 1));
                    s
                } else {
                    owned_string("Burned - No more reviews")
                };
                Some((name, next))
            },
            None => None,
        }
    }
}

} // verus!

verus! {

/// A session starts with consistent counts, and counting a review keeps
/// them consistent: every review is either right or wrong, and moves its
/// item up, down or not at all. Consistent counts can take one more review
/// whenever the total can.
pub proof fn lemma_session_counts_consistent(
    stats: SessionStats,
    is_correct: bool,
    previous_stage: i64,
    new_stage: i64,
)
    requires
        stats.consistent(),
        stats.total_reviews < usize::MAX,
    ensures
        SessionStats::zero().consistent(),
        stats.can_count_review(is_correct, previous_stage, new_stage),
        stats.after_review(is_correct, previous_stage, new_stage).consistent(),
        stats.after_review(is_correct, previous_stage, new_stage).total_reviews == stats.total_reviews
            + 1,
{
}

/// Once the question of the item at `index` is cached, looking it up again
/// gives the cached question, for as long as the items, the index and the
/// cache stay as they are; a lookup past the last item finds nothing.
pub proof fn lemma_lookup_after_caching(
    items: Seq<SrsItem>,
    index: usize,
    cache: Map<i64, Question>,
    question: Question,
)
    ensures
        index < items.len() ==> question_lookup(
            items,
            index,
            cache.insert(items[index as int].question_id, question),
        ) == QuestionLookup::Cached(question),
        index >= items.len() ==> question_lookup(items, index, cache) == QuestionLookup::Finished,
{
}

} // verus!

verus! {

/// The stage texts of an item: its stage's name, then "Next: " and the name
/// of the stage above for every stage below 9, and "Burned - No more
/// reviews" only from stage 9 up. For stage 8 the second text is "Next:
/// Burned", and a burned item has no next stage.
pub proof fn lemma_stage_info_written_out(s: i64)
    ensures
        stage_info(s).0 == stage_name(s as int),
        s < 9 ==> stage_info(s).1 == "Next: "@ + stage_name(s + 1),
        s >= 9 ==> stage_info(s).1 == "Burned - No more reviews"@,
        s == 8 ==> stage_info(s) == ("Enlightened"@, "Next: "@ + "Burned"@),
        s == 9 ==> stage_info(s) == ("Burned"@, "Burned - No more reviews"@),
        1 <= s <= 4 ==> stage_info(s).1 == "Next: "@ + stage_name(s + 1),
{
}

/// Counting a review adds one to the total and to exactly one of the right
/// and wrong counts, one to the level-up count exactly when the stage rose,
/// one to the level-down count exactly when it fell, and nothing when it
/// stayed.
pub proof fn lemma_review_counts_written_out(
    stats: SessionStats,
    is_correct: bool,
    previous_stage: i64,
    new_stage: i64,
)
    requires
        stats.can_count_review(is_correct, previous_stage, new_stage),
    ensures
        ({
            let after = stats.after_review(is_correct, previous_stage, new_stage);
            &&& after.total_reviews == stats.total_reviews + 1
            &&& after.correct_answers + after.incorrect_answers == stats.correct_answers
                + stats.incorrect_answers + 1
            &&& is_correct ==> after.correct_answers == stats.correct_answers + 1
            &&& !is_correct ==> after.incorrect_answers == stats.incorrect_answers + 1
            &&& new_stage > previous_stage ==> after.items_leveled_up == stats.items_leveled_up + 1
                && after.items_leveled_down == stats.items_leveled_down
            &&& new_stage < previous_stage ==> after.items_leveled_down == stats.items_leveled_down
                + 1 && after.items_leveled_up == stats.items_leveled_up
            &&& new_stage == previous_stage ==> after.items_leveled_up == stats.items_leveled_up
                && after.items_leveled_down == stats.items_leveled_down
        }),
{
}

} // verus!

verus! {

/// Walking through a review session: moving on goes to the next item with
/// the cursor on the first answer and stops at the last item; going back
/// goes to the previous item with the cursor on the first answer and stops
/// at the first; the cursor moves by one within the four answers. None of
/// these touches the items, the counts or the cache.
pub proof fn lemma_review_navigation_written_out(v: SrsQuizView)
    requires
        v.items.len() <= usize::MAX,
    ensures
        v.index + 1 < v.items.len() ==> v.after_next().index == v.index + 1
            && v.after_next().selected_answer == 0,
        v.index + 1 >= v.items.len() ==> v.after_next().index == v.index
            && v.after_next().selected_answer == v.selected_answer,
        v.index > 0 ==> v.after_prev().index == v.index - 1 && v.after_prev().selected_answer == 0,
        v.index == 0 ==> v.after_prev() == v,
        v.selected_answer >= 1 ==> v.after_move_up().selected_answer == v.selected_answer - 1,
        v.selected_answer == 0 ==> v.after_move_up().selected_answer == 0,
        v.selected_answer <= 2 ==> v.after_move_down().selected_answer == v.selected_answer + 1,
        v.selected_answer >= 3 ==> v.after_move_down().selected_answer == v.selected_answer,
        v.after_next().items == v.items && v.after_next().stats == v.stats && v.after_next().cache
            == v.cache,
        v.after_prev().items == v.items && v.after_prev().stats == v.stats && v.after_prev().cache
            == v.cache,
        v.after_move_up().index == v.index && v.after_move_down().index == v.index,
{
}

/// A session starts on its first item with the cursor on the first answer,
/// nothing counted and nothing cached; a new queue keeps the counts and the
/// user but starts over on its first item with an empty cache.
pub proof fn lemma_review_session_start_and_reset(
    v: SrsQuizView,
    items: Seq<SrsItem>,
    user_id: i64,
)
    ensures
        SrsQuizView::start(items, user_id).index == 0,
        SrsQuizView::start(items, user_id).selected_answer == 0,
        SrsQuizView::start(items, user_id).items == items,
        SrsQuizView::start(items, user_id).user_id == user_id,
        SrsQuizView::start(items, user_id).stats.total_reviews == 0,
        SrsQuizView::start(items, user_id).stats.correct_answers == 0,
        SrsQuizView::start(items, user_id).stats.incorrect_answers == 0,
        SrsQuizView::start(items, user_id).stats.items_leveled_up == 0,
        SrsQuizView::start(items, user_id).stats.items_leveled_down == 0,
        SrsQuizView::start(items, user_id).cache.dom().is_empty(),
        v.after_reset(items).index == 0 && v.after_reset(items).selected_answer == 0,
        v.after_reset(items).items == items && v.after_reset(items).cache.dom().is_empty(),
        v.after_reset(items).stats == v.stats && v.after_reset(items).user_id == v.user_id,
{
}

/// An answer to an item that is not the last reviewed asks about that item's
/// question and is right exactly when it is the question's correct answer;
/// once every item is reviewed it asks nothing. Recording a review of the
/// current item counts it, puts the returned item in its place and keeps
/// every other item; once every item is reviewed it changes nothing.
/// Caching a question makes it the question of its id and keeps the rest.
pub proof fn lemma_review_answers_written_out(
    v: SrsQuizView,
    answer: usize,
    correct: usize,
    is_correct: bool,
    item: SrsItem,
    question_id: i64,
    question: Question,
)
    ensures
        v.index < v.items.len() ==> v.request(answer, correct) == Some(
            (v.items[v.index as int].question_id, answer == correct),
        ),
        v.index >= v.items.len() ==> v.request(answer, correct) is None,
        v.index < v.items.len() ==> v.after_record(is_correct, item).items[v.index as int] == item,
        v.index < v.items.len() ==> v.after_record(is_correct, item).items.len() == v.items.len(),
        forall|j: int|
            0 <= j < v.items.len() && j != v.index ==> #[trigger] v.after_record(
                is_correct,
                item,
            ).items[j] == v.items[j],
        v.index < v.items.len() && v.stats.total_reviews < usize::MAX ==> v.after_record(
            is_correct,
            item,
        ).stats.total_reviews == v.stats.total_reviews + 1,
        v.index >= v.items.len() ==> v.after_record(is_correct, item) == v,
        v.after_record(is_correct, item).index == v.index,
        v.after_cache(question_id, question).cache.contains_key(question_id),
        v.after_cache(question_id, question).cache[question_id] == question,
        v.after_cache(question_id, question).items == v.items,
        v.after_cache(question_id, question).index == v.index,
{
}

} // verus!
