//! The texts of the quiz screen that depend on its state.
use vstd::prelude::*;

verus! {

/// The label in front of an answer.
pub open spec fn answer_prefix_text(answer_index: usize) -> Seq<char> {
    if answer_index == 0 {
        "A) "@
    } else if answer_index == 1 {
        "B) "@
    } else if answer_index == 2 {
        "C) "@
    } else if answer_index == 3 {
        "D) "@
    } else {
        "   "@
    }
}

/// The help line: the keys of the results screen, or those of the quiz.
pub open spec fn instructions_text(show_results: bool) -> Seq<char> {
    if show_results {
        "Enter/r - Restart • Esc/q - Quit"@
    } else {
        "↑/↓ Select • Space/Enter/→ Confirm • ← Previous • Esc/q - Quit"@
    }
}

/// The label in front of an answer: "A) " to "D) " for the four answers.
pub fn answer_prefix(answer_index: usize) -> (r: &'static str)
    ensures
        r@ == answer_prefix_text(answer_index),
{
    match answer_index {
        0 => "A) ",
        1 => "B) ",
        2 => "C) ",
        3 => "D) ",
        _ => "   ",
    }
}

/// The help line for the screen on show.
pub fn instructions(show_results: bool) -> (r: &'static str)
    ensures
        r@ == instructions_text(show_results),
{
    if show_results {
        "Enter/r - Restart • Esc/q - Quit"
    } else {
        "↑/↓ Select • Space/Enter/→ Confirm • ← Previous • Esc/q - Quit"
    }
}

} // verus!

verus! {

/// The four answers are labelled "A) " to "D) " in order; any other index
/// gets three blanks. The help line of the results screen lists Enter/r and
/// Esc/q; that of the quiz screen lists the arrows, Space, Enter, Right,
/// Left and Esc/q.
pub proof fn lemma_screen_texts(i: usize)
    ensures
        i == 0 ==> answer_prefix_text(i) == "A) "@,
        i == 1 ==> answer_prefix_text(i) == "B) "@,
        i == 2 ==> answer_prefix_text(i) == "C) "@,
        i == 3 ==> answer_prefix_text(i) == "D) "@,
        i > 3 ==> answer_prefix_text(i) == "   "@,
        instructions_text(true) == "Enter/r - Restart • Esc/q - Quit"@,
        instructions_text(false) == "↑/↓ Select • Space/Enter/→ Confirm • ← Previous • Esc/q - Quit"@,
{
}

} // verus!
