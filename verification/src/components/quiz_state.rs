//! Where a quiz question stands: still open, answered right, or answered
//! wrong.

use vstd::prelude::*;

verus! {

/// The state of the question that is on the screen.
#[derive(Debug, Clone, Copy, PartialEq, Eq, Structural)]
pub enum QuizState {
    /// No answer was chosen yet.
    Question,
    /// The right answer was chosen.
    AnswerCorrect,
    /// A wrong answer was chosen: which one, and which would have been right.
    AnswerIncorrect { selected: usize, correct: usize },
}

impl QuizState {
    /// Whether an answer was chosen.
    pub fn is_answered(&self) -> (b: bool)
        ensures
            b == !(*self is Question),
    {
        match self {
            QuizState::Question => false,
            _ => true,
        }
    }

    /// Whether the answer that was chosen is the right one.
    pub fn is_correct(&self) -> (b: bool)
        ensures
            b == (*self is AnswerCorrect),
    {
        match self {
            QuizState::AnswerCorrect => true,
            _ => false,
        }
    }
}

} // verus!
