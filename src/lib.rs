//! The scheduling core of a spaced-repetition flashcard tool: the day clock of
//! a collection, the transitions of a card when it is graded, and the queue
//! of due cards built from a deck.

pub mod card;
pub mod collection;
pub mod queue;
pub mod timing;
