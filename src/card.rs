use vstd::prelude::*;

verus! {

/// The lifecycle bucket that a card sits in.
#[derive(Clone, Copy, Debug, PartialEq, Eq, Structural)]
pub enum CardQueue {
    New,
    Learning,
    Review,
}

/// Storage code of the New bucket.
pub const QUEUE_CODE_NEW: i64 = 0;
/// Storage code of the Learning bucket.
pub const QUEUE_CODE_LEARNING: i64 = 1;
/// Storage code of the Review bucket.
pub const QUEUE_CODE_REVIEW: i64 = 2;

/// The bucket that a storage code stands for, if any.
pub open spec fn queue_of_code(code: int) -> Option<CardQueue> {
    if code == 0 {
        Some(CardQueue::New)
    } else if code == 1 {
        Some(CardQueue::Learning)
    } else if code == 2 {
        Some(CardQueue::Review)
    } else {
        None
    }
}

impl CardQueue {
    /// The bucket stored under `code`; `None` for a code outside the known set.
    pub fn from_code(code: i64) -> (r: Option<CardQueue>)
        ensures
            r == queue_of_code(code as int),
    {
        if code == QUEUE_CODE_NEW {
            Some(CardQueue::New)
        } else if code == QUEUE_CODE_LEARNING {
            Some(CardQueue::Learning)
        } else if code == QUEUE_CODE_REVIEW {
            Some(CardQueue::Review)
        } else {
            None
        }
    }

    /// The code under which storage keeps this bucket.
    pub fn code(&self) -> (r: i64)
        ensures
            queue_of_code(r as int) == Some(*self),
    {
        match self {
            CardQueue::New => QUEUE_CODE_NEW,
            CardQueue::Learning => QUEUE_CODE_LEARNING,
            CardQueue::Review => QUEUE_CODE_REVIEW,
        }
    }
}

/// The scheduler's memory of a card, in the scheduler's own fixed-point
/// units. The core carries it from state to card without reading it.
#[derive(Clone, Copy, Debug, PartialEq, Eq, Structural)]
pub struct MemoryState {
    pub stability: u32,
    pub difficulty: u32,
}

/// A flashcard as storage keeps it.
#[derive(Clone, Copy, Debug, PartialEq, Eq, Structural)]
pub struct FlashCard {
    /// Storage id; `None` before the card was first saved.
    pub id: Option<u32>,
    pub deck_id: u32,
    pub queue: CardQueue,
    /// Position among new cards in New; absolute day index in Review.
    pub due: u64,
    /// Days until the next review, meaningful once in Review.
    pub interval: u32,
    pub memory_state: Option<MemoryState>,
}

impl FlashCard {
    /// A card from the values of its stored row. A queue code outside the
    /// known set is a data-integrity error.
    pub fn from_row(
        id: u32,
        deck_id: u32,
        queue_code: i64,
        due: u64,
        interval: u32,
        memory_state: Option<MemoryState>,
    ) -> (r: Result<FlashCard, CardError>)
        ensures
            match queue_of_code(queue_code as int) {
                Some(q) => r == Ok::<FlashCard, CardError>(
                    FlashCard { id: Some(id), deck_id, queue: q, due, interval, memory_state },
                ),
                None => r == Err::<FlashCard, CardError>(CardError::DataIntegrity(queue_code)),
            },
    {
        match CardQueue::from_code(queue_code) {
            Some(queue) => Ok(FlashCard { id: Some(id), deck_id, queue, due, interval, memory_state }),
            None => Err(CardError::DataIntegrity(queue_code)),
        }
    }

    /// Moves the card into bucket `queue`.
    pub fn set_queue(&mut self, queue: CardQueue)
        ensures
            *final(self) == (FlashCard { queue, ..*old(self) }),
    {
        self.queue = queue;
    }
}

/// Errors of the collection's operations.
#[derive(Clone, Copy, Debug, PartialEq, Eq, Structural)]
pub enum CardError {
    /// No card with the requested id.
    NotFound,
    /// Storage failed to read or write.
    Storage,
    /// A stored bucket code outside the known set.
    DataIntegrity(i64),
}

/// State of a card in the New bucket.
#[derive(Clone, Copy, Debug, PartialEq, Eq, Structural)]
pub struct NewState {
    pub position: u64,
}

/// State of a card in the Learning bucket.
#[derive(Clone, Copy, Debug, PartialEq, Eq, Structural)]
pub struct LearningState {
    pub memory_state: Option<MemoryState>,
}

/// State of a card in the Review bucket.
#[derive(Clone, Copy, Debug, PartialEq, Eq, Structural)]
pub struct ReviewState {
    pub scheduled_days: u32,
    pub memory_state: Option<MemoryState>,
}

/// Where a card sits in its lifecycle, with what that bucket needs.
#[derive(Clone, Copy, Debug, PartialEq, Eq, Structural)]
pub enum CardState {
    New(NewState),
    Learning(LearningState),
    Review(ReviewState),
}

impl CardState {
    /// The bucket that this state is tagged with.
    pub open spec fn bucket(self) -> CardQueue {
        match self {
            CardState::New(_) => CardQueue::New,
            CardState::Learning(_) => CardQueue::Learning,
            CardState::Review(_) => CardQueue::Review,
        }
    }
}

/// The current state of a stored card.
pub open spec fn current_state(card: FlashCard) -> CardState {
    match card.queue {
        CardQueue::New => CardState::New(NewState { position: card.due }),
        CardQueue::Learning => CardState::Learning(LearningState { memory_state: card.memory_state }),
        CardQueue::Review => CardState::Review(
            ReviewState { scheduled_days: card.interval, memory_state: card.memory_state },
        ),
    }
}

/// The current state of `card`, in the variant of its bucket.
pub fn get_current_card_state(card: &FlashCard) -> (r: CardState)
    ensures
        r == current_state(*card),
        r.bucket() == card.queue,
{
    match card.queue {
        CardQueue::New => CardState::New(NewState { position: card.due }),
        CardQueue::Learning => CardState::Learning(LearningState { memory_state: card.memory_state }),
        CardQueue::Review => CardState::Review(
            ReviewState { scheduled_days: card.interval, memory_state: card.memory_state },
        ),
    }
}

/// The user's grade of a recall attempt.
#[derive(Clone, Copy, Debug, PartialEq, Eq, Structural)]
pub enum Answer {
    Again,
    Hard,
    Good,
    Easy,
}

/// The four successors of a card's current state, one per grade, as the
/// scheduler computes them. The scheduler is expected to be a pure function
/// of the current state, and to give Review successors whose scheduled days
/// do not decrease from Again through Hard and Good to Easy.
#[derive(Clone, Copy, Debug, PartialEq, Eq, Structural)]
pub struct SchedulingStates {
    pub current: CardState,
    pub again: CardState,
    pub hard: CardState,
    pub good: CardState,
    pub easy: CardState,
}

/// The scheduler `next_states` records, in each result, the state it was
/// asked about.
pub open spec fn reports_current<F: Fn(CardState) -> SchedulingStates>(next_states: F) -> bool {
    forall|s: CardState, r: SchedulingStates| #[trigger] next_states.ensures((s,), r) ==> r.current == s
}

impl SchedulingStates {
    /// The successor for grade `answer`.
    pub open spec fn successor(self, answer: Answer) -> CardState {
        match answer {
            Answer::Again => self.again,
            Answer::Hard => self.hard,
            Answer::Good => self.good,
            Answer::Easy => self.easy,
        }
    }

    /// The successor for grade `answer`.
    pub fn for_answer(&self, answer: Answer) -> (r: CardState)
        ensures
            r == self.successor(answer),
    {
        match answer {
            Answer::Again => self.again,
            Answer::Hard => self.hard,
            Answer::Good => self.good,
            Answer::Easy => self.easy,
        }
    }
}

} // verus!
