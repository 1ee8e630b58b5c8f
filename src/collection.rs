use vstd::prelude::*;

use crate::card::{
    current_state, get_current_card_state, Answer, CardQueue, CardState, FlashCard,
    SchedulingStates,
};
use crate::queue::Queue;
use crate::timing::{days_since, timing_outcome, SchedTimingToday, TimingOutcome};

verus! {

/// Sets up a collection: where it is stored and how its clock is derived.
pub struct CollectionBuilder {
    collection_path: Option<String>,
}

impl View for CollectionBuilder {
    type V = Option<Seq<char>>;

    closed spec fn view(&self) -> Option<Seq<char>> {
        match self.collection_path {
            Some(p) => Some(p@),
            None => None,
        }
    }
}

/// The path that names a collection kept in memory only.
pub open spec fn in_memory_path() -> Seq<char> {
    seq![':', 'm', 'e', 'm', 'o', 'r', 'y', ':']
}

impl Default for CollectionBuilder {
    /// A builder for a collection kept in memory only.
    fn default() -> (r: Self)
        ensures
            r@ == None::<Seq<char>>,
    {
        CollectionBuilder { collection_path: None }
    }
}

impl CollectionBuilder {
    pub fn new(col_path: String) -> (r: Self)
        ensures
            r@ == Some(col_path@),
    {
        CollectionBuilder { collection_path: Some(col_path) }
    }

    /// The path to open: the one given, or the in-memory marker.
    pub fn collection_path(&self) -> (r: String)
        ensures
            r@ == (match self@ {
                Some(p) => p,
                None => in_memory_path(),
            }),
    {
        match &self.collection_path {
            Some(p) => p.clone(),
            None => {
                proof {
                    reveal_strlit(":memory:");
                }
                ":memory:".to_owned()
            },
        }
    }

    /// The clock of a collection opened at `now`, given the creation stamp
    /// found in storage, if any. Without one, `now` becomes the stamp and is
    /// to be persisted; a clock behind the stamp counts as day zero and is
    /// flagged.
    pub fn timing_for_timestamp(stored_stamp: Option<i64>, now: i64) -> (r: TimingOutcome)
        ensures
            r == timing_outcome(stored_stamp, now),
            r.timing.wf(),
            r.timing.now == now,
            stored_stamp is None ==> r.timing.days_elapsed == 0 && r.stamp_to_store == Some(now),
            stored_stamp is Some ==> {
                &&& r.timing.days_elapsed == days_since(stored_stamp->0 as int, now as int)
                &&& r.stamp_to_store is None
                &&& r.clock_behind_stamp == (now < stored_stamp->0)
            },
    {
        match stored_stamp {
            None => {
                let timing = SchedTimingToday::from_stamp(now, now);
                TimingOutcome { timing, stamp_to_store: Some(now), clock_behind_stamp: false }
            },
            Some(stamp) => {
                let timing = SchedTimingToday::from_stamp(stamp, now);
                TimingOutcome { timing, stamp_to_store: None, clock_behind_stamp: now < stamp }
            },
        }
    }
}

/// An opened collection: its clock and the queue last built from it.
pub struct Collection {
    pub card_queues: Option<Queue>,
    pub timing: SchedTimingToday,
}

/// `card` after moving it into the successor state `next`, on day
/// `days_elapsed`.
pub open spec fn applied(card: FlashCard, next: CardState, days_elapsed: u64) -> FlashCard {
    match next {
        CardState::New(s) => FlashCard { queue: CardQueue::New, due: s.position, ..card },
        CardState::Learning(s) => FlashCard {
            queue: CardQueue::Learning,
            memory_state: s.memory_state,
            ..card
        },
        CardState::Review(s) => FlashCard {
            queue: CardQueue::Review,
            interval: s.scheduled_days,
            due: (days_elapsed + s.scheduled_days) as u64,
            memory_state: s.memory_state,
            ..card
        },
    }
}

/// `card` after grade `answer`, where the scheduler offered `states`.
pub open spec fn answered(
    card: FlashCard,
    states: SchedulingStates,
    answer: Answer,
    days_elapsed: u64,
) -> FlashCard {
    applied(card, states.successor(answer), days_elapsed)
}

/// `r` is a card that answering `card` with `answer` on day `days_elapsed`
/// can give, with `next_states` as the scheduler.
pub open spec fn answer_result<F: Fn(CardState) -> SchedulingStates>(
    next_states: F,
    card: FlashCard,
    answer: Answer,
    days_elapsed: u64,
    r: FlashCard,
) -> bool {
    exists|states: SchedulingStates|
        #[trigger] next_states.ensures((current_state(card),), states) && r == answered(
            card,
            states,
            answer,
            days_elapsed,
        )
}

/// The scheduler gives one result for each state.
pub open spec fn is_deterministic<F: Fn(CardState) -> SchedulingStates>(next_states: F) -> bool {
    forall|s: CardState, a: SchedulingStates, b: SchedulingStates|
        #[trigger] next_states.ensures((s,), a) && #[trigger] next_states.ensures((s,), b) ==> a
            == b
}

impl Collection {
    /// Moves `card` into the successor state `next`.
    pub fn apply_state(&self, card: &mut FlashCard, next: CardState)
        requires
            self.timing.wf(),
        ensures
            *final(card) == applied(*old(card), next, self.timing.days_elapsed),
            next is New ==> {
                &&& final(card).queue == CardQueue::New
                &&& final(card).due == next->New_0.position
            },
            next is Learning ==> {
                &&& final(card).queue == CardQueue::Learning
                &&& final(card).memory_state == next->Learning_0.memory_state
                &&& final(card).due == old(card).due
                &&& final(card).interval == old(card).interval
            },
            next is Review ==> {
                &&& final(card).queue == CardQueue::Review
                &&& final(card).due == self.timing.days_elapsed + next->Review_0.scheduled_days
                &&& final(card).interval == next->Review_0.scheduled_days
                &&& final(card).memory_state == next->Review_0.memory_state
            },
    {
        match next {
            CardState::New(next_new_state) => {
                card.due = next_new_state.position;
                card.set_queue(CardQueue::New);
            },
            CardState::Learning(next_learning_state) => {
                card.set_queue(CardQueue::Learning);
                card.memory_state = next_learning_state.memory_state;
            },
            CardState::Review(next_review_state) => {
                card.set_queue(CardQueue::Review);
                card.interval = next_review_state.scheduled_days;
                card.due = self.timing.days_elapsed + next_review_state.scheduled_days as u64;
                card.memory_state = next_review_state.memory_state;
            },
        }
    }

    /// `card` after grade `answer`, where the scheduler offered `states`.
    pub fn apply_answer(&self, card: FlashCard, states: &SchedulingStates, answer: Answer) -> (r:
        FlashCard)
        requires
            self.timing.wf(),
        ensures
            r == answered(card, *states, answer, self.timing.days_elapsed),
    {
        let mut card = card;
        let next = states.for_answer(answer);
        self.apply_state(&mut card, next);
        card
    }

    /// `card` after grade `answer`: the scheduler `next_states` is asked for
    /// the successors of the card's current state, and the one for `answer`
    /// is applied.
    pub fn answer_card<F: Fn(CardState) -> SchedulingStates>(
        &self,
        card: FlashCard,
        answer: Answer,
        next_states: F,
    ) -> (r: FlashCard)
        requires
            self.timing.wf(),
            forall|s: CardState| #[trigger] next_states.requires((s,)),
        ensures
            answer_result(next_states, card, answer, self.timing.days_elapsed, r),
    {
        let current = get_current_card_state(&card);
        let states = next_states(current);
        let r = self.apply_answer(card, &states, answer);
        assert(next_states.ensures((current_state(card),), states));
        r
    }
}

/// With a scheduler that gives one result for each state, answering one
/// card with one grade on one day gives one card.
pub proof fn lemma_answer_deterministic<F: Fn(CardState) -> SchedulingStates>(
    next_states: F,
    card: FlashCard,
    answer: Answer,
    days_elapsed: u64,
    r1: FlashCard,
    r2: FlashCard,
)
    requires
        is_deterministic(next_states),
        answer_result(next_states, card, answer, days_elapsed, r1),
        answer_result(next_states, card, answer, days_elapsed, r2),
    ensures
        r1 == r2,
{
    let s1 = choose|s: SchedulingStates|
        #[trigger] next_states.ensures((current_state(card),), s) && r1 == answered(
            card,
            s,
            answer,
            days_elapsed,
        );
    let s2 = choose|s: SchedulingStates|
        #[trigger] next_states.ensures((current_state(card),), s) && r2 == answered(
            card,
            s,
            answer,
            days_elapsed,
        );
    assert(s1 == s2);
}

} // verus!
