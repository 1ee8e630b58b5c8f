use flashcards::card::{CardError, CardQueue, CardState, FlashCard, NewState, SchedulingStates};
use flashcards::queue::{Queue, QueueBuilder, Stats};

fn stored(id: u32, queue: CardQueue, due: u64) -> FlashCard {
    FlashCard { id: Some(id), deck_id: 4, queue, due, interval: 1, memory_state: None }
}

/// A scheduler that sends every grade back to the New bucket at the card's position.
fn echo(current: CardState) -> SchedulingStates {
    let next = match current {
        CardState::New(s) => CardState::New(NewState { position: s.position }),
        _ => CardState::New(NewState { position: 0 }),
    };
    SchedulingStates { current, again: next, hard: next, good: next, easy: next }
}

fn ids(q: &Queue) -> Vec<u32> {
    q.core.iter().map(|e| e.card_id).collect()
}

fn sample() -> (Vec<FlashCard>, Vec<FlashCard>, Vec<FlashCard>) {
    let new = vec![stored(1, CardQueue::New, 0), stored(2, CardQueue::New, 1)];
    let learning = vec![stored(3, CardQueue::Learning, 0)];
    let review = vec![stored(4, CardQueue::Review, 9), stored(5, CardQueue::Review, 3), stored(6, CardQueue::Review, 7)];
    (new, learning, review)
}

#[test]
fn queue_orders_review_then_learning_then_new() {
    let (new, learning, review) = sample();
    let mut b = QueueBuilder::new(4);
    assert_eq!(b.deck_id(), 4);
    b.collect_cards(Ok(new), Ok(learning), Ok(review));
    let q = b.build(echo);
    assert_eq!(ids(&q), vec![4, 5, 6, 3, 1, 2]);
}

#[test]
fn stats_count_collected_cards() {
    let (new, learning, review) = sample();
    let mut b = QueueBuilder::new(4);
    b.collect_cards(Ok(new), Ok(learning), Ok(review));
    let q = b.build(echo);
    assert_eq!(q.stats, Stats { new: 2, learning: 1, review: 3 });
    assert_eq!(q.core.len(), q.stats.new + q.stats.learning + q.stats.review);
}

#[test]
fn entries_carry_states_of_current_card() {
    let (new, learning, review) = sample();
    let mut b = QueueBuilder::new(4);
    b.collect_cards(Ok(new.clone()), Ok(learning), Ok(review));
    let q = b.build(echo);
    let last = q.core.back().unwrap();
    assert_eq!(last.card_id, 2);
    assert_eq!(last.states.current, CardState::New(NewState { position: 1 }));
    assert_eq!(b.get_scheduling_states(&new[1], &echo), last.states);
}

#[test]
fn failed_learning_scan_leaves_other_buckets() {
    let (new, _, review) = sample();
    let mut b = QueueBuilder::new(4);
    b.collect_cards(Ok(new), Err(CardError::Storage), Ok(review));
    let q = b.build(echo);
    assert_eq!(q.stats.learning, 0);
    assert_eq!(q.stats.new, 2);
    assert_eq!(q.stats.review, 3);
    assert_eq!(ids(&q), vec![4, 5, 6, 1, 2]);
}

#[test]
fn empty_deck_builds_empty_queue() {
    let b = QueueBuilder::new(9);
    let q = b.build(echo);
    assert!(q.core.is_empty());
    assert_eq!(q.stats, Stats { new: 0, learning: 0, review: 0 });
}

#[test]
fn collecting_a_bucket_again_adds_to_it() {
    let (new, learning, review) = sample();
    let mut b = QueueBuilder::new(4);
    b.collect_bucket(CardQueue::New, Ok(new));
    b.collect_bucket(CardQueue::Learning, Ok(learning));
    b.collect_bucket(CardQueue::New, Err(CardError::Storage));
    let q = b.build(echo);
    assert_eq!(ids(&q), vec![3, 1, 2]);
    assert_eq!(q.stats, Stats { new: 2, learning: 1, review: 0 });
    b.collect_bucket(CardQueue::New, Ok(vec![stored(8, CardQueue::New, 2)]));
    b.collect_cards(Ok(vec![stored(9, CardQueue::New, 3)]), Err(CardError::Storage), Ok(review));
    let q = b.build(echo);
    assert_eq!(ids(&q), vec![4, 5, 6, 3, 1, 2, 8, 9]);
    assert_eq!(q.stats, Stats { new: 4, learning: 1, review: 3 });
}

#[test]
fn scheduling_states_report_current_state() {
    let b = QueueBuilder::new(4);
    let c = stored(2, CardQueue::New, 6);
    let r = b.get_scheduling_states(&c, &echo);
    assert_eq!(r.current, CardState::New(NewState { position: 6 }));
}

#[test]
fn queue_pops_from_front() {
    let (new, learning, review) = sample();
    let mut b = QueueBuilder::new(4);
    b.collect_cards(Ok(new), Ok(learning), Ok(review));
    let mut q = b.build(echo);
    assert_eq!(q.core.pop_front().unwrap().card_id, 4);
    assert_eq!(q.core.len(), 5);
}
