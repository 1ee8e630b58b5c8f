use vstd::prelude::*;

use std::collections::VecDeque;

use crate::card::{
    current_state, get_current_card_state, reports_current, CardError, CardQueue, CardState, FlashCard,
    SchedulingStates,
};

verus! {

/// How many cards of each bucket a queue was built from.
#[derive(Clone, Copy, Debug, PartialEq, Eq, Structural)]
pub struct Stats {
    pub new: usize,
    pub learning: usize,
    pub review: usize,
}

/// The ordered work of a study session, and the counts behind it.
#[derive(Clone)]
pub struct Queue {
    pub stats: Stats,
    pub core: VecDeque<QueueEntry>,
}

/// A due card and the successors that its grades lead to.
#[derive(Clone, Copy, Debug, PartialEq, Eq, Structural)]
pub struct QueueEntry {
    pub card_id: u32,
    pub states: SchedulingStates,
}

/// Gathers a deck's cards bucket by bucket, then orders them into a queue.
pub struct QueueBuilder {
    deck_id: u32,
    new: Vec<FlashCard>,
    review: Vec<FlashCard>,
    learning: Vec<FlashCard>,
}

/// Every card of `cards` has a storage id.
pub open spec fn all_stored(cards: Seq<FlashCard>) -> bool {
    forall|i: int| 0 <= i < cards.len() ==> (#[trigger] cards[i]).id is Some
}

/// What a bucket holds after a scan gave `scanned`: the cards found, or
/// none where the scan failed.
pub open spec fn scan_result(scanned: Result<Vec<FlashCard>, CardError>) -> Seq<
    FlashCard,
> {
    match scanned {
        Ok(cards) => cards@,
        Err(_) => Seq::empty(),
    }
}

/// `e` is the entry of `card`, with states that `next_states` gave for the
/// card's current state.
pub open spec fn entry_of<F: Fn(CardState) -> SchedulingStates>(
    next_states: F,
    card: FlashCard,
    e: QueueEntry,
) -> bool {
    &&& card.id == Some(e.card_id)
    &&& next_states.ensures((current_state(card),), e.states)
}

impl QueueBuilder {
    /// Cards collected from the New bucket.
    pub closed spec fn new_cards(&self) -> Seq<FlashCard> {
        self.new@
    }

    /// Cards collected from the Learning bucket.
    pub closed spec fn learning_cards(&self) -> Seq<FlashCard> {
        self.learning@
    }

    /// Cards collected from the Review bucket.
    pub closed spec fn review_cards(&self) -> Seq<FlashCard> {
        self.review@
    }

    pub closed spec fn deck(&self) -> u32 {
        self.deck_id
    }

    /// Every collected card has a storage id.
    pub open spec fn wf(&self) -> bool {
        &&& all_stored(self.new_cards())
        &&& all_stored(self.learning_cards())
        &&& all_stored(self.review_cards())
    }

    /// The collected cards in queue order: Review, then Learning, then New.
    pub open spec fn ordered(&self) -> Seq<FlashCard> {
        self.review_cards() + self.learning_cards() + self.new_cards()
    }

    /// `q` is a queue that `build` can make from these cards with scheduler
    /// `next_states`: one entry per card in queue order, and the counts of
    /// cards collected per bucket.
    pub open spec fn builds<F: Fn(CardState) -> SchedulingStates>(
        &self,
        next_states: F,
        q: Queue,
    ) -> bool {
        &&& q.stats.new == self.new_cards().len()
        &&& q.stats.learning == self.learning_cards().len()
        &&& q.stats.review == self.review_cards().len()
        &&& q.core@.len() == self.ordered().len()
        &&& forall|i: int|
            0 <= i < q.core@.len() ==> entry_of(next_states, #[trigger] self.ordered()[i], q.core@[i])
    }

    pub fn new(deck_id: u32) -> (r: Self)
        ensures
            r.wf(),
            r.deck() == deck_id,
            r.new_cards() == Seq::<FlashCard>::empty(),
            r.learning_cards() == Seq::<FlashCard>::empty(),
            r.review_cards() == Seq::<FlashCard>::empty(),
    {
        QueueBuilder { deck_id, new: vec![], review: vec![], learning: vec![] }
    }

    /// The deck whose cards are gathered.
    pub fn deck_id(&self) -> (r: u32)
        ensures
            r == self.deck(),
    {
        self.deck_id
    }

    /// Takes the outcome of scanning bucket `bucket`: the cards found are
    /// added after those the bucket already holds; a failed scan adds none.
    /// The other buckets stay.
    pub fn collect_bucket(
        &mut self,
        bucket: CardQueue,
        scanned: Result<Vec<FlashCard>, CardError>,
    )
        requires
            old(self).wf(),
            all_stored(scan_result(scanned)),
        ensures
            final(self).wf(),
            final(self).deck() == old(self).deck(),
            final(self).new_cards() == (if bucket == CardQueue::New {
                old(self).new_cards() + scan_result(scanned)
            } else {
                old(self).new_cards()
            }),
            final(self).learning_cards() == (if bucket == CardQueue::Learning {
                old(self).learning_cards() + scan_result(scanned)
            } else {
                old(self).learning_cards()
            }),
            final(self).review_cards() == (if bucket == CardQueue::Review {
                old(self).review_cards() + scan_result(scanned)
            } else {
                old(self).review_cards()
            }),
    {
        let mut cards = match scanned {
            Ok(cards) => cards,
            Err(_) => Vec::new(),
        };
        match bucket {
            CardQueue::New => self.new.append(&mut cards),
            CardQueue::Learning => self.learning.append(&mut cards),
            CardQueue::Review => self.review.append(&mut cards),
        }
        proof {
            let s = scan_result(scanned);
            assert(all_stored(self.new_cards())) by {
                assert forall|i: int| 0 <= i < self.new_cards().len() implies (
                #[trigger] self.new_cards()[i]).id is Some by {
                    if bucket == CardQueue::New && i >= old(self).new_cards().len() {
                        assert(self.new_cards()[i] == s[i - old(self).new_cards().len()]);
                    }
                }
            }
            assert(all_stored(self.learning_cards())) by {
                assert forall|i: int| 0 <= i < self.learning_cards().len() implies (
                #[trigger] self.learning_cards()[i]).id is Some by {
                    if bucket == CardQueue::Learning && i >= old(self).learning_cards().len() {
                        assert(self.learning_cards()[i] == s[i - old(self).learning_cards().len()]);
                    }
                }
            }
            assert(all_stored(self.review_cards())) by {
                assert forall|i: int| 0 <= i < self.review_cards().len() implies (
                #[trigger] self.review_cards()[i]).id is Some by {
                    if bucket == CardQueue::Review && i >= old(self).review_cards().len() {
                        assert(self.review_cards()[i] == s[i - old(self).review_cards().len()]);
                    }
                }
            }
        }
    }

    /// Takes the outcome of scanning each bucket, in the order New,
    /// Learning, Review. Each scan's cards are added after those its bucket
    /// already holds; a failed scan adds none and leaves the others
    /// unaffected.
    pub fn collect_cards(
        &mut self,
        new: Result<Vec<FlashCard>, CardError>,
        learning: Result<Vec<FlashCard>, CardError>,
        review: Result<Vec<FlashCard>, CardError>,
    )
        requires
            old(self).wf(),
            all_stored(scan_result(new)),
            all_stored(scan_result(learning)),
            all_stored(scan_result(review)),
        ensures
            final(self).wf(),
            final(self).deck() == old(self).deck(),
            final(self).new_cards() == old(self).new_cards() + scan_result(new),
            final(self).learning_cards() == old(self).learning_cards() + scan_result(learning),
            final(self).review_cards() == old(self).review_cards() + scan_result(review),
    {
        self.collect_bucket(CardQueue::New, new);
        self.collect_bucket(CardQueue::Learning, learning);
        self.collect_bucket(CardQueue::Review, review);
    }

    /// The successors of `card`'s current state, from scheduler `next_states`.
    pub fn get_scheduling_states<F: Fn(CardState) -> SchedulingStates>(
        &self,
        card: &FlashCard,
        next_states: &F,
    ) -> (r: SchedulingStates)
        requires
            forall|s: CardState| #[trigger] next_states.requires((s,)),
            reports_current(*next_states),
        ensures
            next_states.ensures((current_state(*card),), r),
            r.current == current_state(*card),
            r.current.bucket() == card.queue,
    {
        let current_state = get_current_card_state(card);
        next_states(current_state)
    }

    /// Appends the entries of `cards` to `core`, in order.
    fn push_entries<F: Fn(CardState) -> SchedulingStates>(
        &self,
        cards: &Vec<FlashCard>,
        next_states: &F,
        core: &mut VecDeque<QueueEntry>,
    )
        requires
            all_stored(cards@),
            forall|s: CardState| #[trigger] next_states.requires((s,)),
            reports_current(*next_states),
        ensures
            final(core)@.len() == old(core)@.len() + cards@.len(),
            forall|i: int| 0 <= i < old(core)@.len() ==> final(core)@[i] == old(core)@[i],
            forall|i: int|
                0 <= i < cards@.len() ==> entry_of(
                    *next_states,
                    #[trigger] cards@[i],
                    final(core)@[old(core)@.len() + i],
                ),
    {
        let ghost start = core@.len();
        let mut k: usize = 0;
        while k < cards.len()
            invariant
                k <= cards@.len(),
                all_stored(cards@),
                forall|s: CardState| #[trigger] next_states.requires((s,)),
                reports_current(*next_states),
                core@.len() == start + k,
                start == old(core)@.len(),
                forall|i: int| 0 <= i < start ==> core@[i] == old(core)@[i],
                forall|i: int|
                    0 <= i < k ==> entry_of(*next_states, #[trigger] cards@[i], core@[start + i]),
            decreases cards@.len() - k,
        {
            let card = &cards[k];
            assert(cards@[k as int].id is Some);
            let states = self.get_scheduling_states(card, next_states);
            let card_id = card.id.unwrap();
            core.push_back(QueueEntry { card_id, states });
            k = k + 1;
        }
    }

    /// The queue of the collected cards: Review cards first, then Learning,
    /// then New, each bucket in scan order, every card with the successors
    /// that `next_states` gives for its current state; and the count of each
    /// bucket.
    pub fn build<F: Fn(CardState) -> SchedulingStates>(&self, next_states: F) -> (r: Queue)
        requires
            self.wf(),
            forall|s: CardState| #[trigger] next_states.requires((s,)),
            reports_current(next_states),
        ensures
            self.builds(next_states, r),
    {
        let mut core: VecDeque<QueueEntry> = VecDeque::new();
        self.push_entries(&self.review, &next_states, &mut core);
        self.push_entries(&self.learning, &next_states, &mut core);
        self.push_entries(&self.new, &next_states, &mut core);
        let stats = Stats { new: self.new.len(), learning: self.learning.len(), review: self.review.len() };
        let r = Queue { stats, core };
        assert forall|i: int| 0 <= i < r.core@.len() implies entry_of(
            next_states,
            #[trigger] self.ordered()[i],
            r.core@[i],
        ) by {
            let nr = self.review@.len() as int;
            let nl = self.learning@.len() as int;
            if i < nr {
                assert(self.ordered()[i] == self.review@[i]);
            } else if i < nr + nl {
                assert(self.ordered()[i] == self.learning@[i - nr]);
            } else {
                assert(self.ordered()[i] == self.new@[i - nr - nl]);
            }
        }
        r
    }
}

/// The queue holds one entry per collected card, and its counts are the
/// numbers of cards collected from each bucket.
pub proof fn lemma_queue_counts<F: Fn(CardState) -> SchedulingStates>(
    b: QueueBuilder,
    next_states: F,
    q: Queue,
)
    requires
        b.builds(next_states, q),
    ensures
        q.core@.len() == q.stats.new + q.stats.learning + q.stats.review,
        q.stats.new == b.new_cards().len(),
        q.stats.learning == b.learning_cards().len(),
        q.stats.review == b.review_cards().len(),
{
}

/// Review entries come first, then Learning entries, then New entries; within
/// a bucket the entries keep the order in which the scan found the cards.
pub proof fn lemma_queue_order<F: Fn(CardState) -> SchedulingStates>(
    b: QueueBuilder,
    next_states: F,
    q: Queue,
)
    requires
        b.builds(next_states, q),
    ensures
        forall|i: int|
            0 <= i < b.review_cards().len() ==> entry_of(
                next_states,
                #[trigger] b.review_cards()[i],
                q.core@[i],
            ),
        forall|i: int|
            0 <= i < b.learning_cards().len() ==> entry_of(
                next_states,
                #[trigger] b.learning_cards()[i],
                q.core@[b.review_cards().len() + i],
            ),
        forall|i: int|
            0 <= i < b.new_cards().len() ==> entry_of(
                next_states,
                #[trigger] b.new_cards()[i],
                q.core@[b.review_cards().len() + b.learning_cards().len() + i],
            ),
{
    let nr = b.review_cards().len() as int;
    let nl = b.learning_cards().len() as int;
    assert forall|i: int| 0 <= i < nr implies entry_of(
        next_states,
        #[trigger] b.review_cards()[i],
        q.core@[i],
    ) by {
        assert(b.ordered()[i] == b.review_cards()[i]);
    }
    assert forall|i: int| 0 <= i < nl implies entry_of(
        next_states,
        #[trigger] b.learning_cards()[i],
        q.core@[nr + i],
    ) by {
        assert(b.ordered()[nr + i] == b.learning_cards()[i]);
    }
    assert forall|i: int| 0 <= i < b.new_cards().len() implies entry_of(
        next_states,
        #[trigger] b.new_cards()[i],
        q.core@[nr + nl + i],
    ) by {
        assert(b.ordered()[nr + nl + i] == b.new_cards()[i]);
    }
}

/// Where the queue stands among buckets: Review first, then Learning, then New.
pub open spec fn bucket_rank(bucket: CardQueue) -> int {
    match bucket {
        CardQueue::Review => 0,
        CardQueue::Learning => 1,
        CardQueue::New => 2,
    }
}

/// Every card of `cards` sits in bucket `bucket`.
pub open spec fn all_in_bucket(cards: Seq<FlashCard>, bucket: CardQueue) -> bool {
    forall|i: int| 0 <= i < cards.len() ==> (#[trigger] cards[i]).queue == bucket
}

/// Where each bucket holds only cards of that bucket, every Review entry
/// comes before every Learning entry, and every Learning entry before every
/// New entry.
pub proof fn lemma_queue_bucket_rank<F: Fn(CardState) -> SchedulingStates>(
    b: QueueBuilder,
    next_states: F,
    q: Queue,
)
    requires
        b.builds(next_states, q),
        reports_current(next_states),
        all_in_bucket(b.review_cards(), CardQueue::Review),
        all_in_bucket(b.learning_cards(), CardQueue::Learning),
        all_in_bucket(b.new_cards(), CardQueue::New),
    ensures
        forall|i: int, j: int|
            0 <= i < j < q.core@.len() ==> bucket_rank(
                (#[trigger] q.core@[i]).states.current.bucket(),
            ) <= bucket_rank((#[trigger] q.core@[j]).states.current.bucket()),
{
    let nr = b.review_cards().len() as int;
    let nl = b.learning_cards().len() as int;
    assert forall|k: int| 0 <= k < q.core@.len() implies bucket_rank(
        (#[trigger] q.core@[k]).states.current.bucket(),
    ) == (if k < nr {
        0int
    } else if k < nr + nl {
        1int
    } else {
        2int
    }) by {
        let card = b.ordered()[k];
        assert(entry_of(next_states, card, q.core@[k]));
        assert(q.core@[k].states.current == current_state(card));
        if k < nr {
            assert(card == b.review_cards()[k]);
        } else if k < nr + nl {
            assert(card == b.learning_cards()[k - nr]);
        } else {
            assert(card == b.new_cards()[k - nr - nl]);
        }
    }
}

/// When, on a fresh builder, the Learning scan fails and the others succeed,
/// the queue built after collecting holds the Review cards and then the New
/// cards, in scan order, and counts no Learning card.
pub proof fn lemma_failed_learning_scan<F: Fn(CardState) -> SchedulingStates>(
    fresh: QueueBuilder,
    b: QueueBuilder,
    new: Vec<FlashCard>,
    learning_error: CardError,
    review: Vec<FlashCard>,
    next_states: F,
    q: Queue,
)
    requires
        fresh.new_cards() == Seq::<FlashCard>::empty(),
        fresh.learning_cards() == Seq::<FlashCard>::empty(),
        fresh.review_cards() == Seq::<FlashCard>::empty(),
        b.new_cards() == fresh.new_cards() + scan_result(Ok(new)),
        b.learning_cards() == fresh.learning_cards() + scan_result(Err(learning_error)),
        b.review_cards() == fresh.review_cards() + scan_result(Ok(review)),
        b.builds(next_states, q),
    ensures
        q.stats.learning == 0,
        q.stats.new == new@.len(),
        q.stats.review == review@.len(),
        q.core@.len() == review@.len() + new@.len(),
        forall|i: int|
            0 <= i < review@.len() ==> entry_of(next_states, #[trigger] review@[i], q.core@[i]),
        forall|i: int|
            0 <= i < new@.len() ==> entry_of(
                next_states,
                #[trigger] new@[i],
                q.core@[review@.len() + i],
            ),
{
    assert(b.new_cards() =~= new@);
    assert(b.learning_cards() =~= Seq::<FlashCard>::empty());
    assert(b.review_cards() =~= review@);
    lemma_queue_order(b, next_states, q);
    assert forall|i: int| 0 <= i < review@.len() implies entry_of(
        next_states,
        #[trigger] review@[i],
        q.core@[i],
    ) by {
        assert(b.review_cards()[i] == review@[i]);
    }
    assert forall|i: int| 0 <= i < new@.len() implies entry_of(
        next_states,
        #[trigger] new@[i],
        q.core@[review@.len() + i],
    ) by {
        assert(b.new_cards()[i] == new@[i]);
    }
}

} // verus!
