//! Allocation of event and message identifiers.
//!
//! Two counters, one per kind of identifier. Each starts at zero and hands
//! out its current value before it moves on by one, so a counter never gives
//! the same value twice until it has given every value of its type. The
//! generator is changed through `&mut` only: callers that share one between
//! threads keep it behind a lock, and every allocation is then one step.

use vstd::prelude::*;

verus! {

/// The two counters of a generator.
#[derive(Clone, Copy, Debug, PartialEq, Eq, Structural)]
pub enum Counter {
    Event,
    Message,
}

/// The pair of counters that identifiers are drawn from.
pub struct IdGenerator {
    event: u64,
    message: u64,
}

/// The value that follows `n` in a counter: `n + 1`, and zero after the
/// greatest value.
pub open spec fn successor(n: u64) -> u64 {
    if n == u64::MAX {
        0
    } else {
        (n + 1) as u64
    }
}

/// How many of the draws are from `counter`.
pub open spec fn draws_from(draws: Seq<Counter>, counter: Counter) -> nat
    decreases draws.len(),
{
    if draws.len() == 0 {
        0
    } else if draws.last() == counter {
        draws_from(draws.drop_last(), counter) + 1
    } else {
        draws_from(draws.drop_last(), counter)
    }
}

impl IdGenerator {
    /// The identifier that the next allocation of an event identifier returns.
    pub closed spec fn pending_event(&self) -> u64 {
        self.event
    }

    /// The identifier that the next allocation of a message identifier returns.
    pub closed spec fn pending_message(&self) -> u64 {
        self.message
    }

    /// The generator after one allocation of an event identifier.
    pub closed spec fn after_event(self) -> IdGenerator {
        IdGenerator { event: successor(self.event), message: self.message }
    }

    /// The generator after one allocation of a message identifier.
    pub closed spec fn after_message(self) -> IdGenerator {
        IdGenerator { event: self.event, message: successor(self.message) }
    }

    /// The identifier that the next allocation from `counter` returns.
    pub open spec fn pending(self, counter: Counter) -> u64 {
        match counter {
            Counter::Event => self.pending_event(),
            Counter::Message => self.pending_message(),
        }
    }

    /// The generator after one allocation from `counter`.
    pub open spec fn after(self, counter: Counter) -> IdGenerator {
        match counter {
            Counter::Event => self.after_event(),
            Counter::Message => self.after_message(),
        }
    }

    /// The generator after the allocations `draws`, made in that order.
    pub open spec fn after_draws(self, draws: Seq<Counter>) -> IdGenerator
        decreases draws.len(),
    {
        if draws.len() == 0 {
            self
        } else {
            self.after_draws(draws.drop_last()).after(draws.last())
        }
    }

    /// The identifier that the allocation number `k` of `draws` returns,
    /// counted from zero.
    pub open spec fn drawn(self, draws: Seq<Counter>, k: int) -> u64 {
        self.after_draws(draws.take(k)).pending(draws[k])
    }

    /// A generator with both counters at zero.
    pub fn new() -> (g: IdGenerator)
        ensures
            g.pending_event() == 0,
            g.pending_message() == 0,
    {
        IdGenerator { event: 0, message: 0 }
    }

    /// Allocates an event identifier.
    pub fn next_event_id(&mut self) -> (id: u64)
        ensures
            id == old(self).pending_event(),
            *final(self) == old(self).after_event(),
            final(self).pending_event() == successor(old(self).pending_event()),
            final(self).pending_message() == old(self).pending_message(),
    {
        let id: u64 = self.event;
        self.event = id.wrapping_add(1);
        id
    }

    /// Allocates a message identifier.
    pub fn next_message_id(&mut self) -> (id: u64)
        ensures
            id == old(self).pending_message(),
            *final(self) == old(self).after_message(),
            final(self).pending_message() == successor(old(self).pending_message()),
            final(self).pending_event() == old(self).pending_event(),
    {
        let id: u64 = self.message;
        self.message = id.wrapping_add(1);
        id
    }

    /// What one allocation does to the two counters: the counter drawn from
    /// moves to its successor, the other one stays.
    pub proof fn lemma_allocation(self)
        ensures
            self.after_event().pending_event() == successor(self.pending_event()),
            self.after_event().pending_message() == self.pending_message(),
            self.after_message().pending_message() == successor(self.pending_message()),
            self.after_message().pending_event() == self.pending_event(),
    {
    }

    /// After any allocations each counter has moved on by the number of
    /// allocations made from it, as long as it has not passed its greatest
    /// value. Allocations from the other counter do not count.
    pub proof fn lemma_after_draws(self, draws: Seq<Counter>, counter: Counter)
        requires
            self.pending(counter) + draws_from(draws, counter) <= u64::MAX,
        ensures
            self.after_draws(draws).pending(counter) == self.pending(counter) + draws_from(
                draws,
                counter,
            ),
        decreases draws.len(),
    {
        if draws.len() > 0 {
            self.lemma_after_draws(draws.drop_last(), counter);
            self.after_draws(draws.drop_last()).lemma_allocation();
        }
    }

    /// The number of allocations from a counter among the first `k` draws
    /// does not fall as `k` grows, and grows by one over a draw from that
    /// counter.
    pub proof fn lemma_draws_from_prefix(draws: Seq<Counter>, counter: Counter, i: int, j: int)
        requires
            0 <= i <= j <= draws.len(),
        ensures
            draws_from(draws.take(i), counter) <= draws_from(draws.take(j), counter),
            i < j && draws[i] == counter ==> draws_from(draws.take(i), counter) < draws_from(
                draws.take(j),
                counter,
            ),
        decreases j - i,
    {
        if i < j {
            assert(draws.take(j).drop_last() == draws.take(j - 1));
            assert(draws.take(j).last() == draws[j - 1]);
            Self::lemma_draws_from_prefix(draws, counter, i, j - 1);
        }
    }

    /// Identifiers come in the order of the calls. In any run of allocations
    /// the one numbered `k` returns the counter's first value plus the number
    /// of earlier allocations from the same counter, as long as that fits the
    /// counter. With a new generator the first value is zero, so `n` calls of
    /// one counter return `0, 1, ..., n - 1`, however many calls of the other
    /// counter lie between them.
    pub proof fn law_identifiers_count_up(self, draws: Seq<Counter>, k: int)
        requires
            0 <= k < draws.len(),
            self.pending(draws[k]) + draws_from(draws.take(k), draws[k]) <= u64::MAX,
        ensures
            self.drawn(draws, k) == self.pending(draws[k]) + draws_from(draws.take(k), draws[k]),
    {
        self.lemma_after_draws(draws.take(k), draws[k]);
    }

    /// Two allocations from the same counter return different identifiers,
    /// the later one the greater, as long as the counter has not passed its
    /// greatest value.
    pub proof fn law_identifiers_increase(self, draws: Seq<Counter>, i: int, j: int)
        requires
            0 <= i < j < draws.len(),
            draws[i] == draws[j],
            self.pending(draws[j]) + draws_from(draws.take(j), draws[j]) <= u64::MAX,
        ensures
            self.drawn(draws, i) < self.drawn(draws, j),
    {
        Self::lemma_draws_from_prefix(draws, draws[j], i, j);
        self.law_identifiers_count_up(draws, i);
        self.law_identifiers_count_up(draws, j);
    }

    /// The counters do not influence each other: what an allocation returns
    /// is the same whatever was drawn from the other counter before it. Two
    /// runs that agree in the draws from one counter give that counter's
    /// identifiers alike.
    pub proof fn law_counters_independent(
        self,
        first: Seq<Counter>,
        second: Seq<Counter>,
        i: int,
        j: int,
    )
        requires
            0 <= i < first.len(),
            0 <= j < second.len(),
            first[i] == second[j],
            draws_from(first.take(i), first[i]) == draws_from(second.take(j), second[j]),
            self.pending(first[i]) + draws_from(first.take(i), first[i]) <= u64::MAX,
        ensures
            self.drawn(first, i) == self.drawn(second, j),
    {
        self.law_identifiers_count_up(first, i);
        self.law_identifiers_count_up(second, j);
    }
}

} // verus!
