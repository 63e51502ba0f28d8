//! The per-source poll engine.
//!
//! Each configured source owns one poll loop. A loop starts unseeded; its
//! first successful fetch seeds the watermark to the newest publication
//! instant observed (or to the current time when the fetch was empty) and
//! notifies nobody. Every later tick filters the fetched items against the
//! watermark, hands the strictly newer ones out for dispatch, and advances
//! the watermark to their newest instant once the dispatch attempt has
//! completed — whether or not any delivery succeeded, so that a broken
//! notifier can never cause the same item to be re-announced.
//!
//! The surrounding application performs the sleeping and the network fetch;
//! the decisions all happen here.

use vstd::prelude::*;

use crate::errors::Error;
use crate::item::Item;
use crate::time::Timestamp;

verus! {

/// The newest publication instant already considered seen for one source.
///
/// Invariant of the engine: for the lifetime of a poll loop the value is
/// monotonically non-decreasing (`lemma_watermark_monotonic`), and it is
/// never rolled back.
#[derive(Clone, Copy, Debug, PartialEq, Eq, Structural)]
pub struct Watermark {
    pub last_update: Timestamp,
}

/// The state one poll loop carries between ticks.
#[derive(Clone, Copy, Debug, PartialEq, Eq, Structural)]
pub enum PollState {
    /// No fetch has succeeded yet; there is no baseline to compare against.
    Unseeded,
    /// The baseline is set; items at or below the watermark are known.
    Active { watermark: Watermark },
}

/// What one fetch attempt (after retries) handed back.
#[derive(Clone, Debug)]
pub enum FetchOutcome {
    /// The fetch succeeded with these items, in upstream order.
    Fetched(Vec<Item>),
    /// The fetch failed; the tick is skipped and the state unchanged.
    Failed(Error),
}

/// What one tick decided: the state to adopt after dispatch, and the batch
/// of new items to hand to every notifier (empty when nothing is new).
pub struct TickPlan {
    pub next: PollState,
    pub batch: Vec<Item>,
}

/// The items of `items` whose publication instant lies strictly after `w`,
/// in their original relative order.
pub open spec fn new_items(items: Seq<Item>, w: int) -> Seq<Item> {
    items.filter(|it: Item| it.pub_date@ > w)
}

/// The newest publication instant in a non-empty sequence of items.
pub open spec fn max_instant(items: Seq<Item>) -> int
    recommends
        items.len() > 0,
    decreases items.len(),
{
    if items.len() <= 1 {
        items[0].pub_date@
    } else {
        let rest = max_instant(items.drop_last());
        if items.last().pub_date@ > rest {
            items.last().pub_date@
        } else {
            rest
        }
    }
}

/// The items of a fetch outcome, or `None` for a failed fetch.
pub open spec fn spec_fetch(fetch: FetchOutcome) -> Option<Seq<Item>> {
    match fetch {
        FetchOutcome::Fetched(items) => Some(items@),
        FetchOutcome::Failed(_) => None,
    }
}

/// Where the watermark seeds on the first successful fetch: the newest
/// instant observed, or the current time when the fetch was empty.
pub open spec fn spec_seed_instant(items: Seq<Item>, now: int) -> int {
    if items.len() == 0 {
        now
    } else {
        max_instant(items)
    }
}

/// The batch of items a tick hands out for dispatch.
pub open spec fn spec_tick_batch(st: PollState, fetch: Option<Seq<Item>>) -> Seq<Item> {
    match st {
        PollState::Unseeded => Seq::empty(),
        PollState::Active { watermark } => match fetch {
            Some(items) => new_items(items, watermark.last_update@),
            None => Seq::empty(),
        },
    }
}

/// The state a tick adopts once its dispatch attempt has completed.
pub open spec fn spec_next_state(st: PollState, fetch: Option<Seq<Item>>, now: int) -> PollState {
    match st {
        PollState::Unseeded => match fetch {
            Some(items) => PollState::Active {
                watermark: Watermark {
                    last_update: Timestamp { millis: spec_seed_instant(items, now) as i64 },
                },
            },
            None => PollState::Unseeded,
        },
        PollState::Active { watermark } => match fetch {
            Some(items) => {
                let fresh = new_items(items, watermark.last_update@);
                if fresh.len() == 0 {
                    st
                } else {
                    PollState::Active {
                        watermark: Watermark {
                            last_update: Timestamp { millis: max_instant(fresh) as i64 },
                        },
                    }
                }
            },
            None => st,
        },
    }
}

/// The watermark instant of an active state.
pub open spec fn watermark_of(st: PollState) -> int
    recommends
        st is Active,
{
    st->Active_watermark.last_update@
}

impl PollState {
    /// A freshly constructed poll loop: no baseline yet.
    pub fn new() -> (st: PollState)
        ensures
            st == PollState::Unseeded,
    {
        PollState::Unseeded
    }

    /// One tick: filter the fetch outcome against the watermark and decide
    /// the batch to dispatch and the state to adopt afterwards.
    ///
    /// A failed fetch skips the tick; the very first successful fetch seeds
    /// the watermark and dispatches nothing; afterwards exactly the items
    /// strictly newer than the watermark are handed out, and the watermark
    /// moves to their newest instant. The new watermark is never below the
    /// old one.
    pub fn tick(&self, fetch: &FetchOutcome, now: &Timestamp) -> (plan: TickPlan)
        ensures
            plan.next == spec_next_state(*self, spec_fetch(*fetch), now@),
            plan.batch@ == spec_tick_batch(*self, spec_fetch(*fetch)),
            *self is Active ==> plan.next is Active
                && watermark_of(plan.next) >= watermark_of(*self),
    {
        proof {
            lemma_tick_monotonic(*self, spec_fetch(*fetch), now@);
        }
        match self {
            PollState::Unseeded => match fetch {
                FetchOutcome::Fetched(items) => {
                    let last_update = if items.len() == 0 {
                        *now
                    } else {
                        max_pub_date(items)
                    };
                    TickPlan {
                        next: PollState::Active { watermark: Watermark { last_update } },
                        batch: Vec::new(),
                    }
                },
                FetchOutcome::Failed(_) => TickPlan { next: PollState::Unseeded, batch: Vec::new() },
            },
            PollState::Active { watermark } => match fetch {
                FetchOutcome::Fetched(items) => {
                    let fresh = filter_new(items, &watermark.last_update);
                    if fresh.len() == 0 {
                        TickPlan { next: *self, batch: fresh }
                    } else {
                        let last_update = max_pub_date(&fresh);
                        TickPlan {
                            next: PollState::Active { watermark: Watermark { last_update } },
                            batch: fresh,
                        }
                    }
                },
                FetchOutcome::Failed(_) => TickPlan { next: *self, batch: Vec::new() },
            },
        }
    }
}

impl TickPlan {
    /// Adopt the planned state once every dispatch sub-task of this tick has
    /// finished or failed.
    ///
    /// The per-notifier delivery outcomes are taken — the tick is not
    /// complete before they are all in — and deliberately ignored: the
    /// watermark advances the same way whether deliveries succeeded or
    /// failed, trading at-least-once delivery for never re-announcing.
    pub fn commit(&self, delivery_outcomes: &Vec<bool>) -> (st: PollState)
        ensures
            st == self.next,
    {
        self.next
    }
}

/// Keep exactly the items strictly newer than the watermark, in order.
pub fn filter_new(items: &Vec<Item>, watermark: &Timestamp) -> (r: Vec<Item>)
    ensures
        r@ == new_items(items@, watermark@),
{
    let mut r: Vec<Item> = Vec::new();
    let mut i: usize = 0;
    while i < items.len()
        invariant
            i <= items.len(),
            r@ == new_items(items@.take(i as int), watermark@),
        decreases items.len() - i,
    {
        proof {
            lemma_new_items_take_step(items@, watermark@, i as int);
        }
        if items[i].pub_date.gt(watermark) {
            r.push(items[i].clone());
        }
        i = i + 1;
    }
    proof {
        assert(items@.take(items@.len() as int) =~= items@);
    }
    r
}

/// The newest publication instant in a non-empty batch, by a single fold.
pub fn max_pub_date(items: &Vec<Item>) -> (r: Timestamp)
    requires
        items@.len() > 0,
    ensures
        r@ == max_instant(items@),
{
    let mut r: Timestamp = items[0].pub_date;
    let mut i: usize = 1;
    while i < items.len()
        invariant
            1 <= i <= items.len(),
            items@.len() > 0,
            r@ == max_instant(items@.take(i as int)),
        decreases items.len() - i,
    {
        proof {
            assert(items@.take(i as int + 1).drop_last() =~= items@.take(i as int));
            assert(items@.take(i as int + 1).last() == items@[i as int]);
        }
        if items[i].pub_date.gt(&r) {
            r = items[i].pub_date;
        }
        i = i + 1;
    }
    proof {
        assert(items@.take(items@.len() as int) =~= items@);
    }
    r
}

/// Unfolds the new-item filter by one element of the scanned prefix.
proof fn lemma_new_items_take_step(items: Seq<Item>, w: int, i: int)
    requires
        0 <= i < items.len(),
    ensures
        new_items(items.take(i + 1), w) == if items[i].pub_date@ > w {
            new_items(items.take(i), w).push(items[i])
        } else {
            new_items(items.take(i), w)
        },
{
    reveal(Seq::filter);
    assert(items.take(i + 1).drop_last() =~= items.take(i));
    assert(items.take(i + 1).last() == items[i]);
}

/// Every item the filter keeps is strictly newer than the watermark.
pub proof fn lemma_new_items_above(items: Seq<Item>, w: int, i: int)
    requires
        0 <= i < new_items(items, w).len(),
    ensures
        new_items(items, w)[i].pub_date@ > w,
{
    broadcast use vstd::seq_lib::group_filter_ensures;

}

/// The newest instant of a non-empty sequence is attained by one of its
/// items and bounds all of them.
pub proof fn lemma_max_instant_bounds(items: Seq<Item>)
    requires
        items.len() > 0,
    ensures
        forall|i: int| 0 <= i < items.len() ==> items[i].pub_date@ <= max_instant(items),
        exists|i: int| 0 <= i < items.len() && items[i].pub_date@ == max_instant(items),
    decreases items.len(),
{
    if items.len() == 1 {
        assert(items[0].pub_date@ == max_instant(items));
    } else {
        lemma_max_instant_bounds(items.drop_last());
        assert forall|i: int| 0 <= i < items.len() implies items[i].pub_date@ <= max_instant(
            items,
        ) by {
            if i < items.len() - 1 {
                assert(items.drop_last()[i] == items[i]);
            }
        }
        if items.last().pub_date@ > max_instant(items.drop_last()) {
            assert(items[items.len() - 1].pub_date@ == max_instant(items));
        } else {
            let j = choose|j: int|
                0 <= j < items.drop_last().len() && items.drop_last()[j].pub_date@ == max_instant(
                    items.drop_last(),
                );
            assert(items[j].pub_date@ == max_instant(items));
        }
    }
}

/// No-renotify idempotence: items at or below the watermark never form a
/// batch, no matter how often the same upstream content is filtered.
pub proof fn lemma_no_renotify(items: Seq<Item>, w: int)
    requires
        forall|i: int| 0 <= i < items.len() ==> items[i].pub_date@ <= w,
    ensures
        new_items(items, w) == Seq::<Item>::empty(),
    decreases items.len(),
{
    reveal(Seq::filter);
    if items.len() == 0 {
        assert(items =~= Seq::<Item>::empty());
    } else {
        assert forall|i: int| 0 <= i < items.drop_last().len() implies items.drop_last()[i].pub_date@
            <= w by {
            assert(items.drop_last()[i] == items[i]);
        }
        lemma_no_renotify(items.drop_last(), w);
        assert(items.last().pub_date@ <= w);
    }
}

/// Baseline suppression: the very first successful fetch seeds the
/// watermark and triggers no dispatch, whatever items it returned.
pub proof fn lemma_baseline_suppression(items: Seq<Item>)
    ensures
        spec_tick_batch(PollState::Unseeded, Some(items)) == Seq::<Item>::empty(),
{
}

/// One tick never lowers the watermark, whatever the fetch outcome.
pub proof fn lemma_tick_monotonic(st: PollState, fetch: Option<Seq<Item>>, now: int)
    ensures
        st is Active ==> spec_next_state(st, fetch, now) is Active
            && watermark_of(spec_next_state(st, fetch, now)) >= watermark_of(st),
{
    if st is Active && fetch is Some {
        let w = watermark_of(st);
        let fresh = new_items(fetch->0, w);
        if fresh.len() > 0 {
            lemma_max_instant_bounds(fresh);
            let j = choose|j: int|
                0 <= j < fresh.len() && fresh[j].pub_date@ == max_instant(fresh);
            lemma_new_items_above(fetch->0, w, j);
        }
    }
}

/// The poll state after a whole sequence of ticks, each given as the fetch
/// outcome and the clock reading of that tick.
pub open spec fn run(st: PollState, ticks: Seq<(Option<Seq<Item>>, int)>) -> PollState
    decreases ticks.len(),
{
    if ticks.len() == 0 {
        st
    } else {
        run(spec_next_state(st, ticks[0].0, ticks[0].1), ticks.drop_first())
    }
}

/// Running one more tick steps the state of the run so far.
proof fn lemma_run_snoc(st: PollState, ticks: Seq<(Option<Seq<Item>>, int)>, n: int)
    requires
        0 <= n < ticks.len(),
    ensures
        run(st, ticks.take(n + 1)) == spec_next_state(run(st, ticks.take(n)), ticks[n].0, ticks[n].1),
    decreases n,
{
    let st2 = spec_next_state(st, ticks[0].0, ticks[0].1);
    if n == 0 {
        assert(ticks.take(1)[0] == ticks[0]);
        assert(ticks.take(1).drop_first() =~= Seq::<(Option<Seq<Item>>, int)>::empty());
        assert(run(st, ticks.take(1)) == run(st2, ticks.take(1).drop_first()));
        assert(run(st2, ticks.take(1).drop_first()) == st2);
        assert(run(st, ticks.take(0)) == st);
    } else {
        let rest = ticks.drop_first();
        lemma_run_snoc(st2, rest, n - 1);
        assert(ticks.take(n + 1)[0] == ticks[0]);
        assert(ticks.take(n)[0] == ticks[0]);
        assert(ticks.take(n + 1).drop_first() =~= rest.take(n));
        assert(ticks.take(n).drop_first() =~= rest.take(n - 1));
        assert(run(st, ticks.take(n + 1)) == run(st2, rest.take(n)));
        assert(run(st, ticks.take(n)) == run(st2, rest.take(n - 1)));
        assert(rest[n - 1] == ticks[n]);
    }
}

/// The poll state after a whole sequence of ticks as the loop runs them:
/// each tick is its fetch outcome, its clock reading, and the delivery
/// outcomes that its dispatch reported. Committing a tick adopts the
/// planned state whatever those outcomes say, so they never enter the
/// successor state.
pub open spec fn run_with_deliveries(
    st: PollState,
    ticks: Seq<(Option<Seq<Item>>, int, Seq<bool>)>,
) -> PollState
    decreases ticks.len(),
{
    if ticks.len() == 0 {
        st
    } else {
        run_with_deliveries(spec_next_state(st, ticks[0].0, ticks[0].1), ticks.drop_first())
    }
}

/// Fan-out independence, state part: two runs that see the same fetch
/// outcomes and clock readings end in the same poll state, however the
/// notifiers' deliveries went — a notifier that always fails changes
/// nothing for the loop or for any other notifier.
pub proof fn lemma_deliveries_never_shape_the_run(
    st: PollState,
    a: Seq<(Option<Seq<Item>>, int, Seq<bool>)>,
    b: Seq<(Option<Seq<Item>>, int, Seq<bool>)>,
)
    requires
        a.len() == b.len(),
        forall|i: int| 0 <= i < a.len() ==> (#[trigger] a[i]).0 == b[i].0 && a[i].1 == b[i].1,
    ensures
        run_with_deliveries(st, a) == run_with_deliveries(st, b),
    decreases a.len(),
{
    if a.len() > 0 {
        let st2 = spec_next_state(st, a[0].0, a[0].1);
        assert(a[0].0 == b[0].0 && a[0].1 == b[0].1);
        assert forall|i: int| 0 <= i < a.drop_first().len() implies (#[trigger] a.drop_first()[i]).0
            == b.drop_first()[i].0 && a.drop_first()[i].1 == b.drop_first()[i].1 by {
            assert(a.drop_first()[i] == a[i + 1]);
            assert(b.drop_first()[i] == b[i + 1]);
        }
        lemma_deliveries_never_shape_the_run(st2, a.drop_first(), b.drop_first());
    }
}

/// Fan-out independence, batch part: the batch handed to every notifier on
/// each tick is a function of the fetch history alone, never of any
/// notifier's earlier delivery outcomes.
pub proof fn lemma_batches_independent_of_deliveries(
    st: PollState,
    a: Seq<(Option<Seq<Item>>, int, Seq<bool>)>,
    b: Seq<(Option<Seq<Item>>, int, Seq<bool>)>,
    n: int,
)
    requires
        a.len() == b.len(),
        forall|i: int| 0 <= i < a.len() ==> (#[trigger] a[i]).0 == b[i].0 && a[i].1 == b[i].1,
        0 <= n < a.len(),
    ensures
        spec_tick_batch(run_with_deliveries(st, a.take(n)), a[n].0) == spec_tick_batch(
            run_with_deliveries(st, b.take(n)),
            b[n].0,
        ),
{
    assert forall|i: int| 0 <= i < a.take(n).len() implies (#[trigger] a.take(n)[i]).0
        == b.take(n)[i].0 && a.take(n)[i].1 == b.take(n)[i].1 by {
        assert(a.take(n)[i] == a[i]);
        assert(b.take(n)[i] == b[i]);
    }
    lemma_deliveries_never_shape_the_run(st, a.take(n), b.take(n));
}

/// Watermark monotonicity: over any sequence of ticks, the watermark after
/// tick `n + 1` is at least the watermark after tick `n`, regardless of
/// fetch outcomes; and a seeded loop never becomes unseeded.
pub proof fn lemma_watermark_monotonic(
    st: PollState,
    ticks: Seq<(Option<Seq<Item>>, int)>,
    n: int,
)
    requires
        0 <= n < ticks.len(),
        run(st, ticks.take(n)) is Active,
    ensures
        run(st, ticks.take(n + 1)) is Active,
        watermark_of(run(st, ticks.take(n + 1))) >= watermark_of(run(st, ticks.take(n))),
{
    lemma_run_snoc(st, ticks, n);
    lemma_tick_monotonic(run(st, ticks.take(n)), ticks[n].0, ticks[n].1);
}

} // verus!
