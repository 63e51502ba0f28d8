//! The dispatch pipeline: chunking one tick's batch for each notifier.
//!
//! Every notifier states a preferred batch size. Size `0` means the whole
//! batch goes to one notify call; size `n > 0` means the batch is split
//! into chunks of at most `n` items, one notify call per chunk, chunks in
//! original batch order. The fan-out over notifiers is independent: the
//! plan handed to one notifier is a function of the batch and that
//! notifier's own size alone, so one notifier's failure or latency can
//! never reshape another's deliveries.

use vstd::prelude::*;

use crate::item::Item;

verus! {

/// The chunks a batch is split into for a notifier of batch size `n`:
/// the whole batch as one chunk when `n` is zero (and no call at all for an
/// empty batch), else successive runs of `n` items with a shorter final run.
pub open spec fn spec_chunks(items: Seq<Item>, n: nat) -> Seq<Seq<Item>>
    decreases items.len(),
{
    if items.len() == 0 {
        Seq::empty()
    } else if n == 0 || items.len() <= n {
        seq![items]
    } else {
        seq![items.take(n as int)] + spec_chunks(items.skip(n as int), n)
    }
}

/// The plans of every notifier: one chunk list per configured batch size.
pub open spec fn spec_fanout(batch: Seq<Item>, sizes: Seq<usize>) -> Seq<Seq<Seq<Item>>> {
    sizes.map_values(|n: usize| spec_chunks(batch, n as nat))
}

/// Chunking law, content part: concatenating all chunks, in call order,
/// reproduces the batch exactly — nothing reordered, dropped or repeated.
pub proof fn lemma_chunks_flatten(items: Seq<Item>, n: nat)
    ensures
        spec_chunks(items, n).flatten() == items,
    decreases items.len(),
{
    if items.len() == 0 {
        assert(spec_chunks(items, n).flatten() =~= items);
    } else if n == 0 || items.len() <= n {
        spec_chunks(items, n).lemma_flatten_one_element();
    } else {
        let head = items.take(n as int);
        let tail = items.skip(n as int);
        lemma_chunks_flatten(tail, n);
        let chunks = spec_chunks(items, n);
        assert(chunks.first() == head);
        assert(chunks.drop_first() =~= spec_chunks(tail, n));
        assert(chunks.flatten() == head + spec_chunks(tail, n).flatten());
        assert(head + tail =~= items);
    }
}

/// Chunking law, count part: a batch of `m` items makes exactly
/// `(m + n - 1) / n` notify calls for a notifier of batch size `n > 0`.
pub proof fn lemma_chunks_count(items: Seq<Item>, n: nat)
    requires
        n > 0,
    ensures
        spec_chunks(items, n).len() == (items.len() + n - 1) as int / n as int,
    decreases items.len(),
{
    let m = items.len() as int;
    let d = n as int;
    if items.len() == 0 {
        vstd::arithmetic::div_mod::lemma_basic_div(d - 1, d);
    } else if items.len() <= n {
        vstd::arithmetic::div_mod::lemma_div_plus_one(m - 1, d);
        vstd::arithmetic::div_mod::lemma_basic_div(m - 1, d);
    } else {
        lemma_chunks_count(items.skip(d), n);
        vstd::arithmetic::div_mod::lemma_div_plus_one(m - 1, d);
    }
}

/// Chunking law, size part: every chunk holds between one and `n` items,
/// and every chunk except the last holds exactly `n`.
pub proof fn lemma_chunks_sizes(items: Seq<Item>, n: nat, i: int)
    requires
        n > 0,
        0 <= i < spec_chunks(items, n).len(),
    ensures
        0 < spec_chunks(items, n)[i].len() <= n,
        i < spec_chunks(items, n).len() - 1 ==> spec_chunks(items, n)[i].len() == n,
    decreases items.len(),
{
    if items.len() == 0 {
    } else if items.len() <= n {
    } else {
        if i > 0 {
            lemma_chunks_sizes(items.skip(n as int), n, i - 1);
        }
    }
}

/// Fan-out independence: the plan handed to one notifier depends on the
/// batch and that notifier's own batch size alone — the sizes (and a
/// fortiori the outcomes) of every other notifier are irrelevant.
pub proof fn lemma_fanout_independence(batch: Seq<Item>, a: Seq<usize>, b: Seq<usize>, i: int)
    requires
        0 <= i < a.len(),
        0 <= i < b.len(),
        a[i] == b[i],
    ensures
        spec_fanout(batch, a)[i] == spec_fanout(batch, b)[i],
{
}

/// A copy of a batch, element for element.
fn clone_items(items: &Vec<Item>) -> (r: Vec<Item>)
    ensures
        r@ == items@,
{
    let mut r: Vec<Item> = Vec::new();
    let mut i: usize = 0;
    while i < items.len()
        invariant
            i <= items.len(),
            r@ == items@.take(i as int),
        decreases items.len() - i,
    {
        r.push(items[i].clone());
        proof {
            assert(items@.take(i + 1 as int) =~= items@.take(i as int).push(items@[i as int]));
        }
        i = i + 1;
    }
    proof {
        assert(items@.take(items@.len() as int) =~= items@);
    }
    r
}

/// Split a batch into the chunks its notifier will be called with.
pub fn chunk_items(items: &Vec<Item>, n: usize) -> (r: Vec<Vec<Item>>)
    ensures
        r@.map_values(|c: Vec<Item>| c@) == spec_chunks(items@, n as nat),
{
    let mut r: Vec<Vec<Item>> = Vec::new();
    if items.len() == 0 {
        proof {
            assert(r@.map_values(|c: Vec<Item>| c@) =~= spec_chunks(items@, n as nat));
        }
        return r;
    }
    if n == 0 {
        r.push(clone_items(items));
        proof {
            assert(r@.map_values(|c: Vec<Item>| c@) =~= spec_chunks(items@, n as nat));
        }
        return r;
    }
    let mut pos: usize = 0;
    proof {
        assert(items@.skip(0) =~= items@);
        assert(r@.map_values(|c: Vec<Item>| c@) + spec_chunks(items@, n as nat) =~= spec_chunks(
            items@,
            n as nat,
        ));
    }
    while pos < items.len()
        invariant
            pos <= items.len(),
            n > 0,
            spec_chunks(items@, n as nat) =~= r@.map_values(|c: Vec<Item>| c@) + spec_chunks(
                items@.skip(pos as int),
                n as nat,
            ),
        decreases items.len() - pos,
    {
        let remaining = items.len() - pos;
        let step = if n < remaining {
            n
        } else {
            remaining
        };
        let ghost prefix = r@.map_values(|c: Vec<Item>| c@);
        let ghost rest = items@.skip(pos as int);
        let mut chunk: Vec<Item> = Vec::new();
        let mut k: usize = 0;
        while k < step
            invariant
                k <= step,
                pos + step <= items.len(),
                chunk@ == items@.subrange(pos as int, pos + k as int),
            decreases step - k,
        {
            chunk.push(items[pos + k].clone());
            proof {
                assert(items@.subrange(pos as int, pos + (k + 1) as int) =~= items@.subrange(
                    pos as int,
                    pos + k as int,
                ).push(items@[pos + k as int]));
            }
            k = k + 1;
        }
        r.push(chunk);
        proof {
            assert(rest.len() > 0);
            if rest.len() <= n {
                assert(step == remaining);
                assert(chunk@ =~= rest);
                assert(spec_chunks(rest, n as nat) == seq![rest]);
                assert(r@.map_values(|c: Vec<Item>| c@) =~= prefix.push(rest));
                assert(prefix + spec_chunks(rest, n as nat) =~= prefix.push(rest));
                assert(items@.skip((pos + step) as int).len() == 0);
                assert(spec_chunks(items@.skip((pos + step) as int), n as nat) =~= Seq::<
                    Seq<Item>,
                >::empty());
            } else {
                assert(step == n);
                assert(chunk@ =~= rest.take(n as int));
                assert(rest.skip(n as int) =~= items@.skip((pos + n) as int));
                assert(spec_chunks(rest, n as nat) == seq![rest.take(n as int)] + spec_chunks(
                    rest.skip(n as int),
                    n as nat,
                ));
                assert(r@.map_values(|c: Vec<Item>| c@) =~= prefix.push(chunk@));
                assert(prefix + spec_chunks(rest, n as nat) =~= prefix.push(chunk@) + spec_chunks(
                    items@.skip((pos + n) as int),
                    n as nat,
                ));
            }
        }
        pos = pos + step;
    }
    proof {
        assert(items@.skip(pos as int).len() == 0);
        assert(spec_chunks(items@.skip(pos as int), n as nat) =~= Seq::<Seq<Item>>::empty());
        assert(r@.map_values(|c: Vec<Item>| c@) + Seq::<Seq<Item>>::empty() =~= r@.map_values(
            |c: Vec<Item>| c@,
        ));
    }
    r
}

/// The dispatch plan of every notifier for one tick's batch: the plan at
/// position `i` belongs to the notifier whose batch size sits at position
/// `i`, and is a function of the batch and that size alone.
pub fn fanout_plans(batch: &Vec<Item>, batch_sizes: &Vec<usize>) -> (plans: Vec<Vec<Vec<Item>>>)
    ensures
        plans@.len() == batch_sizes@.len(),
        forall|i: int|
            0 <= i < batch_sizes@.len() ==> (#[trigger] plans@[i])@.map_values(|c: Vec<Item>| c@)
                == spec_chunks(batch@, batch_sizes@[i] as nat),
{
    let mut plans: Vec<Vec<Vec<Item>>> = Vec::new();
    let mut i: usize = 0;
    while i < batch_sizes.len()
        invariant
            i <= batch_sizes@.len(),
            plans@.len() == i,
            forall|j: int|
                0 <= j < i ==> (#[trigger] plans@[j])@.map_values(|c: Vec<Item>| c@) == spec_chunks(
                    batch@,
                    batch_sizes@[j] as nat,
                ),
        decreases batch_sizes.len() - i,
    {
        plans.push(chunk_items(batch, batch_sizes[i]));
        i = i + 1;
    }
    plans
}

} // verus!
