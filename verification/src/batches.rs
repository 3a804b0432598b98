use vstd::prelude::*;
use std::collections::VecDeque;

verus! {

/// The size of each batch when `len` items are shared among `threads` senders.
pub open spec fn batch_size(len: int, threads: int) -> int {
    len / threads
}

/// Every batch but the last holds the items divided among the threads, rounded
/// down, and the last holds between one and that many; so there are at least as
/// many batches as threads.
pub proof fn lemma_batch_sizes(len: int, threads: int)
    requires
        threads > 0,
        len / threads > 0,
    ensures
        batch_size(len, threads) == len / threads,
        batch_count(len, batch_size(len, threads)) >= threads,
{
    let size = len / threads;
    vstd::arithmetic::div_mod::lemma_fundamental_div_mod(len, threads);
    lemma_batch_count_bounds(len, size);
    let n = batch_count(len, size);
    if n < threads {
        assert(n * size <= (threads - 1) * size) by (nonlinear_arith) requires n <= threads - 1, size > 0;
        assert((threads - 1) * size == threads * size - size) by (nonlinear_arith);
        assert(threads * size == size * threads) by (nonlinear_arith);
        assert(len % threads < threads);
        assert(len == threads * size + len % threads);
    }
}

/// How many batches `len` items make in batches of `size`: all full but the last.
pub open spec fn batch_count(len: int, size: int) -> int {
    (len + size - 1) / size
}

/// Batch `i` of `items` in batches of `size`.
pub open spec fn batch<T>(items: Seq<T>, size: int, i: int) -> Seq<T> {
    items.subrange(i * size, if (i + 1) * size < items.len() { (i + 1) * size } else { items.len() as int })
}

/// The views of a sequence of vectors.
pub open spec fn views<T>(vs: Seq<Vec<T>>) -> Seq<Seq<T>> {
    vs.map_values(|v: Vec<T>| v@)
}

/// Splits `items` into batches of `items.len() / threads` items, the last holding
/// what remains, in order.
pub fn split_into_batches<T>(items: Vec<T>, threads: usize) -> (batches: Vec<Vec<T>>)
    requires
        threads > 0,
        batch_size(items@.len() as int, threads as int) > 0,
    ensures
        batches@.len() == batch_count(items@.len() as int, batch_size(items@.len() as int, threads as int)),
        forall|i: int| 0 <= i < batches@.len() ==>
            (#[trigger] batches@[i])@ == batch(items@, batch_size(items@.len() as int, threads as int), i),
        views(batches@).flatten() == items@,
        forall|i: int| 0 <= i < batches@.len() ==>
            0 < (#[trigger] batches@[i])@.len() <= batch_size(items@.len() as int, threads as int),
        forall|i: int| 0 <= i < batches@.len() - 1 ==>
            (#[trigger] batches@[i])@.len() == batch_size(items@.len() as int, threads as int),
        forall|i: int| 0 <= i < batches@.len() - 1 ==>
            (#[trigger] batches@[i])@.len() == (items@.len() as int) / (threads as int),
        forall|i: int| 0 <= i < batches@.len() ==>
            0 < (#[trigger] batches@[i])@.len() <= (items@.len() as int) / (threads as int),
        batches@.len() >= threads,
{
    let len = items.len();
    let size = len / threads;
    let ghost all = items@;
    let mut rest = items;
    let mut batches: Vec<Vec<T>> = Vec::new();
    let mut taken: usize = 0;
    assert(batches@.len() * size == 0) by (nonlinear_arith)
        requires batches@.len() == 0;
    while rest.len() > 0
        invariant
            size > 0,
            len == all.len(),
            taken <= len,
            taken == len || taken == batches@.len() * size,
            batches@.len() * size >= taken,
            batches@.len() > 0 ==> (batches@.len() - 1) * size < taken,
            rest@ == all.subrange(taken as int, len as int),
            forall|i: int| 0 <= i < batches@.len() ==> (#[trigger] batches@[i])@ == batch(all, size as int, i),
        decreases rest.len(),
    {
        let ghost k = batches@.len() as int;
        assert((k + 1) * size == k * size + size) by (nonlinear_arith);
        if rest.len() > size {
            let mut chunk = rest.split_off(size);
            std::mem::swap(&mut chunk, &mut rest);
            assert(chunk@ =~= batch(all, size as int, k));
            batches.push(chunk);
            taken = taken + size;
        } else {
            let mut chunk: Vec<T> = Vec::new();
            std::mem::swap(&mut chunk, &mut rest);
            assert(chunk@ =~= batch(all, size as int, k));
            batches.push(chunk);
            taken = len;
        }
        assert forall|i: int| 0 <= i < batches@.len() implies (#[trigger] batches@[i])@ == batch(all, size as int, i) by {
            if i < k {
            }
        }
    }
    proof {
        lemma_batch_count(len as int, size as int, batches@.len() as int);
        let vs = views(batches@);
        assert forall|i: int| 0 <= i < vs.len() implies #[trigger] vs[i] == batch(all, size as int, i) by {
            assert(vs[i] == batches@[i]@);
        }
        lemma_batches_preserve_items(all, size as int, vs);
        lemma_batch_sizes(len as int, threads as int);
        assert forall|i: int| 0 <= i < batches@.len() implies 0 < (#[trigger] batches@[i])@.len() <= size by {
            assert(vs[i] == batches@[i]@);
        }
        assert forall|i: int| 0 <= i < batches@.len() - 1 implies (#[trigger] batches@[i])@.len() == size by {
            assert(vs[i] == batches@[i]@);
        }
    }
    batches
}

/// `n` batches of `size` hold `len` items exactly when the first `n - 1` are too few.
proof fn lemma_batch_count(len: int, size: int, n: int)
    requires
        size > 0,
        len >= 0,
        n >= 0,
        n * size >= len,
        n > 0 ==> (n - 1) * size < len,
    ensures
        n == batch_count(len, size),
{
    if n == 0 {
        assert(0 <= len + size - 1 < size);
        vstd::arithmetic::div_mod::lemma_fundamental_div_mod_converse_div(len + size - 1, size, 0, len + size - 1);
    } else {
        let r = len + size - 1 - n * size;
        assert(n * size == (n - 1) * size + size) by (nonlinear_arith);
        assert(0 <= r < size);
        vstd::arithmetic::div_mod::lemma_fundamental_div_mod_converse_div(len + size - 1, size, n, r);
    }
}

/// Puts `batches` at the back of the queue, in order.
pub fn enqueue_batches<T>(queue: &mut VecDeque<Vec<T>>, batches: Vec<Vec<T>>)
    ensures
        final(queue)@ == old(queue)@ + batches@,
{
    let ghost all = batches@;
    let mut rest = batches;
    let mut staged: VecDeque<Vec<T>> = VecDeque::new();
    while rest.len() > 0
        invariant
            rest@ + staged@ == all,
        decreases rest.len(),
    {
        let b = rest.pop().unwrap();
        staged.push_front(b);
        assert(rest@ + staged@ =~= all);
    }
    assert(staged@ =~= all);
    queue.append(&mut staged);
}

/// `n` batches of `size` reach past the last item, and the first `n - 1` do not.
proof fn lemma_batch_count_bounds(len: int, size: int)
    requires
        size > 0,
        len >= 0,
    ensures
        batch_count(len, size) * size >= len,
        batch_count(len, size) >= 0,
        batch_count(len, size) > 0 ==> (batch_count(len, size) - 1) * size < len,
{
    let n = batch_count(len, size);
    vstd::arithmetic::div_mod::lemma_fundamental_div_mod(len + size - 1, size);
    let r = (len + size - 1) % size;
    assert(len + size - 1 == size * n + r);
    assert(0 <= r < size);
    assert(n * size == size * n) by (nonlinear_arith);
    assert((n - 1) * size == n * size - size) by (nonlinear_arith);
    if n < 0 {
        assert(size * n <= -size) by (nonlinear_arith) requires size > 0, n <= -1;
    }
}

/// The first `k` batches joined end to end are the first `k * size` items, or all of them.
proof fn lemma_prefix_flatten<T>(items: Seq<T>, size: int, batches: Seq<Seq<T>>, k: int)
    requires
        size > 0,
        0 <= k <= batches.len(),
        batches.len() > 0 ==> (batches.len() - 1) * size < items.len(),
        forall|i: int| 0 <= i < batches.len() ==> #[trigger] batches[i] == batch(items, size, i),
    ensures
        batches.take(k).flatten_alt() == items.subrange(0, if k * size < items.len() { k * size } else { items.len() as int }),
    decreases k,
{
    let len = items.len() as int;
    let n = batches.len() as int;
    if k == 0 {
        assert(batches.take(0).flatten_alt() =~= items.subrange(0, 0));
    } else {
        let j = k - 1;
        lemma_prefix_flatten(items, size, batches, j);
        assert(j * size <= (n - 1) * size) by (nonlinear_arith) requires 0 <= j <= n - 1, size > 0;
        assert(k * size == j * size + size) by (nonlinear_arith) requires k == j + 1;
        assert(j * size >= 0) by (nonlinear_arith) requires j >= 0, size > 0;
        assert(batches.take(k).drop_last() =~= batches.take(j));
        assert(batches.take(k).last() == batches[j]);
        assert(batches.take(k).flatten_alt() =~= items.subrange(0, if k * size < len { k * size } else { len }));
    }
}

/// Batched in order, the items come out whole: the batches joined end to end give
/// back the items, every batch holds between one and `size` items, and all but the
/// last hold exactly `size`.
pub proof fn lemma_batches_preserve_items<T>(items: Seq<T>, size: int, batches: Seq<Seq<T>>)
    requires
        size > 0,
        batches.len() == batch_count(items.len() as int, size),
        forall|i: int| 0 <= i < batches.len() ==> #[trigger] batches[i] == batch(items, size, i),
    ensures
        batches.flatten() == items,
        forall|i: int| 0 <= i < batches.len() ==> 0 < (#[trigger] batches[i]).len() <= size,
        forall|i: int| 0 <= i < batches.len() - 1 ==> (#[trigger] batches[i]).len() == size,
{
    let len = items.len() as int;
    let n = batches.len() as int;
    lemma_batch_count_bounds(len, size);
    assert forall|i: int| 0 <= i < n implies 0 < (#[trigger] batches[i]).len() <= size
        && (i < n - 1 ==> batches[i].len() == size) by {
        assert(i * size <= (n - 1) * size) by (nonlinear_arith) requires 0 <= i <= n - 1, size > 0;
        assert((i + 1) * size == i * size + size) by (nonlinear_arith);
        assert(i * size >= 0) by (nonlinear_arith) requires i >= 0, size > 0;
        if i < n - 1 {
            assert((i + 1) * size <= (n - 1) * size) by (nonlinear_arith) requires i + 1 <= n - 1, size > 0;
        }
    }
    lemma_prefix_flatten(items, size, batches, n);
    assert(batches.take(n) =~= batches);
    batches.lemma_flatten_and_flatten_alt_are_equivalent();
    assert(items.subrange(0, len) =~= items);
}

} // verus!
