use vstd::prelude::*;
use crate::item::{FetchError, Item};

verus! {

/// How many ids of a ranking are fetched at most.
pub const MAX_BATCH: usize = 100;

/// The first `max` ids of a ranking, in their ranked order.
pub fn take_ids(ids: Vec<usize>, max: usize) -> (r: Vec<usize>)
    ensures
        max <= ids@.len() ==> r@ == ids@.take(max as int),
        max > ids@.len() ==> r@ == ids@,
{
    let mut ids = ids;
    ids.truncate(max);
    ids
}

/// The finished fetches of a batch: the position of each fetch's id in the
/// batch, and its outcome, in the order in which they completed.
pub type Completions = Vec<(usize, Result<Item, FetchError>)>;

/// Every position in `0..n` is reported exactly once, and no other.
pub open spec fn covers(n: nat, done: Seq<(usize, Result<Item, FetchError>)>) -> bool {
    &&& forall|k: int| 0 <= k < done.len() ==> (#[trigger] done[k]).0 < n
    &&& forall|k1: int, k2: int|
        0 <= k1 < done.len() && 0 <= k2 < done.len() && k1 != k2 ==> (#[trigger] done[k1]).0
            != (#[trigger] done[k2]).0
    &&& forall|i: int| 0 <= i < n ==> #[trigger] reported(done, i)
}

/// Some finished fetch reports position `i`.
pub open spec fn reported(done: Seq<(usize, Result<Item, FetchError>)>, i: int) -> bool {
    exists|k: int| 0 <= k < done.len() && (#[trigger] done[k]).0 == i
}

spec fn mirror(n: int, i: int) -> int {
    n - 1 - i
}

/// No fetch of the batch failed.
pub open spec fn all_ok(done: Seq<(usize, Result<Item, FetchError>)>) -> bool {
    forall|k: int| 0 <= k < done.len() ==> (#[trigger] done[k]).1 is Ok
}

/// `e` is the error of the first failed fetch to complete.
pub open spec fn is_first_error(done: Seq<(usize, Result<Item, FetchError>)>, e: FetchError) -> bool {
    exists|k: int|
        0 <= k < done.len() && (#[trigger] done[k]).1 == Err::<Item, FetchError>(e) && forall|j: int|
            0 <= j < k ==> (#[trigger] done[j]).1 is Ok
}

/// `items` holds, at each position, the item fetched for that position.
pub open spec fn placed(items: Seq<Item>, done: Seq<(usize, Result<Item, FetchError>)>) -> bool {
    forall|k: int|
        0 <= k < done.len() ==> (#[trigger] done[k]).0 < items.len() && done[k].1 == Ok::<
            Item,
            FetchError,
        >(items[done[k].0 as int])
}

/// The order in which fetches complete does not matter: two batches of `n`
/// successful fetches that report the same outcomes, in any order, place the
/// same items.
pub proof fn completion_order_is_irrelevant(
    n: nat,
    d1: Seq<(usize, Result<Item, FetchError>)>,
    d2: Seq<(usize, Result<Item, FetchError>)>,
    v1: Seq<Item>,
    v2: Seq<Item>,
)
    requires
        covers(n, d1),
        forall|k1: int| 0 <= k1 < d1.len() ==> #[trigger] d2.contains(d1[k1]),
        v1.len() == n,
        v2.len() == n,
        placed(v1, d1),
        placed(v2, d2),
    ensures
        v1 == v2,
{
    assert forall|i: int| 0 <= i < n implies v1[i] == v2[i] by {
        assert(reported(d1, i));
        let k1 = choose|k: int| 0 <= k < d1.len() && (#[trigger] d1[k]).0 == i;
        assert(d2.contains(d1[k1]));
        let k2 = choose|k: int| 0 <= k < d2.len() && d2[k] == d1[k1];
        assert(d2[k2].1 == Ok::<Item, FetchError>(v2[d2[k2].0 as int]));
    }
    assert(v1 =~= v2);
}

/// Puts the outcomes of a batch of `n` fetches in the order of the batch's
/// ids, whatever the order in which they completed. A failed fetch fails the
/// batch with the error of the first failure to complete; results that do not
/// account for each position exactly once fail it with `Incomplete`.
pub fn assemble(n: usize, done: Completions) -> (r: Result<Vec<Item>, FetchError>)
    ensures
        all_ok(done@) && covers(n as nat, done@) ==> r is Ok,
        r is Ok ==> all_ok(done@) && covers(n as nat, done@) && r.unwrap()@.len() == n && placed(
            r.unwrap()@,
            done@,
        ),
        !all_ok(done@) ==> r is Err && is_first_error(done@, r.unwrap_err()),
        all_ok(done@) && !covers(n as nat, done@) ==> r == Err::<Vec<Item>, FetchError>(
            FetchError::Incomplete,
        ),
{
    let ghost orig = done@;
    let mut k: usize = 0;
    while k < done.len()
        invariant
            done@ == orig,
            k <= done@.len(),
            forall|j: int| 0 <= j < k ==> (#[trigger] orig[j]).1 is Ok,
        decreases done@.len() - k,
    {
        if let Err(e) = &done[k].1 {
            return Err(*e);
        }
        k = k + 1;
    }
    assert(all_ok(orig));
    // slot `n - 1 - i` holds the item of position `i`, so that popping the
    // slots hands the items out in position order
    let mut slots: Vec<Option<Item>> = Vec::new();
    let mut m: usize = 0;
    while m < n
        invariant
            m <= n,
            slots@.len() == m,
            forall|i: int| 0 <= i < m ==> (#[trigger] slots@[i]) is None,
        decreases n - m,
    {
        slots.push(None);
        m = m + 1;
    }
    let mut pending = done;
    while pending.len() > 0
        invariant
            all_ok(orig),
            orig == done@,
            pending@.len() <= orig.len(),
            pending@ == orig.subrange(0, pending@.len() as int),
            slots@.len() == n,
            forall|k1: int, k2: int|
                pending@.len() <= k1 < orig.len() && pending@.len() <= k2 < orig.len() && k1 != k2
                    ==> (#[trigger] orig[k1]).0 != (#[trigger] orig[k2]).0,
            forall|k: int|
                pending@.len() <= k < orig.len() ==> (#[trigger] orig[k]).0 < n && slots@[mirror(n as int, orig[k].0 as int)] == Some(orig[k].1.unwrap()),
            forall|i: int|
                0 <= i < n && (#[trigger] slots@[mirror(n as int, i)]) is Some ==> reported(
                    orig.subrange(pending@.len() as int, orig.len() as int),
                    i,
                ),
        decreases pending@.len(),
    {
        let ghost len = pending@.len();
        let (idx, res) = pending.pop().unwrap();
        assert(orig[len - 1] == (idx, res));
        if idx >= n {
            assert(orig[len - 1].0 == idx);
            return Err(FetchError::Incomplete);
        }
        if slots[n - 1 - idx].is_some() {
            proof {
                let old_rest = orig.subrange(len as int, orig.len() as int);
                assert(mirror(n as int, idx as int) == n - 1 - idx);
                assert(reported(old_rest, idx as int));
                let k = choose|k: int| 0 <= k < old_rest.len() && (#[trigger] old_rest[k]).0 == idx;
                assert(orig[len + k].0 == orig[len - 1].0);
            }
            return Err(FetchError::Incomplete);
        }
        let item = match res {
            Ok(item) => item,
            Err(e) => return Err(e),
        };
        slots.set(n - 1 - idx, Some(item));
        assert(mirror(n as int, idx as int) == n - 1 - idx);
        let ghost rest = orig.subrange(pending@.len() as int, orig.len() as int);
        assert forall|i: int| 0 <= i < n && (#[trigger] slots@[mirror(n as int, i)]) is Some implies reported(
            rest,
            i,
        ) by {
            if i != idx {
                let old_rest = orig.subrange(len as int, orig.len() as int);
                let k = choose|k: int| 0 <= k < old_rest.len() && (#[trigger] old_rest[k]).0 == i;
                assert(rest[k + 1] == old_rest[k]);
            } else {
                assert(rest[0].0 == i);
            }
        }
    }
    assert(orig.subrange(0, orig.len() as int) == orig);
    let ghost filled = slots@;
    let mut items: Vec<Item> = Vec::new();
    while items.len() < n
        invariant
            items@.len() <= n,
            slots@ == filled.subrange(0, n - items@.len()),
            filled.len() == n,
            forall|j: int| 0 <= j < items@.len() ==> Some(#[trigger] items@[j]) == filled[mirror(n as int, j)],
            all_ok(orig),
            orig == done@,
            forall|k: int|
                0 <= k < orig.len() ==> (#[trigger] orig[k]).0 < n && filled[mirror(
                    n as int,
                    orig[k].0 as int,
                )] == Some(orig[k].1.unwrap()),
            forall|i: int|
                0 <= i < n && (#[trigger] filled[mirror(n as int, i)]) is Some ==> reported(orig, i),
        decreases n - items@.len(),
    {
        let ghost j = items@.len();
        match slots.pop() {
            Some(Some(item)) => {
                assert(filled[n - 1 - j] == Some(item));
                items.push(item);
            },
            _ => {
                assert(filled[mirror(n as int, j as int)] is None);
                assert(!reported(orig, j as int));
                return Err(FetchError::Incomplete);
            },
        }
    }
    assert(covers(n as nat, orig)) by {
        assert forall|i: int| 0 <= i < n implies #[trigger] reported(orig, i) by {
            assert(Some(items@[i]) == filled[mirror(n as int, i)]);
        }
    }
    Ok(items)
}

} // verus!
