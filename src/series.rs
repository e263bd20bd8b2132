//! Index arithmetic over a price series: the chronological order of the quotes
//! and the sliding windows of a simple moving average.
use vstd::prelude::*;

verus! {

/// Quote `a` comes before quote `b`: an earlier timestamp, or the same
/// timestamp and an earlier position in the received list (a stable order).
pub open spec fn precedes(ts: Seq<u64>, a: int, b: int) -> bool {
    ts[a] < ts[b] || (ts[a] == ts[b] && a < b)
}

/// `order` lists every position of `ts` once, ascending by timestamp, with
/// equal timestamps kept in the order in which they were received.
pub open spec fn is_chronological_order(ts: Seq<u64>, order: Seq<usize>) -> bool {
    &&& order.len() == ts.len()
    &&& forall|i: int| 0 <= i < order.len() ==> (#[trigger] order[i]) < ts.len()
    &&& forall|i: int, j: int|
        0 <= i < j < order.len() ==> precedes(ts, #[trigger] order[i] as int, #[trigger] order[j] as int)
}

/// The positions of the quotes, sorted by timestamp with a stable sort.
pub fn chronological_order(timestamps: &Vec<u64>) -> (order: Vec<usize>)
    ensures
        is_chronological_order(timestamps@, order@),
{
    let ghost ts = timestamps@;
    let n = timestamps.len();
    let mut order: Vec<usize> = Vec::new();
    let mut k: usize = 0;
    while k < n
        invariant
            k <= n,
            n == ts.len(),
            ts == timestamps@,
            order@.len() == k,
            forall|i: int| 0 <= i < k ==> (#[trigger] order@[i]) < k,
            forall|i: int, j: int|
                0 <= i < j < k ==> precedes(ts, #[trigger] order@[i] as int, #[trigger] order@[j] as int),
        decreases n - k,
    {
        let t = timestamps[k];
        let mut p: usize = k;
        while p > 0 && timestamps[order[p - 1]] > t
            invariant
                p <= k,
                k < n,
                n == ts.len(),
                ts == timestamps@,
                t == ts[k as int],
                order@.len() == k,
                forall|i: int| 0 <= i < k ==> (#[trigger] order@[i]) < k,
                forall|i: int| p <= i < k ==> ts[(#[trigger] order@[i]) as int] > t,
            decreases p,
        {
            p = p - 1;
        }
        assert forall|i: int| 0 <= i < p implies ts[(#[trigger] order@[i]) as int] <= t by {
            if i < p - 1 {
                assert(precedes(ts, order@[i] as int, order@[p - 1] as int));
            }
        }
        let ghost prev = order@;
        order.insert(p, k);
        assert forall|i: int, j: int| 0 <= i < j < k + 1 implies precedes(
            ts,
            #[trigger] order@[i] as int,
            #[trigger] order@[j] as int,
        ) by {
            if j < p {
                assert(precedes(ts, prev[i] as int, prev[j] as int));
            } else if j == p {
                assert(ts[prev[i] as int] <= t);
            } else if i == p {
                assert(ts[prev[j - 1] as int] > t);
            } else if i < p {
                assert(precedes(ts, prev[i] as int, prev[j - 1] as int));
            } else {
                assert(precedes(ts, prev[i - 1] as int, prev[j - 1] as int));
            }
        }
        k += 1;
    }
    order
}

/// Number of windows of `n` consecutive samples in a series of `len` samples.
pub open spec fn window_count(n: nat, len: nat) -> nat {
    if len >= n {
        (len - n + 1) as nat
    } else {
        0
    }
}

/// The windows of a simple moving average of width `n` over `len` samples, as
/// half-open ranges `(start, end)` slid with stride one. None where a moving
/// average does not apply: an empty series or a width of at most one. An
/// empty list where the series is shorter than the window.
pub fn sma_windows(n: usize, len: usize) -> (r: Option<Vec<(usize, usize)>>)
    ensures
        r is None <==> (len == 0 || n <= 1),
        r matches Some(w) ==> {
            &&& w@.len() == window_count(n as nat, len as nat)
            &&& forall|i: int| 0 <= i < w@.len() ==> #[trigger] w@[i] == (i as usize, (i + n) as usize)
        },
{
    if len == 0 || n <= 1 {
        return None;
    }
    let mut w: Vec<(usize, usize)> = Vec::new();
    if len >= n {
        let count = len - n + 1;
        let mut s: usize = 0;
        while s < count
            invariant
                s <= count,
                count == len - n + 1,
                n <= len,
                w@.len() == s,
                forall|i: int| 0 <= i < s ==> #[trigger] w@[i] == (i as usize, (i + n) as usize),
            decreases count - s,
        {
            w.push((s, s + n));
            s += 1;
        }
    }
    Some(w)
}

} // verus!
