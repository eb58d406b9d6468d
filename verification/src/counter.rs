//! The shared request counter: a single signed integer, starting at 0,
//! advanced by exactly 1 per completed request to the counter route.

use vstd::prelude::*;

verus! {

/// The process-wide request counter. It starts at 0 and only ever moves
/// up by 1, so its value is always the number of completed increments.
pub struct Counter {
    pub value: i32,
}

impl Counter {
    /// The counter never goes below its starting value.
    pub open spec fn wf(&self) -> bool {
        0 <= self.value
    }

    /// A fresh counter, as built at process start.
    pub fn new() -> (c: Counter)
        ensures
            c.wf(),
            c.value == 0,
    {
        Counter { value: 0 }
    }

    /// The atomic read-modify-write step of the counter route: advance the
    /// counter by 1 and report the new value.
    pub fn increment(&mut self) -> (n: i32)
        requires
            old(self).wf(),
            old(self).value < i32::MAX,
        ensures
            final(self).wf(),
            final(self).value == old(self).value + 1,
            n == final(self).value,
    {
        self.value = self.value + 1;
        self.value
    }
}

/// Drive `n` sequential requests' worth of increments and collect the
/// returned values in order. Starting from a fresh counter the values are
/// exactly 1, 2, ..., n: each increment observes one more than the last,
/// and no two observe the same value.
pub fn sequential_values(counter: &mut Counter, n: u32) -> (vals: Vec<i32>)
    requires
        old(counter).wf(),
        old(counter).value + n <= i32::MAX,
    ensures
        final(counter).wf(),
        final(counter).value == old(counter).value + n,
        vals@.len() == n,
        forall|i: int| 0 <= i < n ==> vals@[i] == old(counter).value + i + 1,
{
    let mut vals: Vec<i32> = Vec::new();
    let mut k: u32 = 0;
    while k < n
        invariant
            counter.wf(),
            old(counter).value + n <= i32::MAX,
            k <= n,
            counter.value == old(counter).value + k,
            vals@.len() == k,
            forall|i: int| 0 <= i < k ==> vals@[i] == old(counter).value + i + 1,
        decreases n - k,
    {
        let v = counter.increment();
        vals.push(v);
        k = k + 1;
    }
    vals
}

/// However the responses of `n` requests to the counter route are later
/// observed, the collection of returned values is exactly {1, ..., n}:
/// each of those values once, with no duplicates and no gaps. `vals` is
/// the returned values in completion order of the increments, as
/// `sequential_values` produces them from a fresh counter.
pub proof fn lemma_values_multiset(vals: Seq<int>, n: nat)
    requires
        vals.len() == n,
        forall|i: int| 0 <= i < n ==> vals[i] == i + 1,
    ensures
        forall|v: int| 1 <= v <= n ==> #[trigger] vals.to_multiset().count(v) == 1,
        forall|v: int| !(1 <= v <= n) ==> #[trigger] vals.to_multiset().count(v) == 0,
    decreases n,
{
    broadcast use vstd::seq_lib::group_to_multiset_ensures;
    broadcast use vstd::multiset::group_multiset_properties;

    if n == 0 {
        assert(forall|v: int| !vals.contains(v));
    } else {
        let prefix = vals.drop_last();
        lemma_values_multiset(prefix, (n - 1) as nat);
        assert(vals =~= prefix.push(vals.last()));
        assert(vals.last() == n);
        assert(vals.to_multiset() =~= prefix.to_multiset().insert(n as int));
        assert forall|v: int| 1 <= v <= n implies #[trigger] vals.to_multiset().count(v)
            == 1 by {
            if v == n {
                assert(prefix.to_multiset().count(v) == 0);
            }
        }
    }
}

} // verus!
