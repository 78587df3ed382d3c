//! The per-series cache: a ring buffer of time-keyed values whose keys
//! strictly increase and which keeps at most `capacity` of the newest entries.

use vstd::prelude::*;
use crate::entity::{TSCacheValue, TSItem, ValueView};
use crate::exception::{Exception, ExceptionKind};

verus! {

/// Whether the keys of `s` strictly increase from first to last.
pub open spec fn increasing(s: Seq<(u128, ValueView)>) -> bool {
    forall|i: int, j: int| 0 <= i < j < s.len() ==> s[i].0 < s[j].0
}

/// The key a new entry must exceed: the newest key, or 0 for an empty cache.
pub open spec fn last_key(s: Seq<(u128, ValueView)>) -> u128 {
    if s.len() == 0 {
        0
    } else {
        s.last().0
    }
}

/// The last `n` elements of `s`, or all of `s` where it is shorter.
pub open spec fn keep_last<A>(s: Seq<A>, n: nat) -> Seq<A> {
    if s.len() <= n {
        s
    } else {
        s.subrange(s.len() - n, s.len() as int)
    }
}

/// The entries after an insert of `(time, value)` into a cache of `cap`
/// entries holding `s`: a key that does not exceed the newest is refused.
pub open spec fn after_insert(
    s: Seq<(u128, ValueView)>,
    cap: nat,
    time: u128,
    value: ValueView,
) -> Seq<(u128, ValueView)> {
    if time > last_key(s) {
        keep_last(s.push((time, value)), cap)
    } else {
        s
    }
}

/// The values of the entries of `s` whose key lies strictly between `lo` and
/// `hi`, oldest first.
pub open spec fn values_between(s: Seq<(u128, ValueView)>, lo: u128, hi: u128) -> Seq<
    ValueView,
>
    decreases s.len(),
{
    if s.len() == 0 {
        Seq::empty()
    } else {
        let rest = values_between(s.drop_last(), lo, hi);
        if lo < s.last().0 && s.last().0 < hi {
            rest.push(s.last().1)
        } else {
            rest
        }
    }
}

/// Distance between two keys.
pub open spec fn distance(a: u128, b: u128) -> int {
    if a >= b {
        a - b
    } else {
        b - a
    }
}

/// Entry `i` of `s` is the one nearest to `time`: no entry is nearer, and
/// every earlier entry is farther.
pub open spec fn is_nearest(s: Seq<(u128, ValueView)>, time: u128, i: int) -> bool {
    &&& 0 <= i < s.len()
    &&& forall|j: int| 0 <= j < s.len() ==> distance(s[i].0, time) <= distance(s[j].0, time)
    &&& forall|j: int| 0 <= j < i ==> distance(s[i].0, time) < distance(s[j].0, time)
}

/// The entries after inserting each of `run` in order into a cache of `cap`
/// entries holding `s`, refused inserts included.
pub open spec fn after_inserts(
    s: Seq<(u128, ValueView)>,
    cap: nat,
    run: Seq<(u128, ValueView)>,
) -> Seq<(u128, ValueView)>
    decreases run.len(),
{
    if run.len() == 0 {
        s
    } else {
        after_insert(after_inserts(s, cap, run.drop_last()), cap, run.last().0, run.last().1)
    }
}

proof fn lemma_keep_last_push(s: Seq<(u128, ValueView)>, n: nat, x: (u128, ValueView))
    requires
        n > 0,
    ensures
        keep_last(keep_last(s, n).push(x), n) == keep_last(s.push(x), n),
{
    assert(keep_last(keep_last(s, n).push(x), n) =~= keep_last(s.push(x), n));
}

proof fn lemma_keep_last_increasing(s: Seq<(u128, ValueView)>, n: nat)
    requires
        increasing(s),
    ensures
        increasing(keep_last(s, n)),
        n > 0 && s.len() > 0 ==> last_key(keep_last(s, n)) == last_key(s),
{
    if s.len() > n {
        let t = keep_last(s, n);
        assert forall|i: int, j: int| 0 <= i < j < t.len() implies t[i].0 < t[j].0 by {
            assert(t[i] == s[s.len() - n + i]);
            assert(t[j] == s[s.len() - n + j]);
        }
    }
}

/// Keys only grow: whatever is inserted into a cache whose keys strictly
/// increase, in whatever order, its keys still strictly increase, and its
/// newest key never goes down. An insert whose key does not exceed the
/// newest one is refused and leaves the entries as they were.
pub proof fn lemma_monotonic(s: Seq<(u128, ValueView)>, cap: nat, run: Seq<(u128, ValueView)>)
    requires
        increasing(s),
        cap > 0,
    ensures
        increasing(after_inserts(s, cap, run)),
        last_key(after_inserts(s, cap, run)) >= last_key(s),
        forall|t: u128, v: ValueView|
            t <= last_key(after_inserts(s, cap, run)) ==> #[trigger] after_insert(
                after_inserts(s, cap, run),
                cap,
                t,
                v,
            ) == after_inserts(s, cap, run),
    decreases run.len(),
{
    if run.len() > 0 {
        lemma_monotonic(s, cap, run.drop_last());
        let prev = after_inserts(s, cap, run.drop_last());
        let x = run.last();
        if x.0 > last_key(prev) {
            let p = prev.push(x);
            assert(increasing(p)) by {
                assert forall|i: int, j: int| 0 <= i < j < p.len() implies p[i].0 < p[j].0 by {
                    if j == p.len() - 1 && prev.len() > 0 {
                        assert(p[i].0 <= prev.last().0);
                    }
                }
            }
            lemma_keep_last_increasing(p, cap);
        }
    }
}

/// Once more than `cap` entries with strictly increasing, positive keys
/// have gone into an empty cache of `cap` entries, it holds exactly the
/// newest `cap` of them, oldest first; the older ones are gone.
pub proof fn lemma_capacity_bound(cap: nat, run: Seq<(u128, ValueView)>)
    requires
        cap > 0,
        run.len() > cap,
        increasing(run),
        run[0].0 > 0,
    ensures
        after_inserts(Seq::empty(), cap, run) == run.subrange(run.len() - cap, run.len() as int),
        after_inserts(Seq::empty(), cap, run).len() == cap,
{
    lemma_inserts_keep_last(cap, run);
}

proof fn lemma_inserts_keep_last(cap: nat, run: Seq<(u128, ValueView)>)
    requires
        cap > 0,
        increasing(run),
        run.len() > 0 ==> run[0].0 > 0,
    ensures
        after_inserts(Seq::empty(), cap, run) == keep_last(run, cap),
    decreases run.len(),
{
    if run.len() > 0 {
        let r = run.drop_last();
        assert(increasing(r));
        lemma_inserts_keep_last(cap, r);
        lemma_keep_last_increasing(r, cap);
        lemma_keep_last_push(r, cap, run.last());
        assert(run.last().0 > last_key(keep_last(r, cap)));
        assert(r.push(run.last()) =~= run);
    }
}

/// A fixed-capacity ring buffer of `(key, value)` entries.
pub struct TSQueue {
    ts_item: Box<TSItem>,
    capacity: usize,
    /// Next slot to write.
    index: usize,
    len: usize,
    keys: Vec<u128>,
    values: Vec<TSCacheValue>,
}

impl TSQueue {
    /// Number of entries the cache can hold.
    pub closed spec fn cap(&self) -> nat {
        self.capacity as nat
    }

    /// The definition of the series this cache belongs to.
    pub closed spec fn item(&self) -> TSItem {
        *self.ts_item
    }

    /// Slot of the oldest entry.
    closed spec fn start(&self) -> int {
        if self.len < self.capacity {
            0
        } else {
            self.index as int
        }
    }

    /// Slot of the `i`-th entry, oldest first.
    closed spec fn slot(&self, i: int) -> int {
        if self.start() + i < self.capacity {
            self.start() + i
        } else {
            self.start() + i - self.capacity
        }
    }

    /// The entries held, oldest first.
    pub closed spec fn entries(&self) -> Seq<(u128, ValueView)> {
        Seq::new(self.len as nat, |i: int| (self.keys@[self.slot(i)], self.values@[self.slot(i)]@))
    }

    pub closed spec fn wf(&self) -> bool {
        &&& self.capacity > 0
        &&& self.keys@.len() == self.capacity
        &&& self.values@.len() == self.capacity
        &&& self.index < self.capacity
        &&& self.len <= self.capacity
        &&& (self.len < self.capacity ==> self.index == self.len)
        &&& increasing(self.entries())
    }

    /// What every caller may rely on of a well-formed cache.
    pub proof fn lemma_wf(&self)
        requires
            self.wf(),
        ensures
            self.cap() > 0,
            self.entries().len() <= self.cap(),
            increasing(self.entries()),
    {
    }

    pub fn new(item: Box<TSItem>, capacity: usize) -> (r: TSQueue)
        requires
            capacity > 0,
        ensures
            r.wf(),
            r.cap() == capacity,
            r.entries() == Seq::<(u128, ValueView)>::empty(),
            r.item() == *item,
    {
        let r = TSQueue {
            ts_item: item,
            capacity,
            index: 0,
            len: 0,
            keys: vec![0; capacity],
            values: vec![TSCacheValue::Long(0); capacity],
        };
        assert(r.entries() =~= Seq::<(u128, ValueView)>::empty());
        r
    }

    /// Slot of the newest entry.
    fn newest_slot(&self) -> (r: usize)
        requires
            self.wf(),
            self.len > 0,
        ensures
            r == self.slot(self.len - 1),
            r < self.capacity,
    {
        if self.index == 0 {
            self.capacity - 1
        } else {
            self.index - 1
        }
    }

    /// The newest key, or 0 when the cache is empty.
    pub fn newest_key(&self) -> (r: u128)
        requires
            self.wf(),
        ensures
            r == last_key(self.entries()),
    {
        if self.len == 0 {
            0
        } else {
            let s = self.newest_slot();
            self.keys[s]
        }
    }

    /// Appends `(time, value)` when `time` exceeds the newest key (or 0 on an
    /// empty cache), evicting the oldest entry when the cache is full; else
    /// refuses it with `TimeSerieError` and changes nothing.
    pub fn insert(&mut self, time: u128, value: TSCacheValue) -> (r: Result<(), Exception>)
        requires
            old(self).wf(),
        ensures
            final(self).wf(),
            final(self).cap() == old(self).cap(),
            final(self).item() == old(self).item(),
            final(self).entries() == after_insert(
                old(self).entries(),
                old(self).cap(),
                time,
                value@,
            ),
            r is Ok <==> time > last_key(old(self).entries()),
            r matches Err(e) ==> e.code == ExceptionKind::TimeSerieError.spec_code()
                && *final(self) == *old(self),
    {
        let last = self.newest_key();
        if time <= last {
            return Err(Exception::err(ExceptionKind::TimeSerieError, "key must be greater than the last key"));
        }
        let ghost old_entries = self.entries();
        let ghost x = (time, value@);
        let i = self.index;
        self.keys.set(i, time);
        self.values.set(i, value);
        if self.index + 1 == self.capacity {
            self.index = 0;
        } else {
            self.index = self.index + 1;
        }
        if self.len < self.capacity {
            self.len = self.len + 1;
            assert(self.entries() =~= old_entries.push(x)) by {
                assert forall|k: int| 0 <= k < self.len implies self.slot(k) == k by {}
            }
        } else {
            assert(self.entries() =~= old_entries.push(x).subrange(1, old_entries.len() as int + 1));
        }
        assert(increasing(self.entries())) by {
            assert forall|a: int, b: int| 0 <= a < b < self.entries().len()
                implies self.entries()[a].0 < self.entries()[b].0 by {
                let s = old_entries.push(x);
                assert(increasing(old_entries));
                if self.len < self.capacity || old_entries.len() < self.capacity {
                    assert(self.entries()[a] == s[a]);
                    assert(self.entries()[b] == s[b]);
                } else {
                    assert(self.entries()[a] == s[a + 1]);
                    assert(self.entries()[b] == s[b + 1]);
                }
            }
        }
        Ok(())
    }

    /// The newest value, or `None` when nothing was ever inserted.
    pub fn query_last(&self) -> (r: Option<&TSCacheValue>)
        requires
            self.wf(),
        ensures
            r is None <==> self.entries().len() == 0,
            r matches Some(v) ==> v@ == self.entries().last().1,
    {
        if self.len == 0 {
            None
        } else {
            let s = self.newest_slot();
            Some(&self.values[s])
        }
    }

    /// The values whose key lies strictly between `start_time` and
    /// `end_time`, oldest first.
    pub fn query_times(&self, start_time: u128, end_time: u128) -> (r: Vec<TSCacheValue>)
        requires
            self.wf(),
        ensures
            r@.map_values(|v: TSCacheValue| v@) == values_between(self.entries(), start_time, end_time),
    {
        let mut buff: Vec<TSCacheValue> = Vec::new();
        let start: usize = if self.len < self.capacity { 0 } else { self.index };
        let mut i: usize = 0;
        while i < self.len
            invariant
                self.wf(),
                start == self.start(),
                i <= self.len,
                buff@.map_values(|v: TSCacheValue| v@) == values_between(self.entries().take(i as int), start_time, end_time),
            decreases self.len - i,
        {
            let j: usize = if i < self.capacity - start { start + i } else { i - (self.capacity - start) };
            assert(self.entries().take(i + 1).drop_last() =~= self.entries().take(i as int));
            if self.keys[j] > start_time && self.keys[j] < end_time {
                let v = self.values[j].duplicate();
                buff.push(v);
                assert(buff@.map_values(|v: TSCacheValue| v@) =~= values_between(self.entries().take(i + 1), start_time, end_time));
            } else {
                assert(buff@.map_values(|v: TSCacheValue| v@) =~= values_between(self.entries().take(i + 1), start_time, end_time));
            }
            i = i + 1;
        }
        assert(self.entries().take(self.len as int) =~= self.entries());
        buff
    }

    /// The value whose key is nearest to `time`; the older of two equally
    /// near entries. `None` on an empty cache.
    pub fn query_time(&self, time: u128) -> (r: Option<&TSCacheValue>)
        requires
            self.wf(),
        ensures
            r is None <==> self.entries().len() == 0,
            r matches Some(v) ==> exists|i: int|
                is_nearest(self.entries(), time, i) && v@ == #[trigger] self.entries()[i].1,
    {
        if self.len == 0 {
            return None;
        }
        let start: usize = if self.len < self.capacity { 0 } else { self.index };
        let mut best: usize = start;
        let ghost mut best_i: int = 0;
        let mut best_d: u128 = if self.keys[start] >= time { self.keys[start] - time } else { time - self.keys[start] };
        let mut i: usize = 1;
        while i < self.len
            invariant
                self.wf(),
                start == self.start(),
                1 <= i <= self.len,
                0 <= best_i < i,
                best == self.slot(best_i),
                best_d == distance(self.entries()[best_i].0, time),
                forall|j: int| 0 <= j < i ==> best_d <= distance(self.entries()[j].0, time),
                forall|j: int| 0 <= j < best_i ==> best_d < distance(self.entries()[j].0, time),
            decreases self.len - i,
        {
            let j: usize = if i < self.capacity - start { start + i } else { i - (self.capacity - start) };
            let k = self.keys[j];
            let d: u128 = if k >= time { k - time } else { time - k };
            if d < best_d {
                best = j;
                best_d = d;
                proof {
                    best_i = i as int;
                }
            }
            i = i + 1;
        }
        assert(is_nearest(self.entries(), time, best_i));
        assert(self.values@[best as int]@ == self.entries()[best_i].1);
        Some(&self.values[best])
    }
}

} // verus!
