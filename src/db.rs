//! The registry: every series with its definition, its cache and its log.

use vstd::prelude::*;
use crate::entity::{ItemView, TSCacheValue, TSItem, TSValue, ValueView};
use crate::exception::{Exception, ExceptionKind};
use crate::io::{log_after, planned, FileIOCache, LogView, LogWrite};
use crate::queue::{keep_last, last_key, TSQueue};

verus! {

/// The plain content of one series.
pub struct SeriesView {
    pub item: ItemView,
    pub entries: Seq<(u128, ValueView)>,
    pub log: LogView,
}

/// A series as it stands right after it is registered.
pub open spec fn fresh_series(item: ItemView) -> SeriesView {
    SeriesView {
        item,
        entries: Seq::empty(),
        log: LogView { period: item.save_time, open: false, epoch: 0 },
    }
}

/// Position of the series named `name`, if there is one.
pub open spec fn find(s: Seq<SeriesView>, name: Seq<char>) -> Option<int> {
    if exists|i: int| 0 <= i < s.len() && #[trigger] s[i].item.name == name {
        Some(choose|i: int| 0 <= i < s.len() && #[trigger] s[i].item.name == name)
    } else {
        None
    }
}

/// No two series share a name.
pub open spec fn names_unique(s: Seq<SeriesView>) -> bool {
    forall|i: int, j: int|
        0 <= i < s.len() && 0 <= j < s.len() && i != j ==> s[i].item.name != s[j].item.name
}

/// The series after restoring the definitions `items` in order onto `s`: a
/// definition whose capacity is 0 or whose name is taken is passed over.
pub open spec fn restored(s: Seq<SeriesView>, items: Seq<ItemView>) -> Seq<SeriesView>
    decreases items.len(),
{
    if items.len() == 0 {
        s
    } else {
        let prev = restored(s, items.drop_last());
        let it = items.last();
        if it.capacity > 0 && find(prev, it.name) is None {
            prev.push(fresh_series(it))
        } else {
            prev
        }
    }
}

/// Restarting from a manifest reproduces it: restoring definitions with
/// distinct names and positive capacities onto an empty registry gives
/// exactly those series, in that order, each with an empty cache and no log
/// file open; so the manifest of the result lists the same definitions.
pub proof fn lemma_restore_manifest(items: Seq<ItemView>)
    requires
        forall|i: int| 0 <= i < items.len() ==> (#[trigger] items[i]).capacity > 0,
        forall|i: int, j: int|
            0 <= i < items.len() && 0 <= j < items.len() && i != j ==> items[i].name != items[j].name,
    ensures
        restored(Seq::empty(), items) == items.map_values(|it: ItemView| fresh_series(it)),
        restored(Seq::empty(), items).map_values(|s: SeriesView| s.item) == items,
    decreases items.len(),
{
    if items.len() > 0 {
        let r = items.drop_last();
        lemma_restore_manifest(r);
        let prev = restored(Seq::empty(), r);
        let it = items.last();
        assert forall|i: int| 0 <= i < prev.len() implies #[trigger] prev[i].item.name != it.name by {
            assert(prev[i] == fresh_series(r[i]));
            assert(r[i] == items[i]);
        }
        assert(find(prev, it.name) is None);
        assert(prev.push(fresh_series(it)) =~= items.map_values(|it: ItemView| fresh_series(it)));
    } else {
        assert(restored(Seq::empty(), items) =~= items.map_values(|it: ItemView| fresh_series(it)));
    }
    assert(restored(Seq::empty(), items).map_values(|s: SeriesView| s.item) =~= items);
}

/// The state of a series after `(key, value)` is ingested at `now`.
pub open spec fn ingested(s: SeriesView, key: u128, value: ValueView, now: u128) -> SeriesView {
    SeriesView {
        item: s.item,
        entries: keep_last(s.entries.push((key, value)), s.item.capacity as nat),
        log: log_after(s.log, now),
    }
}

struct Series {
    item: TSItem,
    queue: TSQueue,
    io: FileIOCache,
}

impl Series {
    spec fn view(&self) -> SeriesView {
        SeriesView { item: self.item@, entries: self.queue.entries(), log: self.io@ }
    }

    spec fn wf(&self) -> bool {
        &&& self.queue.wf()
        &&& self.queue.cap() == self.item.capacity
        &&& self.io@.period == self.item.saveTime
    }
}

/// All series, keyed by their unique names, in order of registration.
pub struct CacheDb {
    series: Vec<Series>,
}

impl View for CacheDb {
    type V = Seq<SeriesView>;

    closed spec fn view(&self) -> Seq<SeriesView> {
        Seq::new(self.series@.len(), |i: int| self.series@[i].view())
    }
}

impl CacheDb {
    pub closed spec fn wf(&self) -> bool {
        &&& forall|i: int| 0 <= i < self.series@.len() ==> (#[trigger] self.series@[i]).wf()
        &&& names_unique(self@)
    }

    /// What every caller may rely on of a well-formed registry.
    pub proof fn lemma_wf(&self)
        requires
            self.wf(),
        ensures
            names_unique(self@),
            forall|i: int| 0 <= i < self@.len() ==> {
                &&& (#[trigger] self@[i]).item.capacity > 0
                &&& self@[i].entries.len() <= self@[i].item.capacity
                &&& crate::queue::increasing(self@[i].entries)
                &&& self@[i].log.period == self@[i].item.save_time
            },
    {
        assert forall|i: int| 0 <= i < self@.len() implies {
            &&& (#[trigger] self@[i]).item.capacity > 0
            &&& self@[i].entries.len() <= self@[i].item.capacity
            &&& crate::queue::increasing(self@[i].entries)
            &&& self@[i].log.period == self@[i].item.save_time
        } by {
            assert(self.series@[i].wf());
            self.series@[i].queue.lemma_wf();
        }
    }

    pub fn new() -> (r: CacheDb)
        ensures
            r.wf(),
            r@ == Seq::<SeriesView>::empty(),
    {
        let r = CacheDb { series: Vec::new() };
        assert(r@ =~= Seq::<SeriesView>::empty());
        r
    }

    /// Position of the series named `key`.
    fn position(&self, key: &str) -> (r: Option<usize>)
        requires
            self.wf(),
        ensures
            r matches Some(i) ==> find(self@, key@) == Some(i as int) && i < self.series@.len(),
            r is None ==> find(self@, key@) is None,
    {
        let k = key.to_owned();
        let mut i: usize = 0;
        while i < self.series.len()
            invariant
                self.wf(),
                k@ == key@,
                i <= self.series@.len(),
                forall|j: int| 0 <= j < i ==> self@[j].item.name != key@,
            decreases self.series@.len() - i,
        {
            if self.series[i].item.tsName == k {
                assert(self@[i as int].item.name == key@);
                return Some(i);
            }
            i = i + 1;
        }
        None
    }

    /// Whether a series named `key` exists.
    pub fn contains_key(&self, key: &str) -> (r: bool)
        requires
            self.wf(),
        ensures
            r == find(self@, key@) is Some,
    {
        self.position(key).is_some()
    }

    /// Registers `item` with `queue` as its cache and a log with no file
    /// open; `TSNameExistsError` where its name is taken, changing nothing.
    pub fn create_new_item(&mut self, item: TSItem, queue: TSQueue) -> (r: Result<(), Exception>)
        requires
            old(self).wf(),
            queue.wf(),
            queue.cap() == item.capacity,
        ensures
            final(self).wf(),
            r is Err <==> find(old(self)@, item.tsName@) is Some,
            r matches Err(e) ==> e.code == ExceptionKind::TSNameExistsError.spec_code()
                && final(self)@ == old(self)@,
            r is Ok ==> final(self)@ == old(self)@.push(
                SeriesView { item: item@, entries: queue.entries(), log: fresh_series(item@).log },
            ),
    {
        if self.contains_key(item.tsName.as_str()) {
            return Err(Exception::err(ExceptionKind::TSNameExistsError, "duplicate series name"));
        }
        let io = FileIOCache::new(Box::new(item.duplicate()));
        let s = Series { item, queue, io };
        let ghost old_view = self@;
        self.series.push(s);
        assert(self@ =~= old_view.push(s.view()));
        Ok(())
    }

    /// Restores the definitions `items` in order, each with an empty cache;
    /// one whose capacity is 0 or whose name is taken is passed over.
    pub fn init(&mut self, items: Vec<TSItem>)
        requires
            old(self).wf(),
        ensures
            final(self).wf(),
            final(self)@ == restored(old(self)@, items@.map_values(|t: TSItem| t@)),
    {
        let ghost views = items@.map_values(|t: TSItem| t@);
        let mut i: usize = 0;
        while i < items.len()
            invariant
                self.wf(),
                i <= items@.len(),
                views == items@.map_values(|t: TSItem| t@),
                self@ == restored(old(self)@, views.take(i as int)),
            decreases items@.len() - i,
        {
            let item = &items[i];
            assert(views.take(i + 1).drop_last() =~= views.take(i as int));
            if item.capacity > 0 {
                let cap = item.capacity;
                let queue = TSQueue::new(Box::new(item.duplicate()), cap);
                let _ = self.create_new_item(item.duplicate(), queue);
            }
            i = i + 1;
        }
        assert(views.take(items@.len() as int) =~= views);
    }

    /// The definitions of all series, in order of registration: what the
    /// manifest holds.
    pub fn manifest(&self) -> (r: Vec<TSItem>)
        requires
            self.wf(),
        ensures
            r@.map_values(|t: TSItem| t@) == self@.map_values(|s: SeriesView| s.item),
    {
        let mut r: Vec<TSItem> = Vec::new();
        let mut i: usize = 0;
        while i < self.series.len()
            invariant
                i <= self.series@.len(),
                r@.len() == i,
                forall|k: int| 0 <= k < i ==> (#[trigger] r@[k])@ == self@[k].item,
            decreases self.series@.len() - i,
        {
            let it = self.series[i].item.duplicate();
            r.push(it);
            i = i + 1;
        }
        assert(r@.map_values(|t: TSItem| t@) =~= self@.map_values(|s: SeriesView| s.item));
        r
    }

    /// Ingests `value`, whose value encodes as `encoded`, at time `now_ms`.
    /// Unknown name: `TSNameNotFoundError`; a value of another kind than
    /// the series: `SaveTypeError`; a key that does not exceed the newest:
    /// `TimeSerieError`. Each error changes nothing. Otherwise the log plans
    /// its write first, then the cache takes the entry; the plan is returned.
    pub fn insert_new_value(&mut self, value: TSValue, encoded: &Vec<u8>, now_ms: u128) -> (r:
        Result<Option<LogWrite>, Exception>)
        requires
            old(self).wf(),
        ensures
            final(self).wf(),
            match find(old(self)@, value.name@) {
                None => r matches Err(e) && e.code == ExceptionKind::TSNameNotFoundError.spec_code()
                    && final(self)@ == old(self)@,
                Some(i) => {
                    let s = old(self)@[i];
                    if value.value@.data_type() != s.item.datatype {
                        r matches Err(e) && e.code == ExceptionKind::SaveTypeError.spec_code()
                            && final(self)@ == old(self)@
                    } else if value.key <= last_key(s.entries) {
                        r matches Err(e) && e.code == ExceptionKind::TimeSerieError.spec_code()
                            && final(self)@ == old(self)@
                    } else {
                        &&& r matches Ok(w) && planned(s.log, value.key, encoded@, now_ms, w)
                        &&& final(self)@ == old(self)@.update(
                            i,
                            ingested(s, value.key, value.value@, now_ms),
                        )
                    }
                },
            },
    {
        let i = match self.position(value.name.as_str()) {
            Some(i) => i,
            None => {
                return Err(Exception::err(ExceptionKind::TSNameNotFoundError, "series does not exist"));
            },
        };
        if !self.series[i].item.datatype.equal(&value.value) {
            return Err(Exception::err(ExceptionKind::SaveTypeError, "value does not match the series type"));
        }
        if value.key <= self.series[i].queue.newest_key() {
            return Err(Exception::err(ExceptionKind::TimeSerieError, "key must be greater than the last key"));
        }
        let ghost old_view = self@;
        let ghost sv = self@[i as int];
        let mut s = self.series.remove(i);
        let w = s.io.append(value.key, encoded, now_ms);
        let ins = s.queue.insert(value.key, value.value);
        assert(ins is Ok);
        self.series.insert(i, s);
        assert(self@ =~= old_view.update(i as int, ingested(sv, value.key, value.value@, now_ms)));
        Ok(w)
    }

    /// The cache of the series named `key`.
    pub fn get(&self, key: &str) -> (r: Option<&TSQueue>)
        requires
            self.wf(),
        ensures
            r is None <==> find(self@, key@) is None,
            r matches Some(q) ==> q.wf() && q.entries() == self@[find(self@, key@)->0].entries,
    {
        match self.position(key) {
            Some(i) => Some(&self.series[i].queue),
            None => None,
        }
    }

    /// The newest value of the series named `key`: `TSNameNotFoundError`
    /// where there is none, `QueueIsNullError` where it holds no value yet.
    pub fn query_last(&self, key: &str) -> (r: Result<&TSCacheValue, Exception>)
        requires
            self.wf(),
        ensures
            match find(self@, key@) {
                None => r matches Err(e) && e.code == ExceptionKind::TSNameNotFoundError.spec_code(),
                Some(i) => if self@[i].entries.len() == 0 {
                    r matches Err(e) && e.code == ExceptionKind::QueueIsNullError.spec_code()
                } else {
                    r matches Ok(v) && v@ == self@[i].entries.last().1
                },
            },
    {
        match self.position(key) {
            None => Err(Exception::err(ExceptionKind::TSNameNotFoundError, "series does not exist")),
            Some(i) => match self.series[i].queue.query_last() {
                Some(v) => Ok(v),
                None => Err(Exception::err(ExceptionKind::QueueIsNullError, "series holds no value yet")),
            },
        }
    }
}

} // verus!
