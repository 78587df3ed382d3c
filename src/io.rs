//! The persistence log of one series, as decisions: when to open a file,
//! which bytes to append, when to rotate. The files themselves belong to the
//! caller, which carries out each `LogWrite`.

use vstd::prelude::*;
use crate::endian::{be_bytes, u128_to_be};
use crate::entity::{SaveTimePeriod, TSItem};

verus! {

/// The state of a log: whether a file is open and when it was opened.
pub struct LogView {
    pub period: SaveTimePeriod,
    pub open: bool,
    pub epoch: u128,
}

/// One append to carry out.
#[derive(Debug)]
pub struct LogWrite {
    /// Before writing, open a new file named by this time in milliseconds.
    pub open_at: Option<u128>,
    /// The bytes to append.
    pub record: Vec<u8>,
    /// After writing, flush and close the file.
    pub close: bool,
}

/// A record: the key as sixteen big-endian bytes, then the encoded value.
pub open spec fn record_bytes(key: u128, encoded: Seq<u8>) -> Seq<u8> {
    be_bytes(key as nat, 16) + encoded
}

/// Whether a file opened at `epoch` is closed after a write at `now` (both in
/// milliseconds): the whole periods of `period_secs` seconds that have
/// elapsed since `epoch` exceed one. A clock that went back counts as no
/// time elapsed.
pub open spec fn rotates(epoch: u128, now: u128, period_secs: u128) -> bool {
    let elapsed: int = if now >= epoch {
        now - epoch
    } else {
        0
    };
    elapsed / (period_secs * 1000) > 1
}

/// The state of a log that is written to at `now`.
pub open spec fn after_append(log: LogView, now: u128) -> LogView {
    let epoch = if log.open {
        log.epoch
    } else {
        now
    };
    LogView {
        period: log.period,
        open: !rotates(epoch, now, log.period.spec_period()),
        epoch,
    }
}

/// The state of a log after an append at `now`: unchanged for a series that
/// is never stored.
pub open spec fn log_after(log: LogView, now: u128) -> LogView {
    if log.period == SaveTimePeriod::Nerve {
        log
    } else {
        after_append(log, now)
    }
}

/// `r` is the plan of an append of `(key, encoded)` at `now` to `log`: none
/// for a series that is never stored; else a new file where none is open,
/// the record, and a close where the log rotates.
pub open spec fn planned(log: LogView, key: u128, encoded: Seq<u8>, now: u128, r: Option<LogWrite>) -> bool {
    if log.period == SaveTimePeriod::Nerve {
        r is None
    } else {
        &&& r matches Some(w)
        &&& w.open_at == (if log.open { None } else { Some(now) })
        &&& w.record@ == record_bytes(key, encoded)
        &&& w.close == !after_append(log, now).open
    }
}

/// The log of one series.
pub struct FileIOCache {
    ts_item: Box<TSItem>,
    open: bool,
    current_time: u128,
}

impl View for FileIOCache {
    type V = LogView;

    closed spec fn view(&self) -> LogView {
        LogView { period: self.ts_item.saveTime, open: self.open, epoch: self.current_time }
    }
}

impl FileIOCache {
    /// A log with no file open.
    pub fn new(ts_item: Box<TSItem>) -> (r: FileIOCache)
        ensures
            r@ == (LogView { period: ts_item.saveTime, open: false, epoch: 0 }),
    {
        FileIOCache { ts_item, open: false, current_time: 0 }
    }

    /// Plans the append of a value under `key`, given the value's encoding
    /// and the time `now_ms` in milliseconds. A series that is never stored
    /// gets `None`. Otherwise a file is opened first where none is, the
    /// record is written, and the file is closed when it has been in use
    /// for more than one full period.
    pub fn append(&mut self, key: u128, encoded: &Vec<u8>, now_ms: u128) -> (r: Option<LogWrite>)
        ensures
            final(self)@ == log_after(old(self)@, now_ms),
            planned(old(self)@, key, encoded@, now_ms, r),
    {
        if matches!(self.ts_item.saveTime, SaveTimePeriod::Nerve) {
            return None;
        }
        let open_at = if self.open {
            None
        } else {
            self.current_time = now_ms;
            self.open = true;
            Some(now_ms)
        };
        let mut record = u128_to_be(key);
        let mut i: usize = 0;
        while i < encoded.len()
            invariant
                i <= encoded@.len(),
                record@ == be_bytes(key as nat, 16) + encoded@.take(i as int),
            decreases encoded@.len() - i,
        {
            record.push(encoded[i]);
            i = i + 1;
            assert(record@ =~= be_bytes(key as nat, 16) + encoded@.take(i as int));
        }
        assert(encoded@.take(encoded@.len() as int) =~= encoded@);
        let period = self.ts_item.saveTime.as_period() * 1000;
        let elapsed: u128 = if now_ms >= self.current_time { now_ms - self.current_time } else { 0 };
        let close = elapsed / period > 1;
        if close {
            self.open = false;
        }
        Some(LogWrite { open_at, record, close })
    }

    /// Whether a file is open, whose buffered bytes a shutdown should flush.
    pub fn close(&self) -> (r: bool)
        ensures
            r == self@.open,
    {
        self.open
    }
}

} // verus!
