//! The value model: the kinds a series can hold, how long its log keeps a
//! file open, a series definition and one typed value.

use vstd::prelude::*;

verus! {

/// The kind of value a series holds. Fixed when the series is created.
#[derive(Debug, Clone, Copy, PartialEq, Eq, Structural)]
pub enum DataType {
    Float,
    Long,
    Double,
    Number,
    String,
    ByteArray,
}

impl DataType {
    /// Encoded width in bytes of a value of this kind; 0 for variable length.
    pub open spec fn spec_length(self) -> u16 {
        match self {
            DataType::Float => 4,
            DataType::Long => 8,
            DataType::Double => 8,
            DataType::Number => 8,
            DataType::String => 0,
            DataType::ByteArray => 0,
        }
    }

    pub fn length(&self) -> (r: u16)
        ensures
            r == self.spec_length(),
    {
        match self {
            DataType::Float => 4,
            DataType::Long => 8,
            DataType::Double => 8,
            DataType::Number => 8,
            DataType::String => 0,
            DataType::ByteArray => 0,
        }
    }

    /// Whether `value` carries the tag of this kind.
    pub fn equal(&self, value: &TSCacheValue) -> (r: bool)
        ensures
            r == (*self == value@.data_type()),
    {
        match value {
            TSCacheValue::Float(_) => matches!(self, DataType::Float),
            TSCacheValue::Long(_) => matches!(self, DataType::Long),
            TSCacheValue::Double(_) => matches!(self, DataType::Double),
            TSCacheValue::Number(_) => matches!(self, DataType::Number),
            TSCacheValue::String(_) => matches!(self, DataType::String),
            TSCacheValue::ByteArray(_) => matches!(self, DataType::ByteArray),
        }
    }
}

/// How long one log file of a series stays in use. `Nerve` means the series
/// is never written to disk.
#[derive(Debug, Clone, Copy, PartialEq, Eq, Structural)]
pub enum SaveTimePeriod {
    Nerve,
    Minute,
    TenMinutes,
    Hour,
    Day,
}

impl SaveTimePeriod {
    /// The period in seconds.
    pub open spec fn spec_period(self) -> u128 {
        match self {
            SaveTimePeriod::Nerve => 0,
            SaveTimePeriod::Minute => 60,
            SaveTimePeriod::TenMinutes => 600,
            SaveTimePeriod::Hour => 3600,
            SaveTimePeriod::Day => 86400,
        }
    }

    pub fn as_period(&self) -> (r: u128)
        ensures
            r == self.spec_period(),
    {
        match self {
            SaveTimePeriod::Nerve => 0,
            SaveTimePeriod::Minute => 60,
            SaveTimePeriod::TenMinutes => 60 * 10,
            SaveTimePeriod::Hour => 3600,
            SaveTimePeriod::Day => 3600 * 24,
        }
    }
}

/// The definition of a series: its unique name, the size of its cache, the
/// kind of its values and the period of its log files.
#[allow(non_snake_case)]
#[derive(Debug, Clone)]
pub struct TSItem {
    pub tsName: String,
    pub capacity: usize,
    pub datatype: DataType,
    pub saveTime: SaveTimePeriod,
}

/// The plain content of a series definition.
pub struct ItemView {
    pub name: Seq<char>,
    pub capacity: usize,
    pub datatype: DataType,
    pub save_time: SaveTimePeriod,
}

impl View for TSItem {
    type V = ItemView;

    open spec fn view(&self) -> ItemView {
        ItemView {
            name: self.tsName@,
            capacity: self.capacity,
            datatype: self.datatype,
            save_time: self.saveTime,
        }
    }
}

impl TSItem {
    /// A field-by-field copy.
    pub fn duplicate(&self) -> (r: TSItem)
        ensures
            r@ == self@,
    {
        TSItem {
            tsName: self.tsName.clone(),
            capacity: self.capacity,
            datatype: self.datatype,
            saveTime: self.saveTime,
        }
    }
}

/// One typed value. The floating-point kinds are held by their IEEE-754 bit
/// patterns, which is all the cache ever reads of them.
#[derive(Debug, Clone, PartialEq)]
pub enum TSCacheValue {
    Float(u32),
    Long(i64),
    Double(u64),
    Number(u64),
    String(String),
    ByteArray(Vec<u8>),
}

/// The plain content of a typed value.
pub enum ValueView {
    Float(u32),
    Long(i64),
    Double(u64),
    Number(u64),
    String(Seq<char>),
    ByteArray(Seq<u8>),
}

impl ValueView {
    /// The kind whose tag this value carries.
    pub open spec fn data_type(self) -> DataType {
        match self {
            ValueView::Float(_) => DataType::Float,
            ValueView::Long(_) => DataType::Long,
            ValueView::Double(_) => DataType::Double,
            ValueView::Number(_) => DataType::Number,
            ValueView::String(_) => DataType::String,
            ValueView::ByteArray(_) => DataType::ByteArray,
        }
    }
}

impl View for TSCacheValue {
    type V = ValueView;

    open spec fn view(&self) -> ValueView {
        match self {
            TSCacheValue::Float(v) => ValueView::Float(*v),
            TSCacheValue::Long(v) => ValueView::Long(*v),
            TSCacheValue::Double(v) => ValueView::Double(*v),
            TSCacheValue::Number(v) => ValueView::Number(*v),
            TSCacheValue::String(s) => ValueView::String(s@),
            TSCacheValue::ByteArray(b) => ValueView::ByteArray(b@),
        }
    }
}

impl TSCacheValue {
    /// A copy with the same content.
    pub fn duplicate(&self) -> (r: TSCacheValue)
        ensures
            r@ == self@,
    {
        match self {
            TSCacheValue::Float(v) => TSCacheValue::Float(*v),
            TSCacheValue::Long(v) => TSCacheValue::Long(*v),
            TSCacheValue::Double(v) => TSCacheValue::Double(*v),
            TSCacheValue::Number(v) => TSCacheValue::Number(*v),
            TSCacheValue::String(s) => TSCacheValue::String(s.clone()),
            TSCacheValue::ByteArray(b) => {
                let c = b.clone();
                assert(c@ =~= b@);
                TSCacheValue::ByteArray(c)
            },
        }
    }
}

/// One value sent to a series under a time key.
#[derive(Debug)]
pub struct TSValue {
    pub name: String,
    pub key: u128,
    pub value: TSCacheValue,
}

} // verus!
