//! Statistics of the attributes of a layer.

use vstd::prelude::*;
use crate::bits::F64_MINUS_ONE;

verus! {

#[derive(Debug, Clone)]
pub struct ValueCount {
    pub value: String,
    pub count: usize,
}

impl ValueCount {
    /// Every field has the value that a record starts from.
    pub open spec fn is_default(&self) -> bool {
        &&& self.value@ == Seq::<char>::empty()
        &&& self.count == 0
    }
}

impl Default for ValueCount {
    fn default() -> (r: Self)
        ensures
            r.is_default(),
    {
        Self {
            value: String::new(),
            count: 0,
        }
    }
}

#[derive(Debug, Clone)]
pub struct Histogram {
    /// Bit pattern of a double-precision number.
    pub minimum: u64,
    /// Bit pattern of a double-precision number.
    pub maximum: u64,
    /// At most 256 bins.
    pub counts: Vec<u16>,
}

impl Histogram {
    /// Every field has the value that a record starts from.
    pub open spec fn is_default(&self) -> bool {
        &&& self.minimum == F64_MINUS_ONE
        &&& self.maximum == F64_MINUS_ONE
        &&& self.counts@.len() == 0
    }
}

impl Default for Histogram {
    fn default() -> (r: Self)
        ensures
            r.is_default(),
    {
        Self {
            minimum: F64_MINUS_ONE,
            maximum: F64_MINUS_ONE,
            counts: Vec::new(),
        }
    }
}

/// Real numbers are kept as bit patterns of single-precision numbers.
#[derive(Debug, Clone)]
pub struct AttributeStatistics {
    pub total_values_count: Option<usize>,
    pub min: Option<u32>,
    pub max: Option<u32>,
    pub min_time_str: String,
    pub max_time_str: String,
    pub count: Option<usize>,
    pub sum: Option<u32>,
    pub avg: Option<u32>,
    pub stddev: Option<u32>,
    pub variance: Option<u32>,
    pub histogram: Option<Histogram>,
    pub most_frequent_values: Option<Vec<ValueCount>>,
}

impl AttributeStatistics {
    /// Every field has the value that a record starts from.
    pub open spec fn is_default(&self) -> bool {
        &&& self.total_values_count is None
        &&& self.min is None
        &&& self.max is None
        &&& self.min_time_str@ == Seq::<char>::empty()
        &&& self.max_time_str@ == Seq::<char>::empty()
        &&& self.count is None
        &&& self.sum is None
        &&& self.avg is None
        &&& self.stddev is None
        &&& self.variance is None
        &&& self.histogram is None
        &&& self.most_frequent_values is None
    }
}

impl Default for AttributeStatistics {
    fn default() -> (r: Self)
        ensures
            r.is_default(),
    {
        Self {
            total_values_count: None,
            min: None,
            max: None,
            min_time_str: String::new(),
            max_time_str: String::new(),
            count: None,
            sum: None,
            avg: None,
            stddev: None,
            variance: None,
            histogram: None,
            most_frequent_values: None,
        }
    }
}

#[derive(Debug, Clone)]
pub struct Statistics {
    pub stats: AttributeStatistics,
}

impl Statistics {
    /// Every field has the value that a record starts from.
    pub open spec fn is_default(&self) -> bool {
        &&& self.stats.is_default()
    }
}

impl Default for Statistics {
    fn default() -> (r: Self)
        ensures
            r.is_default(),
    {
        Self {
            stats: AttributeStatistics::default(),
        }
    }
}

} // verus!
