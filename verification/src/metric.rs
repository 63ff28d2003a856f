//! The atomic metric cell: a named counter or gauge.
//!
//! A counter only ever grows (its delta is validated as non-negative
//! before the cell is touched); a gauge moves freely. Every mutation
//! states its exact result and returns the new value.

use vstd::prelude::*;
use crate::value::Value;
use crate::value::sat64;

verus! {

broadcast use crate::value::lemma_value_bounds;

/// The two metric kinds.
#[derive(Clone, Copy, PartialEq, Eq, Structural, Debug)]
pub enum MetricKind {
    Counter,
    Gauge,
}

/// What a metric reads as: its identity and current value.
pub struct MetricView {
    pub name: Seq<char>,
    pub help: Seq<char>,
    pub kind: MetricKind,
    pub value: int,
}

/// A named metric cell.
pub struct Metric {
    pub name: String,
    pub help: String,
    pub kind: MetricKind,
    pub value: Value,
}

impl View for Metric {
    type V = MetricView;

    open spec fn view(&self) -> MetricView {
        MetricView { name: self.name@, help: self.help@, kind: self.kind, value: self.value@ }
    }
}

impl Metric {
    /// A counter never holds a negative value.
    pub open spec fn wf(self) -> bool {
        self.kind is Counter ==> self.value@ >= 0
    }

    /// A fresh counter at zero.
    pub fn new_counter(name: String, help: String) -> (r: Metric)
        ensures
            r@.name == name@,
            r@.help == help@,
            r@.kind is Counter,
            r@.value == 0,
            r.wf(),
    {
        Metric { name, help, kind: MetricKind::Counter, value: Value::zero() }
    }

    /// A fresh gauge at zero.
    pub fn new_gauge(name: String, help: String) -> (r: Metric)
        ensures
            r@.name == name@,
            r@.help == help@,
            r@.kind is Gauge,
            r@.value == 0,
            r.wf(),
    {
        Metric { name, help, kind: MetricKind::Gauge, value: Value::zero() }
    }

    /// The current value.
    pub fn value(&self) -> (r: Value)
        ensures
            r@ == self@.value,
    {
        self.value
    }

    /// An identical fresh cell.
    pub fn duplicate(&self) -> (r: Metric)
        ensures
            r == *self,
    {
        Metric {
            name: self.name.clone(),
            help: self.help.clone(),
            kind: self.kind,
            value: self.value,
        }
    }

    /// Counter: adds a validated non-negative delta and returns the new
    /// value; the value never decreases.
    pub fn counter_increment_by(&mut self, d: Value) -> (r: Value)
        requires
            old(self).kind is Counter,
            old(self).wf(),
            d@ >= 0,
        ensures
            final(self)@.value == sat64(old(self)@.value + d@),
            final(self)@.value >= old(self)@.value,
            final(self)@.name == old(self)@.name,
            final(self)@.help == old(self)@.help,
            final(self)@.kind == old(self)@.kind,
            final(self).wf(),
            r@ == final(self)@.value,
    {
        let v = self.value.add(d);
        self.value = v;
        v
    }

    /// Counter: adds one.
    pub fn counter_increment(&mut self) -> (r: Value)
        requires
            old(self).kind is Counter,
            old(self).wf(),
        ensures
            final(self)@.value == sat64(old(self)@.value + crate::value::SCALE),
            final(self)@.value >= old(self)@.value,
            final(self)@.name == old(self)@.name,
            final(self)@.help == old(self)@.help,
            final(self)@.kind == old(self)@.kind,
            final(self).wf(),
            r@ == final(self)@.value,
    {
        self.counter_increment_by(Value::one())
    }

    /// Gauge: replaces the value and returns the new value.
    pub fn gauge_set(&mut self, v: Value) -> (r: Value)
        requires
            old(self).kind is Gauge,
        ensures
            final(self)@.value == v@,
            final(self)@.name == old(self)@.name,
            final(self)@.help == old(self)@.help,
            final(self)@.kind == old(self)@.kind,
            final(self).wf(),
            r@ == final(self)@.value,
    {
        self.value = v;
        v
    }

    /// Gauge: adds a delta of either sign and returns the new value.
    pub fn gauge_increment_by(&mut self, d: Value) -> (r: Value)
        requires
            old(self).kind is Gauge,
        ensures
            final(self)@.value == sat64(old(self)@.value + d@),
            final(self)@.name == old(self)@.name,
            final(self)@.help == old(self)@.help,
            final(self)@.kind == old(self)@.kind,
            final(self).wf(),
            r@ == final(self)@.value,
    {
        let v = self.value.add(d);
        self.value = v;
        v
    }

    /// Gauge: subtracts a delta of either sign and returns the new value.
    pub fn gauge_decrement_by(&mut self, d: Value) -> (r: Value)
        requires
            old(self).kind is Gauge,
        ensures
            final(self)@.value == sat64(old(self)@.value - d@),
            final(self)@.name == old(self)@.name,
            final(self)@.help == old(self)@.help,
            final(self)@.kind == old(self)@.kind,
            final(self).wf(),
            r@ == final(self)@.value,
    {
        let v = self.value.sub(d);
        self.value = v;
        v
    }
}

} // verus!
