use vstd::prelude::*;
use crate::attributes::{Key, KeyValue};

verus! {

/// The unit of a metric instrument.
#[derive(Clone, Debug)]
pub struct Unit(String);

impl View for Unit {
    type V = Seq<char>;

    closed spec fn view(&self) -> Seq<char> {
        self.0@
    }
}

impl Unit {
    pub fn new(value: &str) -> (r: Unit)
        ensures
            r@ == value@,
    {
        Unit(String::from_str(value))
    }
}

/// The raw 64 bits of a measurement.
#[derive(Clone, Copy, Debug, PartialEq, Eq, Structural)]
pub struct MeasurementValue(pub u64);

impl MeasurementValue {
    pub fn new(value: u64) -> (r: Self)
        ensures
            r.0 == value,
    {
        MeasurementValue(value)
    }
}

/// One measurement, for batch recording.
#[derive(Clone, Copy, Debug)]
pub struct Measurement {
    pub value: MeasurementValue,
}

/// Options for a metric instrument of any kind.
#[derive(Debug)]
pub struct Options {
    pub description: String,
    pub unit: Unit,
    pub keys: Vec<Key>,
    /// For a counter: up-down; for a gauge: non-descending; for a measure:
    /// signed values allowed.
    pub alternate: bool,
}

impl Options {
    pub fn new() -> (r: Options)
        ensures
            r.description@.len() == 0,
            r.unit@.len() == 0,
            r.keys@.len() == 0,
            !r.alternate,
    {
        Options {
            description: String::new(),
            unit: Unit(String::new()),
            keys: Vec::new(),
            alternate: false,
        }
    }

    pub fn with_description(self, description: &str) -> (r: Self)
        ensures
            r.description@ == description@,
            r.unit == self.unit,
            r.keys == self.keys,
            r.alternate == self.alternate,
    {
        Options { description: String::from_str(description), ..self }
    }

    pub fn with_unit(self, unit: Unit) -> (r: Self)
        ensures
            r.description == self.description,
            r.unit == unit,
            r.keys == self.keys,
            r.alternate == self.alternate,
    {
        Options { unit, ..self }
    }

    pub fn with_keys(self, keys: Vec<Key>) -> (r: Self)
        ensures
            r.description == self.description,
            r.unit == self.unit,
            r.keys == keys,
            r.alternate == self.alternate,
    {
        Options { keys, ..self }
    }

    /// An absolute instrument is one without the alternate property.
    pub fn with_absolute(self, absolute: bool) -> (r: Self)
        ensures
            r.description == self.description,
            r.unit == self.unit,
            r.keys == self.keys,
            r.alternate == !absolute,
    {
        Options { alternate: !absolute, ..self }
    }
}

impl Default for Options {
    fn default() -> (r: Options)
        ensures
            r.description@.len() == 0,
            r.unit@.len() == 0,
            r.keys@.len() == 0,
            !r.alternate,
    {
        Options::new()
    }
}

/// Labels that an instrument's measurements are recorded under.
pub trait LabelSet {}

/// Records metric events with precomputed labels.
pub trait Handle<T> {
    fn record_one(&mut self, value: MeasurementValue);
}

/// Records individual metric events.
pub trait Instrument<T> {
    type Handle: Handle<T>;

    fn acquire_handle<L: LabelSet>(&self, labels: &L) -> Self::Handle;

    fn record_one<L: LabelSet>(&mut self, value: MeasurementValue, labels: L);
}

/// An instrument that sums values.
pub trait Counter<T>: Instrument<T> {
    fn measurement(&self, value: T) -> Measurement;

    fn add<L: LabelSet>(&mut self, value: T, label_set: L);
}

pub trait CounterHandle<T> {
    fn add(&mut self, value: T);
}

/// An instrument that keeps the last value.
pub trait Gauge<T>: Instrument<T> {
    fn measurement(&self, value: T) -> Measurement;

    fn set<L: LabelSet>(&mut self, value: T, label_set: L);
}

pub trait GaugeHandle<T> {
    fn set(&mut self, value: T);
}

/// An instrument that records a distribution of values.
pub trait Measure<T>: Instrument<T> {
    fn measurement(&self, value: T) -> Measurement;

    fn record<L: LabelSet>(&mut self, value: T, label_set: L);
}

pub trait MeasureHandle<T> {
    fn record(&mut self, value: T);
}

/// A meter whose instruments discard everything.
#[derive(Clone, Copy, Debug)]
pub struct NoopMeter {}

#[derive(Clone, Copy, Debug)]
pub struct NoopLabelSet {}

impl LabelSet for NoopLabelSet {}

#[derive(Clone, Copy, Debug)]
pub struct NoopHandle {}

impl Handle<i64> for NoopHandle {
    fn record_one(&mut self, _value: MeasurementValue) {
    }
}

impl CounterHandle<i64> for NoopHandle {
    fn add(&mut self, _value: i64) {
    }
}

impl GaugeHandle<i64> for NoopHandle {
    fn set(&mut self, _value: i64) {
    }
}

impl MeasureHandle<i64> for NoopHandle {
    fn record(&mut self, _value: i64) {
    }
}

#[derive(Clone, Copy, Debug)]
pub struct NoopCounter {}

#[derive(Clone, Copy, Debug)]
pub struct NoopGauge {}

#[derive(Clone, Copy, Debug)]
pub struct NoopMeasure {}

impl NoopMeter {
    pub fn labels(&self, _key_values: Vec<KeyValue>) -> (r: NoopLabelSet) {
        NoopLabelSet {}
    }

    pub fn new_i64_counter(&self, _name: &str, _opts: Options) -> (r: NoopCounter) {
        NoopCounter {}
    }

    pub fn new_i64_gauge(&self, _name: &str, _opts: Options) -> (r: NoopGauge) {
        NoopGauge {}
    }

    pub fn new_i64_measure(&self, _name: &str, _opts: Options) -> (r: NoopMeasure) {
        NoopMeasure {}
    }

    /// Discards a batch of measurements.
    pub fn record_batch(&self, _label_set: NoopLabelSet, _measurements: Vec<Measurement>) {
    }
}

/// The bits of an integer measurement: its two's complement form.
pub open spec fn i64_bits(value: i64) -> u64 {
    value as u64
}

fn measurement_of(value: i64) -> (r: Measurement)
    ensures
        r.value.0 == i64_bits(value),
{
    Measurement { value: MeasurementValue::new(value as u64) }
}

impl Instrument<i64> for NoopCounter {
    type Handle = NoopHandle;

    fn acquire_handle<L: LabelSet>(&self, _labels: &L) -> NoopHandle {
        NoopHandle {}
    }

    fn record_one<L: LabelSet>(&mut self, _value: MeasurementValue, _labels: L) {
    }
}

impl Counter<i64> for NoopCounter {
    fn measurement(&self, value: i64) -> (r: Measurement) {
        measurement_of(value)
    }

    fn add<L: LabelSet>(&mut self, _value: i64, _label_set: L) {
    }
}

impl Instrument<i64> for NoopGauge {
    type Handle = NoopHandle;

    fn acquire_handle<L: LabelSet>(&self, _labels: &L) -> NoopHandle {
        NoopHandle {}
    }

    fn record_one<L: LabelSet>(&mut self, _value: MeasurementValue, _labels: L) {
    }
}

impl Gauge<i64> for NoopGauge {
    fn measurement(&self, value: i64) -> (r: Measurement) {
        measurement_of(value)
    }

    fn set<L: LabelSet>(&mut self, value: i64, label_set: L) {
        self.record_one(MeasurementValue::new(value as u64), label_set)
    }
}

impl Instrument<i64> for NoopMeasure {
    type Handle = NoopHandle;

    fn acquire_handle<L: LabelSet>(&self, _labels: &L) -> NoopHandle {
        NoopHandle {}
    }

    fn record_one<L: LabelSet>(&mut self, _value: MeasurementValue, _labels: L) {
    }
}

impl Measure<i64> for NoopMeasure {
    fn measurement(&self, value: i64) -> (r: Measurement) {
        measurement_of(value)
    }

    fn record<L: LabelSet>(&mut self, value: i64, label_set: L) {
        self.record_one(MeasurementValue::new(value as u64), label_set)
    }
}

/// The process-wide meter: one that discards everything.
pub fn global_meter() -> (r: NoopMeter) {
    NoopMeter {}
}

} // verus!
