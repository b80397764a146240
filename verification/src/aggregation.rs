//! How the measurements of one property are gathered into one value: the
//! measurements of the best quality grade seen count, the others do not.
//!
//! The library keeps the measurements that count and leaves the arithmetic
//! on them to its callers, so it is generic in the type `V` of a measurement.

use crate::errors::WeatherError;
use crate::weather::{QualityControl, QuantitativeProperty, Timestamp};
use vstd::prelude::*;

verus! {

/// One measurement of a property as the provider reports it.
#[derive(Debug, Clone, PartialEq, Eq)]
pub struct PropertyDetail<V> {
    pub value: V,
    pub unit_code: String,
    pub quality_control: QualityControl,
}

/// The measurements of one property that count so far: those of the best
/// quality grade seen, in the order in which they came.
#[derive(Debug, Clone, PartialEq, Eq)]
pub struct QuantitativeAggregation<V> {
    samples: Vec<V>,
    unit_code: String,
    quality_control: QualityControl,
}

/// The measurements that count after one of value `value` and grade
/// `quality` has come: a better grade than the one held starts afresh with
/// that measurement, a worse one is passed over, an equal one joins those
/// held.
pub open spec fn combined<V>(
    held: (Seq<V>, QualityControl),
    value: V,
    quality: QualityControl,
) -> (Seq<V>, QualityControl) {
    if quality.rank() > held.1.rank() {
        (seq![value], quality)
    } else if quality.rank() < held.1.rank() {
        held
    } else {
        (held.0.push(value), held.1)
    }
}

impl<V> QuantitativeAggregation<V> {
    /// The measurements that count, in the order in which they came.
    pub closed spec fn samples(&self) -> Seq<V> {
        self.samples@
    }

    /// The grade of the measurements that count.
    pub closed spec fn quality(&self) -> QualityControl {
        self.quality_control
    }

    /// The unit of the first measurement.
    pub closed spec fn unit(&self) -> Seq<char> {
        self.unit_code@
    }

    /// The aggregation of the one measurement `detail`.
    pub fn new(detail: PropertyDetail<V>) -> (res: Self)
        ensures
            res.samples() == seq![detail.value],
            res.quality() == detail.quality_control,
            res.unit() == detail.unit_code@,
    {
        let mut samples: Vec<V> = Vec::new();
        samples.push(detail.value);
        QuantitativeAggregation {
            samples,
            unit_code: detail.unit_code,
            quality_control: detail.quality_control,
        }
    }

    /// Takes the measurement `detail` in as `combined` says. The unit stays
    /// that of the first measurement.
    pub fn add_detail(&mut self, detail: PropertyDetail<V>)
        ensures
            (final(self).samples(), final(self).quality()) == combined(
                (old(self).samples(), old(self).quality()),
                detail.value,
                detail.quality_control,
            ),
            final(self).unit() == old(self).unit(),
    {
        let held = self.quality_control.level();
        let brought = detail.quality_control.level();
        if brought > held {
            let mut samples: Vec<V> = Vec::new();
            samples.push(detail.value);
            self.samples = samples;
            self.quality_control = detail.quality_control;
        } else if brought == held {
            self.samples.push(detail.value);
        }
    }

    /// How many measurements count.
    pub fn count(&self) -> (res: usize)
        ensures
            res == self.samples().len(),
    {
        self.samples.len()
    }

    /// The measurements that count, for the caller's arithmetic.
    pub fn values(&self) -> (res: &Vec<V>)
        ensures
            res@ == self.samples(),
    {
        &self.samples
    }

    /// The grade of the measurements that count.
    pub fn quality_control(&self) -> (res: QualityControl)
        ensures
            res == self.quality(),
    {
        self.quality_control
    }

    /// The unit of the first measurement.
    pub fn unit_code(&self) -> (res: &String)
        ensures
            res@ == self.unit(),
    {
        &self.unit_code
    }

    /// The number to divide the sum of the measurements by for their
    /// average: their count where it is at most 65535, else none, and the
    /// caller divides by the largest number it has.
    pub fn divisor(&self) -> (res: Option<u16>)
        ensures
            res == if self.samples().len() <= u16::MAX {
                Some(self.samples().len() as u16)
            } else {
                None
            },
    {
        let count = self.samples.len();
        if count <= 65535 {
            Some(count as u16)
        } else {
            None
        }
    }
}

/// The aggregations of an observation's properties, and when the observation
/// was read.
#[derive(Debug, Clone, PartialEq, Eq)]
pub struct PropertyAggregations<V> {
    pub timestamp: Timestamp,
    pub temperature: Option<QuantitativeAggregation<V>>,
}

impl<V> PropertyAggregations<V> {
    /// No measurements yet, read at `timestamp`.
    pub fn new(timestamp: Timestamp) -> (res: Self)
        ensures
            res.timestamp == timestamp,
            res.temperature is None,
    {
        PropertyAggregations { timestamp, temperature: None }
    }

    /// The aggregation of `property`, if anything was measured of it.
    pub fn property(&self, property: &QuantitativeProperty) -> (res: Option<
        &QuantitativeAggregation<V>,
    >)
        ensures
            match res {
                Some(aggregation) => self.temperature == Some(*aggregation),
                None => self.temperature is None,
            },
    {
        match property {
            QuantitativeProperty::Temperature => match &self.temperature {
                Some(aggregation) => Some(aggregation),
                None => None,
            },
        }
    }

    /// Takes one reading of `property` in: a measurement joins the property's
    /// aggregation or starts it; a reading that could not be read is passed
    /// over.
    pub fn fold_reading(
        self,
        property: QuantitativeProperty,
        reading: Result<PropertyDetail<V>, WeatherError>,
    ) -> (res: Self)
        ensures
            res.timestamp == self.timestamp,
            match reading {
                Err(_) => res.temperature == self.temperature,
                Ok(detail) => match self.temperature {
                    None => res.temperature matches Some(started) && {
                        &&& started.samples() == seq![detail.value]
                        &&& started.quality() == detail.quality_control
                        &&& started.unit() == detail.unit_code@
                    },
                    Some(held) => res.temperature matches Some(now) && {
                        &&& (now.samples(), now.quality()) == combined(
                            (held.samples(), held.quality()),
                            detail.value,
                            detail.quality_control,
                        )
                        &&& now.unit() == held.unit()
                    },
                },
            },
    {
        match reading {
            Err(_) => self,
            Ok(detail) => match property {
                QuantitativeProperty::Temperature => {
                    let timestamp = self.timestamp;
                    match self.temperature {
                        None => PropertyAggregations {
                            timestamp,
                            temperature: Some(QuantitativeAggregation::new(detail)),
                        },
                        Some(held) => {
                            let mut now = held;
                            now.add_detail(detail);
                            PropertyAggregations { timestamp, temperature: Some(now) }
                        },
                    }
                },
            },
        }
    }
}

/// The measurements that count after those of `details` have come one by
/// one, each given as its value and its grade.
pub open spec fn aggregated<V>(details: Seq<(V, QualityControl)>) -> (Seq<V>, QualityControl)
    recommends
        details.len() > 0,
    decreases details.len(),
{
    if details.len() <= 1 {
        (seq![details[0].0], details[0].1)
    } else {
        combined(aggregated(details.drop_last()), details.last().0, details.last().1)
    }
}

/// The best rank among the grades of `details`.
pub open spec fn best_rank<V>(details: Seq<(V, QualityControl)>) -> nat
    decreases details.len(),
{
    if details.len() == 0 {
        0
    } else {
        let before = best_rank(details.drop_last());
        if details.last().1.rank() > before {
            details.last().1.rank()
        } else {
            before
        }
    }
}

/// The values among `details` whose grade has the rank `rank`, in order.
pub open spec fn of_rank<V>(details: Seq<(V, QualityControl)>, rank: nat) -> Seq<V>
    decreases details.len(),
{
    if details.len() == 0 {
        Seq::empty()
    } else {
        let before = of_rank(details.drop_last(), rank);
        if details.last().1.rank() == rank {
            before.push(details.last().0)
        } else {
            before
        }
    }
}

proof fn lemma_none_above_best<V>(details: Seq<(V, QualityControl)>, rank: nat)
    requires
        rank > best_rank(details),
    ensures
        of_rank(details, rank) == Seq::<V>::empty(),
    decreases details.len(),
{
    if details.len() > 0 {
        lemma_none_above_best(details.drop_last(), rank);
    }
}

/// Aggregation prefers the better grade: however the measurements come, those
/// that count in the end are exactly the ones of the best grade among them,
/// in the order in which they came, and the grade held is that best grade. A
/// measurement of a better grade resets what is held, one of a worse grade
/// changes nothing, and the grade held never gets worse.
pub proof fn law_best_grade_counts<V>(details: Seq<(V, QualityControl)>)
    requires
        details.len() > 0,
    ensures
        aggregated(details).1.rank() == best_rank(details),
        aggregated(details).0 == of_rank(details, best_rank(details)),
        details.len() > 1 ==> aggregated(details).1.rank() >= aggregated(
            details.drop_last(),
        ).1.rank(),
    decreases details.len(),
{
    if details.len() == 1 {
        assert(best_rank(details.drop_last()) == 0);
        assert(of_rank(details.drop_last(), details[0].1.rank()) =~= Seq::<V>::empty());
    } else {
        let rest = details.drop_last();
        law_best_grade_counts(rest);
        let last = details.last();
        if last.1.rank() > best_rank(rest) {
            lemma_none_above_best(rest, last.1.rank());
        }
    }
}

} // verus!
