//! The classifier: from a window to a verdict.
//!
//! A window of readings is reduced to its average and to the scatter of the
//! readings around that average. The average decides between present and lost.

use vstd::prelude::*;
use vstd::arithmetic::div_mod::{
    lemma_div_is_ordered,
    lemma_div_multiples_vanish,
    lemma_fundamental_div_mod,
    lemma_fundamental_div_mod_converse,
};
use crate::dto::detection::{DetectionEvent, Stability};
use crate::errors::AppError;

verus! {

/// A reading of a narrow integer type.
///
/// Every reading stands for an integer between `lowest()` and `highest()`,
/// and every integer in that range for exactly one reading.
pub trait Sample: Copy {
    /// The reading as an integer.
    spec fn value(self) -> int;

    /// The reading that stands for `v`.
    spec fn from_value(v: int) -> Self;

    /// The least reading of the type.
    spec fn lowest() -> int;

    /// The greatest reading of the type.
    spec fn highest() -> int;

    /// The type is narrow: its readings fit in sixteen bits.
    proof fn lemma_domain()
        ensures
            -32768 <= Self::lowest() <= Self::highest() <= 32767,
            forall|v: int|
                Self::lowest() <= v <= Self::highest() ==> #[trigger] Self::from_value(v).value()
                    == v,
    ;

    /// A reading lies in the type's range and is found again from its integer.
    proof fn lemma_value(self)
        ensures
            Self::lowest() <= self.value() <= Self::highest(),
            Self::from_value(self.value()) == self,
    ;

    fn to_i32(self) -> (v: i32)
        ensures
            v == self.value(),
    ;

    fn from_i32(v: i32) -> (reading: Self)
        requires
            Self::lowest() <= v <= Self::highest(),
        ensures
            reading == Self::from_value(v as int),
    ;
}

impl Sample for i16 {
    open spec fn value(self) -> int {
        self as int
    }

    open spec fn from_value(v: int) -> Self {
        v as i16
    }

    open spec fn lowest() -> int {
        -32768
    }

    open spec fn highest() -> int {
        32767
    }

    proof fn lemma_domain() {
    }

    proof fn lemma_value(self) {
    }

    fn to_i32(self) -> (v: i32) {
        self as i32
    }

    fn from_i32(v: i32) -> (reading: Self) {
        v as i16
    }
}

impl Sample for i8 {
    open spec fn value(self) -> int {
        self as int
    }

    open spec fn from_value(v: int) -> Self {
        v as i8
    }

    open spec fn lowest() -> int {
        -128
    }

    open spec fn highest() -> int {
        127
    }

    proof fn lemma_domain() {
    }

    proof fn lemma_value(self) {
    }

    fn to_i32(self) -> (v: i32) {
        self as i32
    }

    fn from_i32(v: i32) -> (reading: Self) {
        v as i8
    }
}

/// The sum of the readings.
pub open spec fn total<T: Sample>(samples: Seq<T>) -> int
    decreases samples.len(),
{
    if samples.len() == 0 {
        0
    } else {
        total(samples.drop_last()) + samples.last().value()
    }
}

/// The average of the readings, rounded down to a reading.
pub open spec fn mean<T: Sample>(samples: Seq<T>) -> int
    recommends
        samples.len() > 0,
{
    total(samples) / (samples.len() as int)
}

/// The sum of the squared distances of the readings from `center`.
pub open spec fn squared_deviation<T: Sample>(samples: Seq<T>, center: int) -> int
    decreases samples.len(),
{
    if samples.len() == 0 {
        0
    } else {
        squared_deviation(samples.drop_last(), center) + (samples.last().value() - center) * (
        samples.last().value() - center)
    }
}

/// The sum of `n` readings lies between `n` times the least and `n` times the
/// greatest reading.
pub proof fn lemma_total_bounds<T: Sample>(samples: Seq<T>)
    ensures
        samples.len() * T::lowest() <= total(samples) <= samples.len() * T::highest(),
    decreases samples.len(),
{
    if samples.len() > 0 {
        lemma_total_bounds(samples.drop_last());
        samples.last().lemma_value();
        let n: int = samples.len() as int;
        assert((n - 1) * T::lowest() + T::lowest() == n * T::lowest()) by (nonlinear_arith);
        assert((n - 1) * T::highest() + T::highest() == n * T::highest()) by (nonlinear_arith);
    }
}

/// The average of a window is itself a reading of the type.
pub proof fn lemma_mean_in_domain<T: Sample>(samples: Seq<T>)
    requires
        samples.len() > 0,
    ensures
        T::lowest() <= mean(samples) <= T::highest(),
{
    let n: int = samples.len() as int;
    lemma_total_bounds(samples);
    lemma_div_is_ordered(n * T::lowest(), total(samples), n);
    lemma_div_is_ordered(total(samples), n * T::highest(), n);
    lemma_div_multiples_vanish(T::lowest(), n);
    lemma_div_multiples_vanish(T::highest(), n);
}

/// Rounding the average down does not change on which side of a whole
/// threshold it lies: the rounded average reaches `threshold` exactly when the
/// exact average does.
pub proof fn lemma_mean_reaches_threshold<T: Sample>(samples: Seq<T>, threshold: int)
    requires
        samples.len() > 0,
    ensures
        mean(samples) >= threshold <==> total(samples) >= threshold * samples.len(),
{
    let n: int = samples.len() as int;
    let sum: int = total(samples);
    lemma_fundamental_div_mod(sum, n);
    let q: int = sum / n;
    let r: int = sum % n;
    if q >= threshold {
        assert(n * q >= n * threshold) by (nonlinear_arith)
            requires
                q >= threshold,
                n > 0,
        ;
        assert(threshold * n == n * threshold) by (nonlinear_arith);
    } else {
        assert(n * q <= n * (threshold - 1)) by (nonlinear_arith)
            requires
                q <= threshold - 1,
                n > 0,
        ;
        assert(n * (threshold - 1) == threshold * n - n) by (nonlinear_arith);
    }
}

/// The scatter of a window is never negative, and with readings of sixteen
/// bits it grows by at most 2^32 with each reading.
pub proof fn lemma_squared_deviation_bounds<T: Sample>(samples: Seq<T>, center: int)
    requires
        T::lowest() <= center <= T::highest(),
    ensures
        0 <= squared_deviation(samples, center) <= samples.len() * 0x1_0000_0000,
    decreases samples.len(),
{
    if samples.len() > 0 {
        lemma_squared_deviation_bounds(samples.drop_last(), center);
        samples.last().lemma_value();
        T::lemma_domain();
        let d: int = samples.last().value() - center;
        assert(0 <= d * d <= 0x1_0000_0000) by (nonlinear_arith)
            requires
                -65536 <= d <= 65536,
        ;
    }
}

/// The largest whole number not above `sum / count`.
fn floor_div(sum: i128, count: i128) -> (quotient: i128)
    requires
        count > 0,
        -0x1_0000_0000_0000_0000_0000 <= sum <= 0x1_0000_0000_0000_0000_0000,
        count <= 0x1_0000_0000_0000_0000,
    ensures
        quotient == sum / count,
{
    if sum >= 0 {
        sum / count
    } else {
        let lifted: i128 = (-sum) + (count - 1);
        let up: i128 = lifted / count;
        proof {
            lemma_fundamental_div_mod(lifted as int, count as int);
            let r: int = (lifted as int) % (count as int);
            assert(sum == count * (-up) + (count - 1 - r)) by (nonlinear_arith)
                requires
                    lifted == count * up + r,
                    lifted == -sum + count - 1,
            ;
            lemma_fundamental_div_mod_converse(
                sum as int,
                count as int,
                -(up as int),
                count - 1 - r,
            );
        }
        -up
    }
}

/// The scatter of `samples` around `center`, as a classifier reports it.
pub open spec fn stability_of<T: Sample>(samples: Seq<T>, center: int) -> Stability {
    Stability {
        squared_deviation: squared_deviation(samples, center) as u128,
        samples: samples.len() as usize,
    }
}

/// What a classifier with the given threshold and shortest window says of a
/// window.
///
/// A window that is empty or shorter than `stability_window` gets no verdict.
/// Otherwise the device is present when the average reaches the threshold,
/// and lost when it stays below.
pub open spec fn classify<T: Sample>(
    threshold: int,
    stability_window: nat,
    samples: Seq<T>,
) -> Option<DetectionEvent<T>> {
    if samples.len() == 0 || samples.len() < stability_window {
        None
    } else if mean(samples) < threshold {
        Some(DetectionEvent::DeviceLost)
    } else {
        Some(
            DetectionEvent::DevicePresent {
                avg_value: T::from_value(mean(samples)),
                stability: stability_of(samples, mean(samples)),
            },
        )
    }
}

/// Decides, for each window, whether the device is present.
pub struct Processor<T> {
    threshold: T,
    stability_window: usize,
}

impl<T: Sample> Processor<T> {
    /// The average at or above which a window counts as present.
    pub closed spec fn threshold(&self) -> T {
        self.threshold
    }

    /// The shortest window a verdict is given on.
    pub closed spec fn stability_window(&self) -> nat {
        self.stability_window as nat
    }

    /// What this classifier says of a window.
    pub open spec fn verdict(&self, samples: Seq<T>) -> Option<DetectionEvent<T>> {
        classify(self.threshold().value(), self.stability_window(), samples)
    }

    /// The threshold is an inclusive lower bound: a window whose average equals
    /// it is present, a window whose average is one below it is lost.
    pub proof fn lemma_threshold_is_inclusive(&self, samples: Seq<T>)
        requires
            samples.len() > 0,
            samples.len() >= self.stability_window(),
        ensures
            mean(samples) == self.threshold().value() ==> self.verdict(samples) matches Some(
                DetectionEvent::DevicePresent { .. },
            ),
            mean(samples) == self.threshold().value() - 1 ==> self.verdict(samples) == Some(
                DetectionEvent::<T>::DeviceLost,
            ),
            self.verdict(samples) matches Some(DetectionEvent::DevicePresent { .. })
                <==> total(samples) >= self.threshold().value() * samples.len(),
    {
        lemma_mean_reaches_threshold(samples, self.threshold().value());
    }

    /// A classifier with the given threshold and shortest window.
    pub fn new(threshold: T, stability_window: usize) -> (processor: Self)
        ensures
            processor.threshold() == threshold,
            processor.stability_window() == stability_window,
    {
        Processor { threshold, stability_window }
    }

    /// Classifies one window.
    pub fn process_samples(&self, samples: &[T]) -> (event: Option<DetectionEvent<T>>)
        ensures
            event == self.verdict(samples@),
    {
        if samples.len() == 0 || samples.len() < self.stability_window {
            return None;
        }
        let avg = self.calculate_avg(samples);
        let stability = self.calculate_stability(samples, avg);
        proof {
            lemma_mean_in_domain(samples@);
            T::lemma_domain();
            self.threshold.lemma_value();
        }
        if avg.to_i32() < self.threshold.to_i32() {
            Some(DetectionEvent::DeviceLost)
        } else {
            Some(DetectionEvent::DevicePresent { avg_value: avg, stability })
        }
    }

    /// What classifying a window reports once its event has been offered to
    /// the event channel: an event that could not be published is an error that
    /// carries the channel's reason.
    pub fn publish_result(offered: Result<(), String>) -> (outcome: Result<(), AppError>)
        ensures
            offered is Ok <==> outcome is Ok,
            offered matches Err(reason) ==> outcome == Err::<(), AppError>(
                AppError::ProcessingError { r: reason },
            ),
    {
        match offered {
            Ok(()) => Ok(()),
            Err(reason) => Err(AppError::ProcessingError { r: reason }),
        }
    }

    /// The average of a window, rounded down.
    fn calculate_avg(&self, samples: &[T]) -> (avg: T)
        requires
            samples@.len() > 0,
        ensures
            avg == T::from_value(mean(samples@)),
    {
        let mut sum: i128 = 0;
        let mut i: usize = 0;
        proof {
            T::lemma_domain();
        }
        while i < samples.len()
            invariant
                i <= samples@.len(),
                sum == total(samples@.subrange(0, i as int)),
                -32768 <= T::lowest() <= T::highest() <= 32767,
            decreases samples@.len() - i,
        {
            proof {
                lemma_total_bounds(samples@.subrange(0, i as int));
                samples@[i as int].lemma_value();
                assert(samples@.subrange(0, i + 1).drop_last() =~= samples@.subrange(0, i as int));
                assert(i * T::lowest() >= i * (-32768)) by (nonlinear_arith)
                    requires
                        T::lowest() >= -32768,
                        i >= 0,
                ;
                assert(i * T::highest() <= i * 32767) by (nonlinear_arith)
                    requires
                        T::highest() <= 32767,
                        i >= 0,
                ;
            }
            sum = sum + samples[i].to_i32() as i128;
            i = i + 1;
        }
        proof {
            assert(samples@.subrange(0, i as int) =~= samples@);
            lemma_total_bounds(samples@);
            lemma_mean_in_domain(samples@);
            let n: int = samples@.len() as int;
            assert(n * T::lowest() >= n * (-32768)) by (nonlinear_arith)
                requires
                    T::lowest() >= -32768,
                    n >= 0,
            ;
            assert(n * T::highest() <= n * 32767) by (nonlinear_arith)
                requires
                    T::highest() <= 32767,
                    n >= 0,
            ;
        }
        let avg: i128 = floor_div(sum, samples.len() as i128);
        T::from_i32(avg as i32)
    }

    /// The scatter of a window around `avg`.
    fn calculate_stability(&self, samples: &[T], avg: T) -> (stability: Stability)
        ensures
            stability == stability_of(samples@, avg.value()),
    {
        let center: i64 = avg.to_i32() as i64;
        let mut acc: u128 = 0;
        let mut i: usize = 0;
        proof {
            T::lemma_domain();
            avg.lemma_value();
        }
        while i < samples.len()
            invariant
                i <= samples@.len(),
                acc == squared_deviation(samples@.subrange(0, i as int), center as int),
                center == avg.value(),
                T::lowest() <= center <= T::highest(),
                -32768 <= T::lowest() <= T::highest() <= 32767,
            decreases samples@.len() - i,
        {
            proof {
                lemma_squared_deviation_bounds(samples@.subrange(0, i as int), center as int);
                lemma_squared_deviation_bounds(samples@.subrange(0, i + 1), center as int);
                samples@[i as int].lemma_value();
                assert(samples@.subrange(0, i + 1).drop_last() =~= samples@.subrange(0, i as int));
            }
            let d: i64 = samples[i].to_i32() as i64 - center;
            assert(0 <= d * d <= 0x1_0000_0000) by (nonlinear_arith)
                requires
                    -65536 <= d <= 65536,
            ;
            acc = acc + (d * d) as u128;
            i = i + 1;
        }
        proof {
            assert(samples@.subrange(0, i as int) =~= samples@);
        }
        Stability { squared_deviation: acc, samples: samples.len() }
    }
}

} // verus!
