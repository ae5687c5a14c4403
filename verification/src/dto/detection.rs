//! Configuration of the pipeline and the events it produces.

use vstd::prelude::*;
use std::time::Duration;
use crate::errors::AppError;

verus! {

/// Parameters of one detector over readings of type `T`.
#[derive(Debug)]
pub struct DetectionConfig<T> {
    /// How many readings make a window.
    pub window_size: usize,
    /// The average at or above which the device counts as present.
    pub threshold: T,
    /// How long a silent device is still believed to be around.
    pub timeout: Duration,
}

impl<T: Copy> Clone for DetectionConfig<T> {
    fn clone(&self) -> (copy: Self)
        ensures
            copy == *self,
    {
        DetectionConfig {
            window_size: self.window_size,
            threshold: self.threshold,
            timeout: self.timeout,
        }
    }
}

/// How steady a window is, held exactly.
///
/// The variance of the window is `squared_deviation / samples`; the score
/// derived from it is `1 / (1 + sqrt(variance))`, which is 1 for a perfectly
/// steady signal and falls towards 0 as the readings scatter.
#[derive(Debug, Clone, Copy, PartialEq, Eq, Structural)]
pub struct Stability {
    /// The sum, over the window, of the squared distance of each reading from the average.
    pub squared_deviation: u128,
    /// The number of readings in the window.
    pub samples: usize,
}

/// Whether `sigma` is the standard deviation that belongs to `variance`: its
/// non-negative square root.
pub open spec fn is_standard_deviation(sigma: real, variance: real) -> bool {
    sigma >= 0real && sigma * sigma == variance
}

/// The stability score of a window whose standard deviation is `sigma`.
pub open spec fn score_of(sigma: real) -> real {
    1real / (1real + sigma)
}

impl Stability {
    /// The variance of the window: the mean squared distance from the average.
    pub open spec fn variance(self) -> real {
        (self.squared_deviation as real) / (self.samples as real)
    }

    /// Whether `score` is the stability score of the window: `1 / (1 + sigma)`
    /// with `sigma` the non-negative square root of the variance.
    pub open spec fn has_score(self, score: real) -> bool {
        exists|sigma: real| #[trigger]
            is_standard_deviation(sigma, self.variance()) && score == score_of(sigma)
    }

    /// The score lies in (0, 1], and it is 1 exactly for a window without scatter.
    pub proof fn lemma_score_range(self, score: real)
        requires
            self.samples > 0,
            self.has_score(score),
        ensures
            0real < score <= 1real,
            score == 1real <==> self.squared_deviation == 0,
    {
        let sigma = choose|sigma: real| #[trigger]
            is_standard_deviation(sigma, self.variance()) && score == score_of(sigma);
        let n = self.samples as real;
        let d = self.squared_deviation as real;
        assert(0real < 1real / (1real + sigma) <= 1real) by (nonlinear_arith)
            requires
                sigma >= 0real,
        ;
        assert((1real / (1real + sigma) == 1real) <==> sigma == 0real) by (nonlinear_arith)
            requires
                sigma >= 0real,
        ;
        assert((sigma == 0real) <==> d == 0real) by (nonlinear_arith)
            requires
                sigma >= 0real,
                sigma * sigma == d / n,
                n > 0real,
                d >= 0real,
        ;
    }

    /// Monotonicity of the score: of two windows, the one with the larger
    /// variance has the strictly smaller score.
    pub proof fn lemma_score_falls_as_variance_grows(
        self,
        other: Stability,
        score: real,
        other_score: real,
    )
        requires
            self.has_score(score),
            other.has_score(other_score),
            self.variance() < other.variance(),
        ensures
            score > other_score,
    {
        let s1 = choose|sigma: real| #[trigger]
            is_standard_deviation(sigma, self.variance()) && score == score_of(sigma);
        let s2 = choose|sigma: real| #[trigger]
            is_standard_deviation(sigma, other.variance()) && other_score == score_of(sigma);
        assert(s1 < s2) by (nonlinear_arith)
            requires
                s1 >= 0real,
                s2 >= 0real,
                s1 * s1 < s2 * s2,
        ;
        assert(1real / (1real + s1) > 1real / (1real + s2)) by (nonlinear_arith)
            requires
                0real <= s1 < s2,
        ;
    }
}

/// What the pipeline tells its subscribers.
#[derive(Debug)]
pub enum DetectionEvent<T> {
    /// The average of the window reached the threshold.
    DevicePresent { avg_value: T, stability: Stability },
    /// The average of the window fell below the threshold.
    DeviceLost,
    /// A window as it was sampled.
    RawSample(Vec<T>),
}

/// What is remembered of a device between readings.
#[derive(Debug)]
pub struct DeviceState<T> {
    pub last_value: T,
    /// When the device was last heard, in milliseconds on the caller's clock.
    pub last_seen: u64,
}

impl<T: Copy> Clone for DeviceState<T> {
    fn clone(&self) -> (copy: Self)
        ensures
            copy == *self,
    {
        DeviceState { last_value: self.last_value, last_seen: self.last_seen }
    }
}

impl<T: Copy> Copy for DeviceState<T> {

}

/// The settings an orchestrator is built with. They do not change afterwards.
#[derive(Debug, Clone, Copy)]
pub struct AlgoConfig {
    pub window_size: usize,
    pub threshold: i16,
    /// The shortest window the classifier gives a verdict on.
    pub stability_window: usize,
    /// Reserved: how long a silent device is kept.
    pub timeout_secs: u64,
    /// Reserved: how many windows go to the model at once.
    pub batch_size: usize,
    /// The shortest time between two accepted readings, in milliseconds.
    pub debounce_ms: u64,
}

impl AlgoConfig {
    /// A configuration a pipeline can be built from: the window has room for
    /// a reading and the classifier asks for no more than a window holds.
    pub open spec fn is_valid(&self) -> bool {
        self.window_size > 0 && self.stability_window <= self.window_size
    }

    /// Checks the configuration before anything is built from it.
    pub fn validate(&self) -> (checked: Result<(), AppError>)
        ensures
            self.is_valid() <==> checked is Ok,
            checked matches Err(e) ==> e == AppError::ConfigError,
    {
        if self.window_size > 0 && self.stability_window <= self.window_size {
            Ok(())
        } else {
            Err(AppError::ConfigError)
        }
    }
}

impl Default for AlgoConfig {
    /// Windows of ten readings, present from -70 upwards, a verdict from five
    /// readings on, at most one reading every ten milliseconds.
    fn default() -> (config: Self)
        ensures
            config.window_size == 10,
            config.threshold == -70,
            config.stability_window == 5,
            config.timeout_secs == 15,
            config.batch_size == 50,
            config.debounce_ms == 10,
            config.is_valid(),
    {
        AlgoConfig {
            window_size: 10,
            threshold: -70,
            stability_window: 5,
            timeout_secs: 15,
            batch_size: 50,
            debounce_ms: 10,
        }
    }
}

} // verus!
