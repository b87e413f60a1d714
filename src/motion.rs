//! Motion classification: turns six-axis samples into a debounced,
//! hysteretic [`MotionState`].
//!
//! Samples are integers: acceleration in milli-g, angular rate in
//! milli-degrees per second. Magnitudes are floor square roots of the sums
//! of squares; the tilt test compares squares against a table of cos².

use vstd::prelude::*;

verus! {

/// Floor square root: `r * r <= n < (r + 1) * (r + 1)`.
pub open spec fn is_floor_sqrt(r: int, n: int) -> bool {
    0 <= r && r * r <= n && n < (r + 1) * (r + 1)
}

/// The floor square root of a non-negative `n`.
pub open spec fn floor_sqrt(n: int) -> int {
    choose|r: int| is_floor_sqrt(r, n)
}

proof fn lemma_floor_sqrt_unique(r1: int, r2: int, n: int)
    requires
        is_floor_sqrt(r1, n),
        is_floor_sqrt(r2, n),
    ensures
        r1 == r2,
{
    if r1 < r2 {
        assert((r1 + 1) * (r1 + 1) <= r2 * r2) by (nonlinear_arith)
            requires
                0 <= r1,
                r1 + 1 <= r2,
        ;
    } else if r2 < r1 {
        assert((r2 + 1) * (r2 + 1) <= r1 * r1) by (nonlinear_arith)
            requires
                0 <= r2,
                r2 + 1 <= r1,
        ;
    }
}

/// The floor square root of `n`, by bisection.
pub fn isqrt(n: u64) -> (r: u64)
    ensures
        is_floor_sqrt(r as int, n as int),
        r as int == floor_sqrt(n as int),
{
    let mut lo: u64 = 0;
    let mut hi: u64 = 0x1_0000_0000;
    assert(hi * hi > n) by (nonlinear_arith)
        requires
            hi == 0x1_0000_0000u64,
            n <= u64::MAX,
    ;
    while hi - lo > 1
        invariant
            lo < hi <= 0x1_0000_0000,
            lo * lo <= n,
            n < hi * hi,
        decreases hi - lo,
    {
        let mid: u64 = lo + (hi - lo) / 2;
        assert(mid * mid <= 0xFFFF_FFFE_0000_0001) by (nonlinear_arith)
            requires
                mid < 0x1_0000_0000,
        ;
        if mid * mid <= n {
            lo = mid;
        } else {
            hi = mid;
        }
    }
    assert(hi == lo + 1);
    proof {
        assert(is_floor_sqrt(lo as int, n as int));
        lemma_floor_sqrt_unique(lo as int, floor_sqrt(n as int), n as int);
    }
    lo
}


/// cos²(d°) in millionths, rounded, for d = 0..=90.
pub const COS_SQ_PPM: [u32; 91] = [
    1000000, 999695, 998782, 997261, 995134, 992404, 989074, 985148,
    980631, 975528, 969846, 963592, 956773, 949397, 941474, 933013,
    924024, 914519, 904508, 894005, 883022, 871572, 859670, 847329,
    834565, 821394, 807831, 793893, 779596, 764960, 750000, 734736,
    719186, 703368, 687303, 671010, 654508, 637819, 620961, 603956,
    586824, 569587, 552264, 534878, 517450, 500000, 482550, 465122,
    447736, 430413, 413176, 396044, 379039, 362181, 345492, 328990,
    312697, 296632, 280814, 265264, 250000, 235040, 220404, 206107,
    192169, 178606, 165435, 152671, 140330, 128428, 116978, 105995,
    95492, 85481, 75976, 66987, 58526, 50603, 43227, 36408,
    30154, 24472, 19369, 14852, 10926, 7596, 4866, 2739,
    1218, 305, 0,
];

/// cos²(`deg` degrees) in millionths; 0 beyond 90.
pub open spec fn cos_sq_ppm(deg: u32) -> u32 {
    if deg <= 90 {
        COS_SQ_PPM@[deg as int]
    } else {
        0
    }
}

/// Table lookup for [`cos_sq_ppm`].
fn cos_sq_ppm_of(deg: u32) -> (r: u32)
    ensures
        r == cos_sq_ppm(deg),
{
    if deg <= 90 {
        COS_SQ_PPM[deg as usize]
    } else {
        0
    }
}

/// Smallest acceleration magnitude (milli-g) for which a tilt angle is defined.
pub const MIN_VALID_ACCEL: u32 = 10;

/// Largest tilt angle, in degrees.
pub const MAX_TILT_ANGLE: u32 = 90;

/// The classifier's belief about how the device is moving.
#[derive(Clone, Copy, Debug, PartialEq, Eq, Structural)]
pub enum MotionState {
    Still,
    Shaking,
    Tilting,
}

/// One six-axis reading: acceleration in milli-g, angular rate in
/// milli-degrees per second, temperature in hundredths of a degree Celsius,
/// and a monotonic timestamp in microseconds.
#[derive(Clone, Copy, Debug, PartialEq, Eq, Structural)]
pub struct SensorData {
    pub accel_x: i32,
    pub accel_y: i32,
    pub accel_z: i32,
    pub gyro_x: i32,
    pub gyro_y: i32,
    pub gyro_z: i32,
    pub temperature: i32,
    pub timestamp: u64,
}

/// Squared length of the acceleration vector.
pub open spec fn accel_sq(d: SensorData) -> int {
    d.accel_x * d.accel_x + d.accel_y * d.accel_y + d.accel_z * d.accel_z
}

/// Squared length of the angular-rate vector.
pub open spec fn gyro_sq(d: SensorData) -> int {
    d.gyro_x * d.gyro_x + d.gyro_y * d.gyro_y + d.gyro_z * d.gyro_z
}

/// Acceleration magnitude in milli-g, rounded down.
pub open spec fn accel_magnitude(d: SensorData) -> int {
    floor_sqrt(accel_sq(d))
}

/// Angular-rate magnitude in milli-degrees per second, rounded down.
pub open spec fn gyro_magnitude(d: SensorData) -> int {
    floor_sqrt(gyro_sq(d))
}

/// The angle between the acceleration vector and the vertical axis exceeds
/// `tilt_threshold` degrees: `|az| / |a| < cos(threshold)`, compared in
/// squares. Below the validity floor no angle is defined and nothing tilts.
pub open spec fn is_tilted(d: SensorData, tilt_threshold: u32) -> bool {
    &&& accel_sq(d) > MIN_VALID_ACCEL * MIN_VALID_ACCEL
    &&& d.accel_z * d.accel_z * 1_000_000 < cos_sq_ppm(tilt_threshold) * accel_sq(d)
}

/// Classifier parameters: the acceleration-delta threshold (milli-g), the
/// angular-rate threshold (milli-degrees per second), the tilt threshold
/// (degrees), the number of consecutive qualifying samples that confirm
/// shaking, and the number of consecutive calm samples that re-arm it.
#[derive(Clone, Copy, Debug, PartialEq, Eq, Structural)]
pub struct MotionConfig {
    pub accel_threshold: u32,
    pub gyro_threshold: u32,
    pub tilt_threshold: u32,
    pub shake_count_threshold: u32,
    pub stable_count_threshold: u32,
}

/// Why a [`MotionConfig`] was refused.
#[derive(Clone, Copy, Debug, PartialEq, Eq, Structural)]
pub enum ConfigError {
    /// The acceleration threshold is zero.
    AccelThreshold,
    /// The angular-rate threshold is zero.
    GyroThreshold,
    /// The tilt threshold is zero or above 90 degrees.
    TiltThreshold,
    /// The shake confirmation count is zero.
    ShakeCount,
    /// The stability count is zero.
    StableCount,
}

impl ConfigError {
    /// A human-readable description.
    pub fn message(&self) -> &'static str {
        match self {
            ConfigError::AccelThreshold => "acceleration threshold must be positive",
            ConfigError::GyroThreshold => "angular-rate threshold must be positive",
            ConfigError::TiltThreshold => "tilt threshold must lie in 1..=90 degrees",
            ConfigError::ShakeCount => "shake confirmation count must be positive",
            ConfigError::StableCount => "stability count must be positive",
        }
    }
}

/// The first check that `c` fails, in the order the checks are made.
pub open spec fn config_error(c: MotionConfig) -> Option<ConfigError> {
    if c.accel_threshold == 0 {
        Some(ConfigError::AccelThreshold)
    } else if c.gyro_threshold == 0 {
        Some(ConfigError::GyroThreshold)
    } else if c.tilt_threshold == 0 || c.tilt_threshold > MAX_TILT_ANGLE {
        Some(ConfigError::TiltThreshold)
    } else if c.shake_count_threshold == 0 {
        Some(ConfigError::ShakeCount)
    } else if c.stable_count_threshold == 0 {
        Some(ConfigError::StableCount)
    } else {
        None
    }
}

impl MotionConfig {
    /// Consecutive qualifying samples that confirm shaking.
    pub const SHAKE_COUNT_THRESHOLD: u32 = 12;
    /// Consecutive calm samples that reset the shake count.
    pub const STABLE_COUNT_THRESHOLD: u32 = 10;
    /// Default acceleration-delta threshold, milli-g.
    pub const DEFAULT_ACCEL_THRESHOLD: u32 = 800;
    /// Default angular-rate threshold, milli-degrees per second.
    pub const DEFAULT_GYRO_THRESHOLD: u32 = 120_000;
    /// Default tilt threshold, degrees.
    pub const DEFAULT_TILT_THRESHOLD: u32 = 45;

    pub open spec fn is_valid(self) -> bool {
        config_error(self) is None
    }

    /// Checks a configuration; an invalid one is refused, never clamped.
    pub fn validate(&self) -> (r: Result<(), ConfigError>)
        ensures
            r is Ok <==> self.is_valid(),
            r matches Err(e) ==> config_error(*self) == Some(e),
    {
        if self.accel_threshold == 0 {
            Err(ConfigError::AccelThreshold)
        } else if self.gyro_threshold == 0 {
            Err(ConfigError::GyroThreshold)
        } else if self.tilt_threshold == 0 || self.tilt_threshold > MAX_TILT_ANGLE {
            Err(ConfigError::TiltThreshold)
        } else if self.shake_count_threshold == 0 {
            Err(ConfigError::ShakeCount)
        } else if self.stable_count_threshold == 0 {
            Err(ConfigError::StableCount)
        } else {
            Ok(())
        }
    }
}

/// The default configuration: 800 mg, 120 °/s, 45°, 12 to confirm, 10 to re-arm.
pub open spec fn default_motion_config() -> MotionConfig {
    MotionConfig {
        accel_threshold: 800,
        gyro_threshold: 120_000,
        tilt_threshold: 45,
        shake_count_threshold: 12,
        stable_count_threshold: 10,
    }
}

impl Default for MotionConfig {
    fn default() -> (r: MotionConfig)
        ensures
            r == default_motion_config(),
            r.is_valid(),
    {
        MotionConfig {
            accel_threshold: MotionConfig::DEFAULT_ACCEL_THRESHOLD,
            gyro_threshold: MotionConfig::DEFAULT_GYRO_THRESHOLD,
            tilt_threshold: MotionConfig::DEFAULT_TILT_THRESHOLD,
            shake_count_threshold: MotionConfig::SHAKE_COUNT_THRESHOLD,
            stable_count_threshold: MotionConfig::STABLE_COUNT_THRESHOLD,
        }
    }
}

/// Counter increment that stops at `u32::MAX`.
pub open spec fn sat_inc(x: u32) -> u32 {
    if x == u32::MAX {
        x
    } else {
        (x + 1) as u32
    }
}

/// The abstract state of a [`MotionDetector`].
pub struct MotionDetectorView {
    pub config: MotionConfig,
    /// Magnitude of the previous computed sample; `None` until there is one.
    pub prev_accel_magnitude: Option<int>,
    pub shake_count: u32,
    pub stable_count: u32,
    /// The last computed sample and the state it produced.
    pub cache: Option<(SensorData, MotionState)>,
}

impl MotionDetectorView {
    /// A detector with the given configuration and no history.
    pub open spec fn fresh(config: MotionConfig) -> MotionDetectorView {
        MotionDetectorView {
            config,
            prev_accel_magnitude: None,
            shake_count: 0,
            stable_count: 0,
            cache: None,
        }
    }

    /// A valid configuration, a zero shake count once the stability count
    /// has reached its threshold, and a cached state that is `Shaking`
    /// exactly while the shake count is confirmed.
    pub open spec fn wf(self) -> bool {
        &&& self.config.is_valid()
        &&& self.stable_count >= self.config.stable_count_threshold ==> self.shake_count == 0
        &&& self.cache matches Some(c) ==> (c.1 is Shaking <==> self.shake_count
            >= self.config.shake_count_threshold)
    }

    /// `|accel_magnitude - previous|`, and 0 with no previous magnitude.
    pub open spec fn accel_delta(self, d: SensorData) -> int {
        match self.prev_accel_magnitude {
            Some(p) => {
                let m = accel_magnitude(d);
                if m >= p {
                    m - p
                } else {
                    p - m
                }
            },
            None => 0,
        }
    }

    /// Raw shaking: both the acceleration delta and the angular rate exceed
    /// their thresholds.
    pub open spec fn qualifies(self, d: SensorData) -> bool {
        &&& self.accel_delta(d) > self.config.accel_threshold
        &&& gyro_sq(d) > self.config.gyro_threshold * self.config.gyro_threshold
    }

    /// `d` is the sample whose result is cached.
    pub open spec fn is_cache_hit(self, d: SensorData) -> bool {
        self.cache matches Some(c) && c.0 == d
    }

    /// The two counters after one computed sample.
    pub open spec fn next_counts(self, raw: bool) -> (u32, u32) {
        if raw {
            (sat_inc(self.shake_count), 0)
        } else {
            let stable = sat_inc(self.stable_count);
            if stable >= self.config.stable_count_threshold {
                (0, stable)
            } else {
                (self.shake_count, stable)
            }
        }
    }

    /// One classification: a cache hit changes nothing and returns the
    /// cached state; otherwise the counters, the magnitude baseline and the
    /// cache are updated and the state is `Shaking` while the shake count
    /// has reached its threshold (it stays so through calm samples until the
    /// stability count re-arms it), else `Tilting` or `Still`.
    pub open spec fn step(self, d: SensorData) -> (MotionDetectorView, MotionState) {
        if self.is_cache_hit(d) {
            (self, self.cache.unwrap().1)
        } else {
            let raw = self.qualifies(d);
            let counts = self.next_counts(raw);
            let state = if counts.0 >= self.config.shake_count_threshold {
                MotionState::Shaking
            } else if is_tilted(d, self.config.tilt_threshold) {
                MotionState::Tilting
            } else {
                MotionState::Still
            };
            (
                MotionDetectorView {
                    config: self.config,
                    prev_accel_magnitude: Some(accel_magnitude(d)),
                    shake_count: counts.0,
                    stable_count: counts.1,
                    cache: Some((d, state)),
                },
                state,
            )
        }
    }
}

/// Feeds `samples` in order: the final state and each call's result.
pub open spec fn run(v: MotionDetectorView, samples: Seq<SensorData>) -> (
    MotionDetectorView,
    Seq<MotionState>,
)
    decreases samples.len(),
{
    if samples.len() == 0 {
        (v, Seq::empty())
    } else {
        let (v1, s) = v.step(samples[0]);
        let rest = run(v1, samples.drop_first());
        (rest.0, seq![s] + rest.1)
    }
}

/// Each sample of `samples`, fed in order from `v`, is computed afresh and
/// qualifies as raw shaking.
pub open spec fn qualifying_run(v: MotionDetectorView, samples: Seq<SensorData>) -> bool
    decreases samples.len(),
{
    samples.len() == 0 || {
        &&& !v.is_cache_hit(samples[0])
        &&& v.qualifies(samples[0])
        &&& qualifying_run(v.step(samples[0]).0, samples.drop_first())
    }
}

/// The classifier: thresholds, the two debounce counters, the previous
/// magnitude, and the last input with its result.
pub struct MotionDetector {
    config: MotionConfig,
    prev_accel_magnitude: Option<u64>,
    shake_count: u32,
    stable_count: u32,
    cached: Option<(SensorData, MotionState)>,
}

impl View for MotionDetector {
    type V = MotionDetectorView;

    closed spec fn view(&self) -> MotionDetectorView {
        MotionDetectorView {
            config: self.config,
            prev_accel_magnitude: match self.prev_accel_magnitude {
                Some(p) => Some(p as int),
                None => None,
            },
            shake_count: self.shake_count,
            stable_count: self.stable_count,
            cache: self.cached,
        }
    }
}

/// `x * x`, which fits in 62 bits.
fn square(x: i32) -> (r: u64)
    ensures
        r == x * x,
        r <= 0x4000_0000_0000_0000,
{
    let w = x as i64;
    assert(w * w <= 0x4000_0000_0000_0000) by (nonlinear_arith)
        requires
            -0x8000_0000 <= w < 0x8000_0000,
    ;
    assert(w * w >= 0) by (nonlinear_arith);
    (w * w) as u64
}

/// `x * x + y * y + z * z`.
fn sum_of_squares(x: i32, y: i32, z: i32) -> (r: u64)
    ensures
        r == x * x + y * y + z * z,
        r <= 0xC000_0000_0000_0000,
{
    square(x) + square(y) + square(z)
}

/// The exec form of [`is_tilted`], given `a2 == accel_sq(d)`.
fn tilt_exceeds(d: &SensorData, a2: u64, tilt_threshold: u32) -> (r: bool)
    requires
        a2 == accel_sq(*d),
        a2 <= 0xC000_0000_0000_0000u64,
    ensures
        r == is_tilted(*d, tilt_threshold),
{
    if a2 <= (MIN_VALID_ACCEL * MIN_VALID_ACCEL) as u64 {
        return false;
    }
    let z2 = square(d.accel_z) as u128;
    let c = cos_sq_ppm_of(tilt_threshold) as u128;
    assert(c * (a2 as u128) <= 0xFFFF_FFFF * 0xC000_0000_0000_0000u128) by (nonlinear_arith)
        requires
            c <= 0xFFFF_FFFF,
            a2 <= 0xC000_0000_0000_0000u64,
    ;
    z2 * 1_000_000 < c * (a2 as u128)
}

impl MotionDetector {
    /// A detector with the default configuration.
    pub fn new() -> (r: MotionDetector)
        ensures
            r@ == MotionDetectorView::fresh(default_motion_config()),
            r@.wf(),
    {
        MotionDetector {
            config: MotionConfig::default(),
            prev_accel_magnitude: None,
            shake_count: 0,
            stable_count: 0,
            cached: None,
        }
    }

    /// A detector with the given configuration, refused when it is invalid.
    pub fn with_config(config: MotionConfig) -> (r: Result<MotionDetector, ConfigError>)
        ensures
            r is Ok <==> config.is_valid(),
            r matches Ok(d) ==> d@ == MotionDetectorView::fresh(config) && d@.wf(),
            r matches Err(e) ==> config_error(config) == Some(e),
    {
        match config.validate() {
            Ok(()) => Ok(
                MotionDetector {
                    config,
                    prev_accel_magnitude: None,
                    shake_count: 0,
                    stable_count: 0,
                    cached: None,
                },
            ),
            Err(e) => Err(e),
        }
    }

    /// Classifies one sample; a repeat of the last input returns the cached
    /// state without touching the counters.
    pub fn detect_motion(&mut self, data: &SensorData) -> (r: MotionState)
        requires
            old(self)@.wf(),
        ensures
            final(self)@.wf(),
            (final(self)@, r) == old(self)@.step(*data),
    {
        if let Some(c) = self.cached {
            if c.0 == *data {
                return c.1;
            }
        }
        let a2 = sum_of_squares(data.accel_x, data.accel_y, data.accel_z);
        let g2 = sum_of_squares(data.gyro_x, data.gyro_y, data.gyro_z);
        let magnitude = isqrt(a2);
        let delta: u64 = match self.prev_accel_magnitude {
            Some(p) => if magnitude >= p {
                magnitude - p
            } else {
                p - magnitude
            },
            None => 0,
        };
        let gyro_limit = self.config.gyro_threshold as u64;
        assert(gyro_limit * gyro_limit <= 0xFFFF_FFFE_0000_0001) by (nonlinear_arith)
            requires
                gyro_limit <= 0xFFFF_FFFF,
        ;
        let raw = delta > self.config.accel_threshold as u64 && g2 > gyro_limit * gyro_limit;
        let tilted = tilt_exceeds(data, a2, self.config.tilt_threshold);
        self.prev_accel_magnitude = Some(magnitude);
        let state = self.update_state_machine(raw, tilted);
        self.cached = Some((*data, state));
        state
    }

    /// Advances the debounce counters and picks the state.
    fn update_state_machine(&mut self, is_shaking: bool, is_tilting: bool) -> (r: MotionState)
        ensures
            final(self).config == old(self).config,
            final(self).prev_accel_magnitude == old(self).prev_accel_magnitude,
            final(self).cached == old(self).cached,
            (final(self).shake_count, final(self).stable_count) == old(self)@.next_counts(
                is_shaking,
            ),
            r == if final(self).shake_count >= old(self).config.shake_count_threshold {
                MotionState::Shaking
            } else if is_tilting {
                MotionState::Tilting
            } else {
                MotionState::Still
            },
    {
        if is_shaking {
            if self.shake_count < u32::MAX {
                self.shake_count = self.shake_count + 1;
            }
            self.stable_count = 0;
            if self.shake_count >= self.config.shake_count_threshold {
                return MotionState::Shaking;
            }
        } else {
            if self.stable_count < u32::MAX {
                self.stable_count = self.stable_count + 1;
            }
            if self.stable_count >= self.config.stable_count_threshold {
                self.shake_count = 0;
            }
            if self.shake_count >= self.config.shake_count_threshold {
                return MotionState::Shaking;
            }
        }
        if is_tilting {
            MotionState::Tilting
        } else {
            MotionState::Still
        }
    }

    /// Changes the acceleration and angular-rate thresholds; refused values
    /// leave the detector as it was. Clears the cache.
    pub fn set_thresholds(&mut self, accel_threshold: u32, gyro_threshold: u32) -> (r: Result<
        (),
        ConfigError,
    >)
        requires
            old(self)@.wf(),
        ensures
            final(self)@.wf(),
            r is Ok <==> (accel_threshold > 0 && gyro_threshold > 0),
            accel_threshold == 0 ==> r == Err::<(), _>(ConfigError::AccelThreshold),
            accel_threshold > 0 && gyro_threshold == 0 ==> r == Err::<(), _>(
                ConfigError::GyroThreshold,
            ),
            r is Err ==> final(self)@ == old(self)@,
            r is Ok ==> final(self)@ == (MotionDetectorView {
                config: MotionConfig { accel_threshold, gyro_threshold, ..old(self)@.config },
                cache: None,
                ..old(self)@
            }),
    {
        if accel_threshold == 0 {
            return Err(ConfigError::AccelThreshold);
        }
        if gyro_threshold == 0 {
            return Err(ConfigError::GyroThreshold);
        }
        self.config.accel_threshold = accel_threshold;
        self.config.gyro_threshold = gyro_threshold;
        self.invalidate_cache();
        Ok(())
    }

    /// Changes the tilt threshold; a value outside 1..=90 is refused and
    /// leaves the detector as it was. Clears the cache.
    pub fn set_tilt_threshold(&mut self, tilt_threshold: u32) -> (r: Result<(), ConfigError>)
        requires
            old(self)@.wf(),
        ensures
            final(self)@.wf(),
            r is Ok <==> (0 < tilt_threshold <= MAX_TILT_ANGLE),
            r is Err ==> r == Err::<(), _>(ConfigError::TiltThreshold) && final(self)@ == old(
                self,
            )@,
            r is Ok ==> final(self)@ == (MotionDetectorView {
                config: MotionConfig { tilt_threshold, ..old(self)@.config },
                cache: None,
                ..old(self)@
            }),
    {
        if tilt_threshold == 0 || tilt_threshold > MAX_TILT_ANGLE {
            return Err(ConfigError::TiltThreshold);
        }
        self.config.tilt_threshold = tilt_threshold;
        self.invalidate_cache();
        Ok(())
    }

    fn invalidate_cache(&mut self)
        ensures
            final(self)@ == (MotionDetectorView { cache: None, ..old(self)@ }),
    {
        self.cached = None;
    }

    /// Clears both counters, the magnitude baseline and the cache.
    pub fn reset(&mut self)
        requires
            old(self)@.wf(),
        ensures
            final(self)@ == MotionDetectorView::fresh(old(self)@.config),
            final(self)@.wf(),
    {
        self.prev_accel_magnitude = None;
        self.shake_count = 0;
        self.stable_count = 0;
        self.invalidate_cache();
    }

    /// Classifies `data` and tells whether the result is `Shaking`.
    pub fn is_shaking(&mut self, data: &SensorData) -> (r: bool)
        requires
            old(self)@.wf(),
        ensures
            final(self)@.wf(),
            final(self)@ == old(self)@.step(*data).0,
            r == (old(self)@.step(*data).1 == MotionState::Shaking),
    {
        self.detect_motion(data) == MotionState::Shaking
    }

    /// Classifies `data` and tells whether the result is `Tilting`.
    pub fn is_tilting(&mut self, data: &SensorData) -> (r: bool)
        requires
            old(self)@.wf(),
        ensures
            final(self)@.wf(),
            final(self)@ == old(self)@.step(*data).0,
            r == (old(self)@.step(*data).1 == MotionState::Tilting),
    {
        self.detect_motion(data) == MotionState::Tilting
    }

    /// Classifies `data` and tells whether the result is `Still`.
    pub fn is_still(&mut self, data: &SensorData) -> (r: bool)
        requires
            old(self)@.wf(),
        ensures
            final(self)@.wf(),
            final(self)@ == old(self)@.step(*data).0,
            r == (old(self)@.step(*data).1 == MotionState::Still),
    {
        self.detect_motion(data) == MotionState::Still
    }

    /// Classifies `data` and returns the state with the sample's
    /// acceleration and angular-rate magnitudes.
    pub fn get_detailed_result(&mut self, data: &SensorData) -> (r: (MotionState, u64, u64))
        requires
            old(self)@.wf(),
        ensures
            final(self)@.wf(),
            (final(self)@, r.0) == old(self)@.step(*data),
            r.1 == accel_magnitude(*data),
            r.2 == gyro_magnitude(*data),
    {
        let state = self.detect_motion(data);
        let a = isqrt(sum_of_squares(data.accel_x, data.accel_y, data.accel_z));
        let g = isqrt(sum_of_squares(data.gyro_x, data.gyro_y, data.gyro_z));
        (state, a, g)
    }

    pub fn get_shake_count(&self) -> (r: u32)
        ensures
            r == self@.shake_count,
    {
        self.shake_count
    }

    pub fn get_stable_count(&self) -> (r: u32)
        ensures
            r == self@.stable_count,
    {
        self.stable_count
    }

    /// The previous magnitude, 0 before the first computed sample.
    pub fn get_prev_accel_magnitude(&self) -> (r: u64)
        ensures
            r == match self@.prev_accel_magnitude {
                Some(p) => p,
                None => 0,
            },
    {
        match self.prev_accel_magnitude {
            Some(p) => p,
            None => 0,
        }
    }

    /// The acceleration, angular-rate and tilt thresholds.
    pub fn get_thresholds(&self) -> (r: (u32, u32, u32))
        ensures
            r == (
                self@.config.accel_threshold,
                self@.config.gyro_threshold,
                self@.config.tilt_threshold,
            ),
    {
        (self.config.accel_threshold, self.config.gyro_threshold, self.config.tilt_threshold)
    }

    pub fn config(&self) -> (r: MotionConfig)
        ensures
            r == self@.config,
    {
        self.config
    }

    pub fn has_cached_result(&self) -> (r: bool)
        ensures
            r == self@.cache is Some,
    {
        self.cached.is_some()
    }
}

impl Default for MotionDetector {
    fn default() -> (r: MotionDetector)
        ensures
            r@ == MotionDetectorView::fresh(default_motion_config()),
    {
        MotionDetector::new()
    }
}


/// Each sample of `samples`, fed in order from `v`, is computed afresh and
/// does not qualify as raw shaking.
pub open spec fn calm_run(v: MotionDetectorView, samples: Seq<SensorData>) -> bool
    decreases samples.len(),
{
    samples.len() == 0 || {
        &&& !v.is_cache_hit(samples[0])
        &&& !v.qualifies(samples[0])
        &&& calm_run(v.step(samples[0]).0, samples.drop_first())
    }
}

/// One classification keeps the detector well formed and its configuration.
pub proof fn lemma_step_wf(v: MotionDetectorView, d: SensorData)
    requires
        v.wf(),
    ensures
        v.step(d).0.wf(),
        v.step(d).0.config == v.config,
{
}

/// The i-th result of a run is the step result of the i-th sample from the
/// state reached after the first i samples.
proof fn lemma_run_tail(v: MotionDetectorView, samples: Seq<SensorData>, i: int)
    requires
        0 < i < samples.len(),
    ensures
        run(v, samples).1[i] == run(v.step(samples[0]).0, samples.drop_first()).1[i - 1],
        run(v, samples).1.len() == samples.len(),
    decreases samples.len(),
{
    lemma_run_len(v, samples);
}

proof fn lemma_run_len(v: MotionDetectorView, samples: Seq<SensorData>)
    ensures
        run(v, samples).1.len() == samples.len(),
    decreases samples.len(),
{
    if samples.len() > 0 {
        lemma_run_len(v.step(samples[0]).0, samples.drop_first());
    }
}

/// Classifying the same sample twice in a row gives the same state both
/// times, and the second call leaves the detector (counters included)
/// exactly as the first left it.
pub proof fn lemma_repeat_is_idempotent(v: MotionDetectorView, d: SensorData)
    ensures
        v.step(d).0.step(d) == v.step(d),
{
}

/// From a detector whose shake count is not confirmed (a fresh or reset one
/// has count 0), samples with no angular rate, whatever their (here constant)
/// acceleration magnitude, never produce `Shaking` and never raise the
/// shake count.
pub proof fn lemma_calm_rate_never_shakes(v: MotionDetectorView, samples: Seq<SensorData>)
    requires
        v.wf(),
        v.shake_count < v.config.shake_count_threshold,
        forall|i: int| 0 <= i < samples.len() ==> gyro_sq(#[trigger] samples[i]) == 0,
        forall|i: int, j: int|
            0 <= i < samples.len() && 0 <= j < samples.len() ==> accel_magnitude(
                #[trigger] samples[i],
            ) == accel_magnitude(#[trigger] samples[j]),
    ensures
        run(v, samples).1.len() == samples.len(),
        forall|i: int| 0 <= i < samples.len() ==> run(v, samples).1[i] != MotionState::Shaking,
        run(v, samples).0.shake_count <= v.shake_count,
    decreases samples.len(),
{
    lemma_run_len(v, samples);
    if samples.len() > 0 {
        let d = samples[0];
        let t = v.config.gyro_threshold;
        assert(t * t >= 0) by (nonlinear_arith);
        lemma_step_wf(v, d);
        let v1 = v.step(d).0;
        let rest = samples.drop_first();
        assert forall|i: int| 0 <= i < rest.len() implies gyro_sq(#[trigger] rest[i]) == 0 by {
            assert(rest[i] == samples[i + 1]);
        }
        assert forall|i: int, j: int|
            0 <= i < rest.len() && 0 <= j < rest.len() implies accel_magnitude(
                #[trigger] rest[i],
            ) == accel_magnitude(#[trigger] rest[j]) by {
            assert(rest[i] == samples[i + 1]);
            assert(rest[j] == samples[j + 1]);
        }
        lemma_calm_rate_never_shakes(v1, rest);
        assert forall|i: int| 0 <= i < samples.len() implies run(v, samples).1[i]
            != MotionState::Shaking by {
            if i > 0 {
                lemma_run_tail(v, samples, i);
            }
        }
    }
}

proof fn lemma_qualifying_run_counts(v: MotionDetectorView, samples: Seq<SensorData>)
    requires
        v.wf(),
        qualifying_run(v, samples),
    ensures
        run(v, samples).1.len() == samples.len(),
        forall|i: int|
            0 <= i < samples.len() ==> (run(v, samples).1[i] == MotionState::Shaking <==> v.shake_count
                + i + 1 >= v.config.shake_count_threshold),
        v.shake_count + samples.len() < v.config.shake_count_threshold ==> run(v, samples).0.shake_count
            == v.shake_count + samples.len(),
    decreases samples.len(),
{
    lemma_run_len(v, samples);
    if samples.len() > 0 {
        let d = samples[0];
        lemma_step_wf(v, d);
        let v1 = v.step(d).0;
        let rest = samples.drop_first();
        lemma_qualifying_run_counts(v1, rest);
        assert forall|i: int| 0 <= i < samples.len() implies (run(v, samples).1[i]
            == MotionState::Shaking <==> v.shake_count + i + 1 >= v.config.shake_count_threshold) by {
            if i > 0 {
                lemma_run_tail(v, samples, i);
            }
        }
    }
}

/// From a zero shake count, along a run of qualifying samples the i-th
/// result (counting from 0) is `Shaking` exactly when `i + 1` has reached
/// the confirmation count: `N` consecutive qualifying samples are needed
/// for the first `Shaking`, and the `N`-th gives it.
pub proof fn lemma_shaking_needs_full_run(v: MotionDetectorView, samples: Seq<SensorData>)
    requires
        v.wf(),
        v.shake_count == 0,
        qualifying_run(v, samples),
    ensures
        run(v, samples).1.len() == samples.len(),
        forall|i: int|
            0 <= i < samples.len() ==> (run(v, samples).1[i] == MotionState::Shaking <==> i + 1
                >= v.config.shake_count_threshold),
{
    lemma_qualifying_run_counts(v, samples);
}

/// A run of at least `stable_count_threshold` computed, non-qualifying
/// samples brings the shake count back to zero, so confirmation starts over.
pub proof fn lemma_calm_run_rearms(v: MotionDetectorView, samples: Seq<SensorData>)
    requires
        v.wf(),
        calm_run(v, samples),
        v.stable_count + samples.len() >= v.config.stable_count_threshold,
    ensures
        run(v, samples).0.shake_count == 0,
    decreases samples.len(),
{
    if samples.len() > 0 {
        let d = samples[0];
        lemma_step_wf(v, d);
        lemma_calm_run_rearms(v.step(d).0, samples.drop_first());
    }
}

/// Confirmed shaking holds through calm samples: while the stability count
/// has not reached its threshold, a computed non-qualifying sample still
/// yields `Shaking` (debounce on exit).
pub proof fn lemma_shaking_held_until_rearmed(v: MotionDetectorView, d: SensorData)
    requires
        v.wf(),
        v.shake_count >= v.config.shake_count_threshold,
        !v.is_cache_hit(d),
        !v.qualifies(d),
        sat_inc(v.stable_count) < v.config.stable_count_threshold,
    ensures
        v.step(d).1 == MotionState::Shaking,
        v.step(d).0.shake_count == v.shake_count,
{
}

/// A run keeps the detector well formed and its configuration.
proof fn lemma_run_wf(v: MotionDetectorView, samples: Seq<SensorData>)
    requires
        v.wf(),
    ensures
        run(v, samples).0.wf(),
        run(v, samples).0.config == v.config,
    decreases samples.len(),
{
    if samples.len() > 0 {
        lemma_step_wf(v, samples[0]);
        lemma_run_wf(v.step(samples[0]).0, samples.drop_first());
    }
}

/// Feeding `a` and then `b` is feeding `a + b`.
proof fn lemma_run_append(v: MotionDetectorView, a: Seq<SensorData>, b: Seq<SensorData>)
    ensures
        run(v, a + b).0 == run(run(v, a).0, b).0,
        run(v, a + b).1 == run(v, a).1 + run(run(v, a).0, b).1,
    decreases a.len(),
{
    if a.len() == 0 {
        assert(a + b =~= b);
        assert(run(v, a).1 + run(run(v, a).0, b).1 =~= run(v, b).1);
    } else {
        let v1 = v.step(a[0]).0;
        assert((a + b)[0] == a[0]);
        assert((a + b).drop_first() =~= a.drop_first() + b);
        lemma_run_append(v1, a.drop_first(), b);
        assert(run(v, a + b).1 =~= run(v, a).1 + run(run(v, a).0, b).1);
    }
}

/// Along a calm run from an unconfirmed shake count nothing is `Shaking`
/// and the count does not grow.
proof fn lemma_calm_run_unconfirmed(v: MotionDetectorView, samples: Seq<SensorData>)
    requires
        v.wf(),
        v.shake_count < v.config.shake_count_threshold,
        calm_run(v, samples),
    ensures
        run(v, samples).1.len() == samples.len(),
        forall|i: int| 0 <= i < samples.len() ==> run(v, samples).1[i] != MotionState::Shaking,
        run(v, samples).0.shake_count <= v.shake_count,
    decreases samples.len(),
{
    lemma_run_len(v, samples);
    if samples.len() > 0 {
        let d = samples[0];
        lemma_step_wf(v, d);
        lemma_calm_run_unconfirmed(v.step(d).0, samples.drop_first());
        assert forall|i: int| 0 <= i < samples.len() implies run(v, samples).1[i]
            != MotionState::Shaking by {
            if i > 0 {
                lemma_run_tail(v, samples, i);
            }
        }
    }
}

/// From a zero shake count: `N - 1` qualifying samples, then a calm run as
/// long as the stability count, then up to `N - 1` qualifying samples
/// again never yield `Shaking`, and the calm run brings the count back to
/// zero; the debounce does not carry across a break of that length.
pub proof fn lemma_stability_break_resets_debounce(
    v: MotionDetectorView,
    first: Seq<SensorData>,
    calm: Seq<SensorData>,
    second: Seq<SensorData>,
)
    requires
        v.wf(),
        v.shake_count == 0,
        first.len() + 1 == v.config.shake_count_threshold,
        qualifying_run(v, first),
        calm.len() >= v.config.stable_count_threshold,
        calm_run(run(v, first).0, calm),
        second.len() < v.config.shake_count_threshold,
        qualifying_run(run(run(v, first).0, calm).0, second),
    ensures
        run(run(v, first).0, calm).0.shake_count == 0,
        run(v, first + calm + second).1.len() == first.len() + calm.len() + second.len(),
        forall|i: int|
            0 <= i < first.len() + calm.len() + second.len() ==> run(v, first + calm + second).1[i]
                != MotionState::Shaking,
{
    let v1 = run(v, first).0;
    lemma_qualifying_run_counts(v, first);
    lemma_run_wf(v, first);
    lemma_calm_run_unconfirmed(v1, calm);
    lemma_calm_run_rearms(v1, calm);
    let v2 = run(v1, calm).0;
    lemma_run_wf(v1, calm);
    lemma_qualifying_run_counts(v2, second);
    lemma_run_append(v, first, calm);
    lemma_run_append(v, first + calm, second);
    lemma_run_len(v, first + calm + second);
    let out = run(v, first + calm + second).1;
    assert(out == run(v, first).1 + run(v1, calm).1 + run(v2, second).1);
    assert forall|i: int|
        0 <= i < first.len() + calm.len() + second.len() implies out[i]
            != MotionState::Shaking by {
        if i < first.len() {
            assert(out[i] == run(v, first).1[i]);
        } else if i < first.len() + calm.len() {
            assert(out[i] == run(v1, calm).1[i - first.len()]);
        } else {
            assert(out[i] == run(v2, second).1[i - first.len() - calm.len()]);
        }
    }
}

} // verus!
