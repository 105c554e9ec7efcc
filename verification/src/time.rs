//! Time base aware timestamps.
//!
//! A [`Timestamp`] is a raw integer value together with the [`TimeBase`] in
//! which it is expressed. The raw value `i64::MIN` is the "null" timestamp
//! (FFmpeg's `AV_NOPTS_VALUE`). Timestamps are compared within the
//! microsecond time base.
use crate::rescale::{
    component_valid, lemma_rescale_exact, lemma_rescale_monotone, lemma_rescale_nonneg, lemma_rescale_round_trip, lemma_rescale_same_base,
    c_int_value, magnitude, null_value, rescale_in_range, rescale_q, rescale_spec, round_near,
    scale_den, scale_num,
};
use crate::decimal::{
    decimal, decimal_of, signed_decimal, signed_decimal_of, zero_padded3, zero_padded_of,
};
use vstd::arithmetic::div_mod::lemma_div_multiples_vanish_fancy;
use vstd::prelude::*;

verus! {

/// The number of nanoseconds in a second.
pub const NANOS_PER_SEC: u32 = 1_000_000_000;

/// A rational time base (e.g. 1/1000 is a millisecond time base).
#[derive(Debug, Copy, Clone)]
pub struct TimeBase {
    num: u32,
    den: u32,
}

impl TimeBase {
    /// The numerator (model).
    pub closed spec fn spec_num(self) -> u32 {
        self.num
    }

    /// The denominator (model).
    pub closed spec fn spec_den(self) -> u32 {
        self.den
    }

    /// A microseconds time base.
    pub fn microseconds() -> (r: TimeBase)
        ensures
            r.spec_num() == 1,
            r.spec_den() == 1_000_000,
    {
        TimeBase { num: 1, den: 1_000_000 }
    }

    /// Create a new time base as a rational number with a given numerator and
    /// denominator.
    pub fn new(num: u32, den: u32) -> (r: TimeBase)
        ensures
            r.spec_num() == num,
            r.spec_den() == den,
    {
        TimeBase { num, den }
    }

    /// Get the numerator.
    pub fn num(&self) -> (r: u32)
        ensures
            r == self.spec_num(),
    {
        self.num
    }

    /// Get the denominator.
    pub fn den(&self) -> (r: u32)
        ensures
            r == self.spec_den(),
    {
        self.den
    }

    /// Human readable form: `num/den`.
    pub fn to_debug_string(&self) -> (r: String)
        ensures
            r@ == decimal_of(self.spec_num() as nat) + "/"@ + decimal_of(self.spec_den() as nat),
    {
        let res = decimal(self.num as u64);
        let res = res.concat("/");
        res.concat(decimal(self.den as u64).as_str())
    }

    /// Both components of the time base are positive as C `int` values.
    pub open spec fn spec_valid(self) -> bool {
        component_valid(self.spec_num()) && component_valid(self.spec_den())
    }
}

/// Rescaling of `n` from the time base `from` into the time base `num/den`.
pub open spec fn rescale_from(n: int, from: TimeBase, num: u32, den: u32) -> int {
    rescale_spec(n, from.spec_num(), from.spec_den(), num, den)
}

/// Rescaling of `n` from the time base `num/den` into the time base `to`.
pub open spec fn rescale_into(n: int, num: u32, den: u32, to: TimeBase) -> int {
    rescale_spec(n, num, den, to.spec_num(), to.spec_den())
}

/// Rescaling as done by `with_time_base`: the null value passes unchanged.
pub open spec fn rescale_keep_null(n: int, num: u32, den: u32, to_num: u32, to_den: u32) -> int {
    if n == null_value() {
        n
    } else {
        rescale_spec(n, num, den, to_num, to_den)
    }
}

/// A `u64` converted to `i64` with `as` (wrapping above `i64::MAX`).
pub open spec fn wrap_i64(u: u64) -> int {
    if u <= 0x7fff_ffff_ffff_ffff {
        u as int
    } else {
        u as int - 0x1_0000_0000_0000_0000
    }
}

/// Convert a `u64` into an `i64` the way `as` does (wrapping above
/// `i64::MAX`).
pub fn wrap_to_i64(u: u64) -> (r: i64)
    ensures
        r == wrap_i64(u),
{
    if u <= 0x7fff_ffff_ffff_ffff {
        u as i64
    } else {
        let low: i64 = (u - 0x8000_0000_0000_0000) as i64;
        low + i64::MIN
    }
}

/// A span of time: whole seconds and a number of nanoseconds below one
/// second.
#[derive(Debug, Copy, Clone, PartialEq, Eq, Structural)]
pub struct Duration {
    secs: u64,
    nanos: u32,
}

impl Duration {
    #[verifier::type_invariant]
    spec fn inv(self) -> bool {
        self.nanos < NANOS_PER_SEC
    }

    /// Whole seconds (model).
    pub closed spec fn spec_secs(self) -> u64 {
        self.secs
    }

    /// Nanoseconds beyond the whole seconds (model).
    pub closed spec fn spec_nanos(self) -> u32 {
        self.nanos
    }

    /// The total length in nanoseconds.
    pub open spec fn spec_total_nanos(self) -> int {
        self.spec_secs() * 1_000_000_000 + self.spec_nanos()
    }

    /// Create a new duration from whole seconds and additional nanoseconds.
    /// Nanoseconds of one second or more carry into the seconds.
    pub fn new(secs: u64, nanos: u32) -> (r: Duration)
        requires
            secs + nanos / 1_000_000_000 <= u64::MAX,
        ensures
            r.spec_secs() == secs + nanos / 1_000_000_000,
            r.spec_nanos() == nanos % 1_000_000_000,
    {
        let extra: u64 = (nanos / NANOS_PER_SEC) as u64;
        Duration { secs: secs + extra, nanos: nanos % NANOS_PER_SEC }
    }

    /// Create a new duration from whole seconds.
    pub fn from_secs(secs: u64) -> (r: Duration)
        ensures
            r.spec_secs() == secs,
            r.spec_nanos() == 0,
    {
        Duration { secs, nanos: 0 }
    }

    /// Create a new duration from milliseconds.
    pub fn from_millis(millis: u64) -> (r: Duration)
        ensures
            r.spec_secs() == millis / 1000,
            r.spec_nanos() == (millis % 1000) * 1_000_000,
            r.spec_total_nanos() == millis * 1_000_000,
    {
        let nanos: u32 = ((millis % 1000) as u32) * 1_000_000;
        Duration { secs: millis / 1000, nanos }
    }

    /// Create a new duration from microseconds.
    pub fn from_micros(micros: u64) -> (r: Duration)
        ensures
            r.spec_secs() == micros / 1_000_000,
            r.spec_nanos() == (micros % 1_000_000) * 1000,
            r.spec_total_nanos() == micros * 1000,
    {
        let nanos: u32 = ((micros % 1_000_000) as u32) * 1000;
        Duration { secs: micros / 1_000_000, nanos }
    }

    /// Create a new duration from nanoseconds.
    pub fn from_nanos(nanos: u64) -> (r: Duration)
        ensures
            r.spec_secs() == nanos / 1_000_000_000,
            r.spec_nanos() == nanos % 1_000_000_000,
            r.spec_total_nanos() == nanos,
    {
        let sub: u32 = (nanos % 1_000_000_000) as u32;
        Duration { secs: nanos / 1_000_000_000, nanos: sub }
    }

    /// The number of whole seconds.
    pub fn as_secs(&self) -> (r: u64)
        ensures
            r == self.spec_secs(),
    {
        self.secs
    }

    /// The fractional part in nanoseconds (always less than one billion).
    pub fn subsec_nanos(&self) -> (r: u32)
        ensures
            r == self.spec_nanos(),
            r < 1_000_000_000,
    {
        proof {
            use_type_invariant(self);
        }
        self.nanos
    }
}


/// Integer division truncating toward zero, as Rust's `/` does.
pub open spec fn trunc_div(a: int, b: int) -> int {
    if a >= 0 {
        a / b
    } else {
        -((-a) / b)
    }
}

/// The remainder of `trunc_div`, as Rust's `%` gives it.
pub open spec fn trunc_rem(a: int, b: int) -> int {
    a - b * trunc_div(a, b)
}

/// The text of a timestamp given in milliseconds: whole seconds, a dot, the
/// remaining milliseconds padded to three places, and `s`.
pub open spec fn millis_text(millis: int) -> Seq<char> {
    signed_decimal_of(trunc_div(millis, 1000)) + "."@ + zero_padded_of(trunc_rem(millis, 1000), 3)
        + "s"@
}

/// A timestamp supporting various time bases. All comparisons are done within
/// microsecond time base.
#[derive(Debug, Copy, Clone)]
pub struct Timestamp {
    timestamp: i64,
    time_base: TimeBase,
}

impl Timestamp {
    /// The raw value (model).
    pub closed spec fn spec_timestamp(self) -> i64 {
        self.timestamp
    }

    /// The time base (model).
    pub closed spec fn spec_time_base(self) -> TimeBase {
        self.time_base
    }

    /// The timestamp with a given raw value and time base.
    pub closed spec fn spec_new(timestamp: i64, time_base: TimeBase) -> Timestamp {
        Timestamp { timestamp, time_base }
    }

    /// The parts of a timestamp built by `spec_new`.
    pub broadcast proof fn lemma_spec_new(timestamp: i64, time_base: TimeBase)
        ensures
            #![trigger Timestamp::spec_new(timestamp, time_base)]
            Timestamp::spec_new(timestamp, time_base).spec_timestamp() == timestamp,
            Timestamp::spec_new(timestamp, time_base).spec_time_base() == time_base,
    {
    }

    /// The timestamp is the null timestamp (`AV_NOPTS_VALUE`).
    pub open spec fn spec_is_null(self) -> bool {
        self.spec_timestamp() == i64::MIN
    }

    /// The raw value after rescaling into the time base `num/den`; a null
    /// timestamp keeps its raw value.
    pub open spec fn spec_rescaled(self, num: u32, den: u32) -> int {
        rescale_keep_null(
            self.spec_timestamp() as int,
            self.spec_time_base().spec_num(),
            self.spec_time_base().spec_den(),
            num,
            den,
        )
    }

    /// The value in the time base `num/den`, `None` for the null timestamp.
    pub open spec fn spec_in_unit(self, num: u32, den: u32) -> Option<int> {
        if self.spec_is_null() {
            None
        } else {
            Some(self.spec_rescaled(num, den))
        }
    }

    /// The value in microseconds, `None` for the null timestamp.
    pub open spec fn spec_micros(self) -> Option<int> {
        self.spec_in_unit(1, 1_000_000)
    }

    /// Ticks of the time base `tb` that the whole seconds of `d` amount to.
    pub open spec fn spec_secs_ticks(d: Duration, tb: TimeBase) -> int {
        rescale_keep_null(wrap_i64(d.spec_secs()), 1, 1, tb.spec_num(), tb.spec_den())
    }

    /// Ticks of the time base `tb` that the nanoseconds of `d` amount to.
    pub open spec fn spec_nanos_ticks(d: Duration, tb: TimeBase) -> int {
        rescale_into(d.spec_nanos() as int, 1, 1_000_000_000, tb)
    }

    /// Adding `d` neither meets nor passes the `i64` range.
    pub open spec fn spec_add_defined(self, d: Duration) -> bool {
        let t = self.spec_timestamp() as int;
        let s = Timestamp::spec_secs_ticks(d, self.spec_time_base());
        let n = Timestamp::spec_nanos_ticks(d, self.spec_time_base());
        self.spec_is_null() || (i64::MIN <= t + s <= i64::MAX && i64::MIN <= t + s + n
            <= i64::MAX)
    }

    /// The raw value after adding `d`.
    pub open spec fn spec_added(self, d: Duration) -> int {
        let t = self.spec_timestamp() as int;
        if self.spec_is_null() {
            t
        } else {
            t + Timestamp::spec_secs_ticks(d, self.spec_time_base())
                + Timestamp::spec_nanos_ticks(d, self.spec_time_base())
        }
    }

    /// Subtracting `d` neither meets nor passes the `i64` range.
    pub open spec fn spec_sub_defined(self, d: Duration) -> bool {
        let t = self.spec_timestamp() as int;
        let s = Timestamp::spec_secs_ticks(d, self.spec_time_base());
        let n = Timestamp::spec_nanos_ticks(d, self.spec_time_base());
        self.spec_is_null() || (i64::MIN <= t - s <= i64::MAX && i64::MIN <= t - s - n
            <= i64::MAX)
    }

    /// The raw value after subtracting `d`.
    pub open spec fn spec_subtracted(self, d: Duration) -> int {
        let t = self.spec_timestamp() as int;
        if self.spec_is_null() {
            t
        } else {
            t - Timestamp::spec_secs_ticks(d, self.spec_time_base())
                - Timestamp::spec_nanos_ticks(d, self.spec_time_base())
        }
    }

    /// Raw difference between this timestamp and `rhs` rescaled into this
    /// timestamp's time base.
    pub open spec fn spec_diff(self, rhs: Timestamp) -> int {
        self.spec_timestamp() - rhs.spec_rescaled(
            self.spec_time_base().spec_num(),
            self.spec_time_base().spec_den(),
        )
    }

    /// Whole seconds of the difference.
    pub open spec fn spec_diff_secs(self, rhs: Timestamp) -> int {
        let tb = self.spec_time_base();
        rescale_keep_null(self.spec_diff(rhs), tb.spec_num(), tb.spec_den(), 1, 1)
    }

    /// The difference left after the whole seconds, in this time base.
    pub open spec fn spec_diff_rem(self, rhs: Timestamp) -> int {
        let tb = self.spec_time_base();
        self.spec_diff(rhs) - rescale_keep_null(
            self.spec_diff_secs(rhs),
            1,
            1,
            tb.spec_num(),
            tb.spec_den(),
        )
    }

    /// The remaining difference in nanoseconds.
    pub open spec fn spec_diff_nanos(self, rhs: Timestamp) -> int {
        rescale_from(self.spec_diff_rem(rhs), self.spec_time_base(), 1, 1_000_000_000)
    }

    /// Subtracting `rhs` gives a duration: neither timestamp is null, the
    /// difference is not negative, and no step leaves the integer ranges.
    pub open spec fn spec_elapsed_defined(self, rhs: Timestamp) -> bool {
        let diff = self.spec_diff(rhs);
        let rem = self.spec_diff_rem(rhs);
        &&& !self.spec_is_null()
        &&& !rhs.spec_is_null()
        &&& 0 <= diff <= i64::MAX
        &&& i64::MIN < rem <= i64::MAX
        &&& (self.spec_diff_secs(rhs) as u64) + (self.spec_diff_nanos(rhs) as u32) / 1_000_000_000
            <= u64::MAX
    }

    /// Create a "null" timestamp (i.e. a timestamp set to the AV_NOPTS_VALUE).
    pub fn null() -> (r: Timestamp)
        ensures
            r.spec_is_null(),
            r.spec_time_base().spec_num() == 1,
            r.spec_time_base().spec_den() == 1_000_000,
    {
        Timestamp { timestamp: i64::MIN, time_base: TimeBase::microseconds() }
    }

    /// Create a new timestamp with a given time base.
    pub fn new(timestamp: i64, time_base: TimeBase) -> (r: Timestamp)
        ensures
            r.spec_timestamp() == timestamp,
            r.spec_time_base() == time_base,
            r == Timestamp::spec_new(timestamp, time_base),
    {
        Timestamp { timestamp, time_base }
    }

    /// Create a new timestamp with 1/1 time base.
    pub fn from_secs(timestamp: i64) -> (r: Timestamp)
        ensures
            r.spec_timestamp() == timestamp,
            r.spec_time_base().spec_num() == 1,
            r.spec_time_base().spec_den() == 1,
    {
        Timestamp::new(timestamp, TimeBase::new(1, 1))
    }

    /// Create a new timestamp with 1/1_000 time base.
    pub fn from_millis(timestamp: i64) -> (r: Timestamp)
        ensures
            r.spec_timestamp() == timestamp,
            r.spec_time_base().spec_num() == 1,
            r.spec_time_base().spec_den() == 1_000,
    {
        Timestamp::new(timestamp, TimeBase::new(1, 1_000))
    }

    /// Create a new timestamp with 1/1_000_000 time base.
    pub fn from_micros(timestamp: i64) -> (r: Timestamp)
        ensures
            r.spec_timestamp() == timestamp,
            r.spec_time_base().spec_num() == 1,
            r.spec_time_base().spec_den() == 1_000_000,
    {
        Timestamp::new(timestamp, TimeBase::new(1, 1_000_000))
    }

    /// Create a new timestamp with 1/1_000_000_000 time base.
    pub fn from_nanos(timestamp: i64) -> (r: Timestamp)
        ensures
            r.spec_timestamp() == timestamp,
            r.spec_time_base().spec_num() == 1,
            r.spec_time_base().spec_den() == 1_000_000_000,
    {
        Timestamp::new(timestamp, TimeBase::new(1, 1_000_000_000))
    }

    /// Get the time base.
    pub fn time_base(&self) -> (r: TimeBase)
        ensures
            r == self.spec_time_base(),
    {
        self.time_base
    }

    /// Get the raw timestamp value.
    pub fn timestamp(&self) -> (r: i64)
        ensures
            r == self.spec_timestamp(),
    {
        self.timestamp
    }

    /// Set the timestamp with the current time base.
    pub fn with_raw_timestamp(self, timestamp: i64) -> (r: Timestamp)
        ensures
            r.spec_timestamp() == timestamp,
            r.spec_time_base() == self.spec_time_base(),
    {
        Timestamp { timestamp, time_base: self.time_base }
    }

    /// Check if this is the "null" timestamp (i.e. it is equal to the
    /// AV_NOPTS_VALUE).
    pub fn is_null(&self) -> (r: bool)
        ensures
            r == self.spec_is_null(),
    {
        self.timestamp == i64::MIN
    }

    /// Rescale the timestamp value to a given time base.
    pub fn with_time_base(&self, time_base: TimeBase) -> (r: Timestamp)
        ensures
            r.spec_time_base() == time_base,
            r.spec_timestamp() == self.spec_rescaled(time_base.spec_num(), time_base.spec_den()),
            self.spec_is_null() ==> r.spec_is_null(),
    {
        let timestamp = if self.is_null() {
            self.timestamp
        } else {
            rescale_q(
                self.timestamp,
                self.time_base.num,
                self.time_base.den,
                time_base.num,
                time_base.den,
            )
        };
        Timestamp { timestamp, time_base }
    }

    /// The value in the time base `num/den` (`None` for the null timestamp).
    fn as_unit(&self, num: u32, den: u32) -> (r: Option<i64>)
        ensures
            r matches Some(v) ==> self.spec_in_unit(num, den) == Some(v as int),
            r is None ==> self.spec_in_unit(num, den) is None,
    {
        if self.is_null() {
            None
        } else {
            let ts = self.with_time_base(TimeBase::new(num, den));
            Some(ts.timestamp)
        }
    }

    /// Get the timestamp value in seconds.
    pub fn as_secs(&self) -> (r: Option<i64>)
        ensures
            r matches Some(v) ==> self.spec_in_unit(1, 1) == Some(v as int),
            r is None <==> self.spec_is_null(),
    {
        self.as_unit(1, 1)
    }

    /// Get the timestamp value in milliseconds.
    pub fn as_millis(&self) -> (r: Option<i64>)
        ensures
            r matches Some(v) ==> self.spec_in_unit(1, 1_000) == Some(v as int),
            r is None <==> self.spec_is_null(),
    {
        self.as_unit(1, 1_000)
    }

    /// Get the timestamp value in microseconds.
    pub fn as_micros(&self) -> (r: Option<i64>)
        ensures
            r matches Some(v) ==> self.spec_micros() == Some(v as int),
            r is None <==> self.spec_is_null(),
    {
        self.as_unit(1, 1_000_000)
    }

    /// Get the timestamp value in nanoseconds.
    pub fn as_nanos(&self) -> (r: Option<i64>)
        ensures
            r matches Some(v) ==> self.spec_in_unit(1, 1_000_000_000) == Some(v as int),
            r is None <==> self.spec_is_null(),
    {
        self.as_unit(1, 1_000_000_000)
    }

    /// Human readable form: the value in seconds with millisecond precision
    /// (e.g. `1.500s`), or `(null)`.
    pub fn to_debug_string(&self) -> (r: String)
        ensures
            self.spec_is_null() ==> r@ == "(null)"@,
            !self.spec_is_null() ==> r@ == millis_text(self.spec_rescaled(1, 1_000)),
    {
        match self.as_millis() {
            Some(millis) => {
                let wide: i128 = millis as i128;
                let q: i128 = if wide >= 0 {
                    wide / 1000
                } else {
                    -((-wide) / 1000)
                };
                let rem: i128 = wide - 1000 * q;
                let secs = signed_decimal(q as i64);
                let frac = zero_padded3(rem as i64);
                let res = secs.concat(".");
                let res = res.concat(frac.as_str());
                res.concat("s")
            },
            None => String::from_str("(null)"),
        }
    }

    /// Add a given duration to this timestamp (a null timestamp stays null).
    pub fn add_assign(&mut self, rhs: Duration)
        requires
            old(self).spec_add_defined(rhs),
        ensures
            final(self).spec_time_base() == old(self).spec_time_base(),
            final(self).spec_timestamp() == old(self).spec_added(rhs),
    {
        if self.is_null() {
            return;
        }
        let secs = wrap_to_i64(rhs.as_secs());
        let s = Timestamp::from_secs(secs).with_time_base(self.time_base).timestamp();
        self.timestamp = self.timestamp + s;
        let nanos = rhs.subsec_nanos() as i64;
        let n = Timestamp::from_nanos(nanos).with_time_base(self.time_base).timestamp();
        self.timestamp = self.timestamp + n;
    }

    /// Subtract a given duration from this timestamp (a null timestamp stays
    /// null).
    pub fn sub_assign(&mut self, rhs: Duration)
        requires
            old(self).spec_sub_defined(rhs),
        ensures
            final(self).spec_time_base() == old(self).spec_time_base(),
            final(self).spec_timestamp() == old(self).spec_subtracted(rhs),
    {
        if self.is_null() {
            return;
        }
        let secs = wrap_to_i64(rhs.as_secs());
        let s = Timestamp::from_secs(secs).with_time_base(self.time_base).timestamp();
        self.timestamp = self.timestamp - s;
        let nanos = rhs.subsec_nanos() as i64;
        let n = Timestamp::from_nanos(nanos).with_time_base(self.time_base).timestamp();
        self.timestamp = self.timestamp - n;
    }
}


/// Rescaling a timestamp into its own (valid) time base leaves its value
/// unchanged; in particular `from_millis(x).as_millis() == Some(x)` and the
/// like for every non-null `x`.
pub proof fn lemma_own_time_base(t: Timestamp)
    requires
        t.spec_time_base().spec_valid(),
    ensures
        t.spec_rescaled(t.spec_time_base().spec_num(), t.spec_time_base().spec_den())
            == t.spec_timestamp(),
{
    if !t.spec_is_null() {
        lemma_rescale_same_base(
            t.spec_timestamp(),
            t.spec_time_base().spec_num(),
            t.spec_time_base().spec_den(),
        );
    }
}

/// Within one time base, a later raw value never has fewer microseconds than
/// an earlier one (as long as neither conversion overflows), so the ordering
/// of timestamps agrees with the ordering of their raw values.
pub proof fn lemma_micros_monotone(a: Timestamp, b: Timestamp)
    requires
        a.spec_time_base() == b.spec_time_base(),
        !a.spec_is_null(),
        !b.spec_is_null(),
        a.spec_timestamp() <= b.spec_timestamp(),
        rescale_in_range(
            a.spec_timestamp() as int,
            a.spec_time_base().spec_num(),
            a.spec_time_base().spec_den(),
            1,
            1_000_000,
        ),
        rescale_in_range(
            b.spec_timestamp() as int,
            b.spec_time_base().spec_num(),
            b.spec_time_base().spec_den(),
            1,
            1_000_000,
        ),
    ensures
        a.spec_micros().unwrap() <= b.spec_micros().unwrap(),
{
    lemma_rescale_monotone(
        a.spec_timestamp(),
        b.spec_timestamp(),
        a.spec_time_base().spec_num(),
        a.spec_time_base().spec_den(),
        1,
        1_000_000,
    );
}

/// Rescaling a timestamp into a time base that is finer by a whole factor,
/// and then back into its own time base, gives the original value.
pub proof fn lemma_finer_base_round_trip(t: Timestamp, tb: TimeBase)
    requires
        !t.spec_is_null(),
        t.spec_time_base().spec_valid(),
        tb.spec_valid(),
        scale_num(t.spec_time_base().spec_num(), tb.spec_den()) % scale_den(
            tb.spec_num(),
            t.spec_time_base().spec_den(),
        ) == 0,
        rescale_in_range(
            t.spec_timestamp() as int,
            t.spec_time_base().spec_num(),
            t.spec_time_base().spec_den(),
            tb.spec_num(),
            tb.spec_den(),
        ),
    ensures
        rescale_keep_null(
            t.spec_rescaled(tb.spec_num(), tb.spec_den()),
            tb.spec_num(),
            tb.spec_den(),
            t.spec_time_base().spec_num(),
            t.spec_time_base().spec_den(),
        ) == t.spec_timestamp(),
{
    let from = t.spec_time_base();
    lemma_rescale_round_trip(
        t.spec_timestamp(),
        from.spec_num(),
        from.spec_den(),
        tb.spec_num(),
        tb.spec_den(),
    );
    let u = t.spec_rescaled(tb.spec_num(), tb.spec_den());
    if u == null_value() {
        // u == n * k with n != i64::MIN and k >= 1 cannot be i64::MIN unless
        // n * k overflows, which rescale_in_range excludes
        assert(rescale_spec(u, tb.spec_num(), tb.spec_den(), from.spec_num(), from.spec_den())
            == t.spec_timestamp());
        assert(rescale_in_range(u, tb.spec_num(), tb.spec_den(), from.spec_num(), from.spec_den()));
    }
}

/// `with_time_base` is exact whenever the exact result is an integer: for a
/// timestamp `t` that is not null and a time base `tb` whose component
/// products (as C `int` values) are positive, if `t * num * tb.den` is a
/// multiple of `den * tb.num` whose quotient fits in an `i64` (and is not
/// `i64::MIN`), the rescaled value is that quotient.
pub proof fn lemma_exact_time_base(t: Timestamp, tb: TimeBase)
    requires
        !t.spec_is_null(),
        scale_den(tb.spec_num(), t.spec_time_base().spec_den()) > 0,
        scale_num(t.spec_time_base().spec_num(), tb.spec_den()) >= 0,
        (t.spec_timestamp() * scale_num(t.spec_time_base().spec_num(), tb.spec_den())) % scale_den(
            tb.spec_num(),
            t.spec_time_base().spec_den(),
        ) == 0,
        -0x7fff_ffff_ffff_ffff <= (t.spec_timestamp() * scale_num(
            t.spec_time_base().spec_num(),
            tb.spec_den(),
        )) / scale_den(tb.spec_num(), t.spec_time_base().spec_den()) <= 0x7fff_ffff_ffff_ffff,
    ensures
        t.spec_rescaled(tb.spec_num(), tb.spec_den()) == (t.spec_timestamp() * scale_num(
            t.spec_time_base().spec_num(),
            tb.spec_den(),
        )) / scale_den(tb.spec_num(), t.spec_time_base().spec_den()),
{
    lemma_rescale_exact(
        t.spec_timestamp(),
        t.spec_time_base().spec_num(),
        t.spec_time_base().spec_den(),
        tb.spec_num(),
        tb.spec_den(),
    );
}

/// Subtracting a duration undoes adding it (unless the sum is exactly the
/// null value, or the subtraction steps leave the `i64` range, which needs a
/// negative tick count).
pub proof fn lemma_add_then_sub(t: Timestamp, d: Duration, u: Timestamp)
    requires
        t.spec_add_defined(d),
        u.spec_timestamp() == t.spec_added(d),
        u.spec_time_base() == t.spec_time_base(),
        !u.spec_is_null(),
        (Timestamp::spec_secs_ticks(d, t.spec_time_base()) >= 0 && Timestamp::spec_nanos_ticks(
            d,
            t.spec_time_base(),
        ) >= 0) || u.spec_sub_defined(d),
    ensures
        u.spec_sub_defined(d),
        u.spec_subtracted(d) == t.spec_timestamp(),
{
}

/// Subtracting a duration undoes adding it: for a timestamp `t` that is not
/// null, when adding `d` stays in range and both the whole seconds and the
/// nanoseconds of `d` rescale into `t`'s time base without overflow, the
/// sum `u` can have `d` subtracted and that gives `t` back (in the same time
/// base). For example in 1/1000, adding and then subtracting
/// `Duration::from_millis(k)` restores the timestamp.
pub proof fn lemma_sub_undoes_add(t: Timestamp, d: Duration, u: Timestamp)
    requires
        !t.spec_is_null(),
        t.spec_add_defined(d),
        u.spec_timestamp() == t.spec_added(d),
        u.spec_time_base() == t.spec_time_base(),
        d.spec_secs() <= 0x7fff_ffff_ffff_ffff,
        rescale_in_range(
            d.spec_secs() as int,
            1,
            1,
            t.spec_time_base().spec_num(),
            t.spec_time_base().spec_den(),
        ),
        rescale_in_range(
            d.spec_nanos() as int,
            1,
            1_000_000_000,
            t.spec_time_base().spec_num(),
            t.spec_time_base().spec_den(),
        ),
    ensures
        u.spec_sub_defined(d),
        u.spec_subtracted(d) == t.spec_timestamp(),
{
    let tb = t.spec_time_base();
    lemma_rescale_nonneg(d.spec_secs() as int, 1, 1, tb.spec_num(), tb.spec_den());
    lemma_rescale_nonneg(d.spec_nanos() as int, 1, 1_000_000_000, tb.spec_num(), tb.spec_den());
    assert(wrap_i64(d.spec_secs()) == d.spec_secs());
    assert(Timestamp::spec_secs_ticks(d, tb) >= 0);
    assert(Timestamp::spec_nanos_ticks(d, tb) >= 0);
    lemma_add_then_sub(t, d, u);
}

/// Adding a duration undoes subtracting it (unless the difference is exactly
/// the null value, or the addition steps leave the `i64` range, which needs a
/// negative tick count).
pub proof fn lemma_sub_then_add(t: Timestamp, d: Duration, u: Timestamp)
    requires
        t.spec_sub_defined(d),
        u.spec_timestamp() == t.spec_subtracted(d),
        u.spec_time_base() == t.spec_time_base(),
        !u.spec_is_null(),
        (Timestamp::spec_secs_ticks(d, t.spec_time_base()) >= 0 && Timestamp::spec_nanos_ticks(
            d,
            t.spec_time_base(),
        ) >= 0) || u.spec_add_defined(d),
    ensures
        u.spec_add_defined(d),
        u.spec_added(d) == t.spec_timestamp(),
{
}

/// The difference of two timestamps is the span between them whenever
/// rounding the span to whole seconds rounds down: for timestamps `x` and
/// `y` in milliseconds with `0 <= y <= x` and less than half a second over
/// the whole seconds of `x - y`, the difference is `x - y` milliseconds (its
/// whole seconds and the rest in nanoseconds). Where the rest is half a
/// second or more, the whole seconds round up and the difference is not the
/// span.
pub proof fn lemma_millis_difference_is_span(a: Timestamp, b: Timestamp)
    requires
        a.spec_time_base().spec_num() == 1,
        a.spec_time_base().spec_den() == 1000,
        b.spec_time_base() == a.spec_time_base(),
        0 <= b.spec_timestamp() <= a.spec_timestamp(),
        (a.spec_timestamp() - b.spec_timestamp()) % 1000 < 500,
    ensures
        a.spec_elapsed_defined(b),
        (a.spec_diff_secs(b) as u64) + (a.spec_diff_nanos(b) as u32) / 1_000_000_000 == (
        a.spec_timestamp() - b.spec_timestamp()) / 1000,
        (a.spec_diff_nanos(b) as u32) % 1_000_000_000 == ((a.spec_timestamp()
            - b.spec_timestamp()) % 1000) * 1_000_000,
{
    let x = a.spec_timestamp() as int;
    let y = b.spec_timestamp() as int;
    let d = x - y;
    let tb = a.spec_time_base();
    lemma_rescale_same_base(b.spec_timestamp(), 1, 1000);
    assert(b.spec_rescaled(1, 1000) == y);
    assert(a.spec_diff(b) == d);
    let s = d / 1000;
    let r = d % 1000;
    assert(d == 1000 * s + r);
    assert(round_near(d, 1, 1000) == s) by {
        assert(d * 1 + 1000int / 2 == 1000 * s + (r + 500));
        lemma_div_multiples_vanish_fancy(s, r + 500, 1000);
    }
    assert(c_int_value(1) == 1 && c_int_value(1000) == 1000 && c_int_value(1_000_000_000)
        == 1_000_000_000);
    assert(scale_num(1, 1) == 1);
    let one = c_int_value(1);
    let thousand = c_int_value(1000);
    assert(one * thousand == 1000) by (nonlinear_arith)
        requires
            one == 1,
            thousand == 1000,
    ;
    assert(scale_den(1, 1000) == 1000);
    assert(scale_num(1, 1000) == 1000);
    assert(scale_den(1, 1) == 1);
    assert(scale_num(1, 1_000_000_000) == 1_000_000_000);
    assert(magnitude(d) == d);
    assert(rescale_spec(d, 1, 1000, 1, 1) == s);
    assert(a.spec_diff_secs(b) == s);
    assert(magnitude(s) == s);
    assert(round_near(s, 1000, 1) == s * 1000) by {
        lemma_div_multiples_vanish_fancy(s * 1000, 0, 1);
    }
    assert(rescale_keep_null(s, 1, 1, 1, 1000) == s * 1000);
    assert(a.spec_diff_rem(b) == r);
    assert(round_near(r, 1_000_000_000, 1000) == r * 1_000_000) by {
        assert(r * 1_000_000_000 + 1000int / 2 == 1000 * (r * 1_000_000) + 500);
        lemma_div_multiples_vanish_fancy(r * 1_000_000, 500, 1000);
    }
    assert(magnitude(r) == r);
    assert(a.spec_diff_nanos(b) == r * 1_000_000);
}

/// Adding (or subtracting) a duration to a timestamp that is not null moves
/// it by the duration's whole seconds rescaled from 1/1 into the timestamp's
/// time base plus its nanoseconds rescaled from 1/1_000_000_000 into that
/// time base.
pub proof fn lemma_duration_moves_by_rescaled_ticks(t: Timestamp, d: Duration)
    requires
        !t.spec_is_null(),
        d.spec_secs() <= 0x7fff_ffff_ffff_ffff,
    ensures
        t.spec_added(d) == t.spec_timestamp() + rescale_spec(
            d.spec_secs() as int,
            1,
            1,
            t.spec_time_base().spec_num(),
            t.spec_time_base().spec_den(),
        ) + rescale_spec(
            d.spec_nanos() as int,
            1,
            1_000_000_000,
            t.spec_time_base().spec_num(),
            t.spec_time_base().spec_den(),
        ),
        t.spec_subtracted(d) == t.spec_timestamp() - rescale_spec(
            d.spec_secs() as int,
            1,
            1,
            t.spec_time_base().spec_num(),
            t.spec_time_base().spec_den(),
        ) - rescale_spec(
            d.spec_nanos() as int,
            1,
            1_000_000_000,
            t.spec_time_base().spec_num(),
            t.spec_time_base().spec_den(),
        ),
{
    assert(wrap_i64(d.spec_secs()) == d.spec_secs());
}

/// In a time base `1/n`, adding a duration of `k` whole seconds to a
/// timestamp that is not null adds `k * n` ticks, and subtracting it takes
/// `k * n` ticks away (as long as `k * n` fits in an `i64`). For example in
/// 1/90000, adding one second adds 90000 ticks.
pub proof fn lemma_whole_seconds_in_ticks(t: Timestamp, d: Duration, k: u64, n: u32)
    requires
        !t.spec_is_null(),
        t.spec_time_base().spec_num() == 1,
        t.spec_time_base().spec_den() == n,
        1 <= n <= 0x7fff_ffff,
        d.spec_secs() == k,
        d.spec_nanos() == 0,
        k * n <= 0x7fff_ffff_ffff_ffff,
    ensures
        t.spec_added(d) == t.spec_timestamp() + k * n,
        t.spec_subtracted(d) == t.spec_timestamp() - k * n,
{
    assert(k <= k * n) by (nonlinear_arith)
        requires
            n >= 1,
    ;
    lemma_duration_moves_by_rescaled_ticks(t, d);
    assert(c_int_value(1) == 1 && c_int_value(n) == n && c_int_value(1_000_000_000)
        == 1_000_000_000);
    let one = c_int_value(1);
    let nn = c_int_value(n);
    let giga = c_int_value(1_000_000_000);
    assert(one * nn == n && one * one == 1 && one * giga == 1_000_000_000) by (nonlinear_arith)
        requires
            one == 1,
            nn == n,
            giga == 1_000_000_000,
    ;
    assert(scale_num(1, n) == n);
    assert(scale_den(1, 1) == 1);
    assert(scale_den(1, 1_000_000_000) == 1_000_000_000);
    assert((k as i64) * scale_num(1, n) == k * n);
    assert((k * n) % 1 == 0 && (k * n) / 1 == k * n);
    lemma_rescale_exact(k as i64, 1, 1, 1, n);
    assert(rescale_spec(k as int, 1, 1, 1, n) == k * n);
    assert(magnitude(0) == 0);
    assert(round_near(0, n as int, 1_000_000_000) == 0) by {
        assert(0 * (n as int) == 0);
    }
    assert(rescale_spec(0, 1, 1_000_000_000, 1, n) == 0);
}

/// Adding or subtracting a duration never changes a null timestamp.
pub proof fn lemma_null_absorbs_durations(t: Timestamp, d: Duration)
    requires
        t.spec_is_null(),
    ensures
        t.spec_add_defined(d),
        t.spec_sub_defined(d),
        t.spec_added(d) == t.spec_timestamp(),
        t.spec_subtracted(d) == t.spec_timestamp(),
        t.spec_micros() is None,
{
}

impl core::ops::Add<Duration> for Timestamp {
    type Output = Timestamp;

    /// Add a given duration (a null timestamp stays null).
    fn add(self, rhs: Duration) -> (r: Timestamp)
        ensures
            r.spec_time_base() == self.spec_time_base(),
            r.spec_timestamp() == self.spec_added(rhs),
    {
        let mut res = self;
        res.add_assign(rhs);
        res
    }
}

impl vstd::std_specs::ops::AddSpecImpl<Duration> for Timestamp {
    open spec fn obeys_add_spec() -> bool {
        true
    }

    open spec fn add_req(self, rhs: Duration) -> bool {
        self.spec_add_defined(rhs)
    }

    closed spec fn add_spec(self, rhs: Duration) -> Timestamp {
        Timestamp { timestamp: self.spec_added(rhs) as i64, time_base: self.time_base }
    }
}

impl core::ops::Sub<Duration> for Timestamp {
    type Output = Timestamp;

    /// Subtract a given duration (a null timestamp stays null).
    fn sub(self, rhs: Duration) -> (r: Timestamp)
        ensures
            r.spec_time_base() == self.spec_time_base(),
            r.spec_timestamp() == self.spec_subtracted(rhs),
    {
        let mut res = self;
        res.sub_assign(rhs);
        res
    }
}

impl vstd::std_specs::ops::SubSpecImpl<Duration> for Timestamp {
    open spec fn obeys_sub_spec() -> bool {
        true
    }

    open spec fn sub_req(self, rhs: Duration) -> bool {
        self.spec_sub_defined(rhs)
    }

    closed spec fn sub_spec(self, rhs: Duration) -> Timestamp {
        Timestamp { timestamp: self.spec_subtracted(rhs) as i64, time_base: self.time_base }
    }
}

impl core::ops::Sub<Timestamp> for Timestamp {
    type Output = Duration;

    /// The duration between `rhs` and this timestamp (this timestamp must not
    /// be the earlier one). The difference is taken in this timestamp's time
    /// base and split into whole seconds and the remaining nanoseconds.
    fn sub(self, rhs: Timestamp) -> (r: Duration)
        ensures
            r.spec_secs() == (self.spec_diff_secs(rhs) as u64) + (self.spec_diff_nanos(rhs) as u32)
                / 1_000_000_000,
            r.spec_nanos() == (self.spec_diff_nanos(rhs) as u32) % 1_000_000_000,
    {
        let tb = self.time_base;
        let other = rhs.with_time_base(tb);
        let diff = self.timestamp - other.timestamp;
        let secs = Timestamp::new(diff, tb).with_time_base(TimeBase::new(1, 1));
        let back = secs.with_time_base(tb).timestamp();
        let rem = diff - back;
        let nanos = match Timestamp::new(rem, tb).as_nanos() {
            Some(v) => v,
            None => {
                proof {
                    assert(false);
                }
                0
            },
        };
        Duration::new(secs.timestamp as u64, nanos as u32)
    }
}

impl vstd::std_specs::ops::SubSpecImpl<Timestamp> for Timestamp {
    open spec fn obeys_sub_spec() -> bool {
        true
    }

    open spec fn sub_req(self, rhs: Timestamp) -> bool {
        self.spec_elapsed_defined(rhs)
    }

    closed spec fn sub_spec(self, rhs: Timestamp) -> Duration {
        Duration {
            secs: ((self.spec_diff_secs(rhs) as u64) + (self.spec_diff_nanos(rhs) as u32)
                / 1_000_000_000) as u64,
            nanos: ((self.spec_diff_nanos(rhs) as u32) % 1_000_000_000) as u32,
        }
    }
}

} // verus!
