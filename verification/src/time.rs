//! Durations, instants, and the helpers that connect them.

use vstd::prelude::*;

verus! {

/// Nanoseconds in one millisecond.
pub const NANOS_PER_MILLISECOND: i64 = 1_000_000;

/// Nanoseconds in one second.
pub const NANOS_PER_SECOND: i64 = 1_000_000_000;

/// Nanoseconds in one minute.
pub const NANOS_PER_MINUTE: i64 = 60_000_000_000;

/// Nanoseconds in one hour.
pub const NANOS_PER_HOUR: i64 = 3_600_000_000_000;

/// Nanoseconds in one day.
pub const NANOS_PER_DAY: i64 = 86_400_000_000_000;

/// Nanoseconds in one week.
pub const NANOS_PER_WEEK: i64 = 604_800_000_000_000;

/// Nanoseconds in one fortnight (exactly two weeks).
pub const NANOS_PER_FORTNIGHT: i64 = 1_209_600_000_000_000;

proof fn lemma_magnitude_times_unit_fits(n: int, f: int)
    requires
        i64::MIN <= n <= i64::MAX,
        0 < f <= NANOS_PER_FORTNIGHT,
    ensures
        i128::MIN <= n * f <= i128::MAX,
{
    assert(i128::MIN <= n * f <= i128::MAX) by (nonlinear_arith)
        requires
            i64::MIN <= n <= i64::MAX,
            0 < f <= NANOS_PER_FORTNIGHT,
    ;
}

/// The first instant of the enclosing unit: `n` with everything below
/// `unit` cleared (`unit` counted in nanoseconds).
pub open spec fn beginning_of(n: int, unit: int) -> int {
    n - n % unit
}

/// The last instant of the enclosing unit: one nanosecond before the next
/// unit boundary.
pub open spec fn end_of(n: int, unit: int) -> int {
    n - n % unit + unit - 1
}

/// The sub-second part of an instant `n` nanoseconds from the epoch.
pub open spec fn subsec_nanos_of(n: int) -> int {
    n % (NANOS_PER_SECOND as int)
}

/// The seconds field (0 to 59) of an instant `n` nanoseconds from the
/// epoch.
pub open spec fn second_of(n: int) -> int {
    (n % (NANOS_PER_MINUTE as int)) / (NANOS_PER_SECOND as int)
}

/// The minutes field (0 to 59) of an instant `n` nanoseconds from the
/// epoch.
pub open spec fn minute_of(n: int) -> int {
    (n % (NANOS_PER_HOUR as int)) / (NANOS_PER_MINUTE as int)
}

/// A signed span of time with nanosecond precision.
///
/// The span is held as a 128-bit count of nanoseconds, wide enough that
/// every conversion from a 32-bit magnitude is exact; addition of two
/// spans is checked and reports overflow instead of wrapping.
#[derive(Clone, Copy, Debug, PartialEq, Eq, Structural, PartialOrd, Ord)]
pub struct Duration {
    nanos: i128,
}

impl View for Duration {
    type V = int;

    closed spec fn view(&self) -> int {
        self.nanos as int
    }
}

impl Duration {
    /// A span of `n` nanoseconds.
    pub fn nanoseconds(n: i64) -> (d: Duration)
        ensures
            d@ == n,
    {
        Duration { nanos: n as i128 }
    }

    /// A span of `n` milliseconds.
    pub fn milliseconds(n: i64) -> (d: Duration)
        ensures
            d@ == n * NANOS_PER_MILLISECOND,
    {
        proof {
            lemma_magnitude_times_unit_fits(n as int, NANOS_PER_MILLISECOND as int);
        }
        Duration { nanos: (n as i128) * (NANOS_PER_MILLISECOND as i128) }
    }

    /// A span of `n` seconds.
    pub fn seconds(n: i64) -> (d: Duration)
        ensures
            d@ == n * NANOS_PER_SECOND,
    {
        proof {
            lemma_magnitude_times_unit_fits(n as int, NANOS_PER_SECOND as int);
        }
        Duration { nanos: (n as i128) * (NANOS_PER_SECOND as i128) }
    }

    /// A span of `n` minutes.
    pub fn minutes(n: i64) -> (d: Duration)
        ensures
            d@ == n * NANOS_PER_MINUTE,
    {
        proof {
            lemma_magnitude_times_unit_fits(n as int, NANOS_PER_MINUTE as int);
        }
        Duration { nanos: (n as i128) * (NANOS_PER_MINUTE as i128) }
    }

    /// A span of `n` hours.
    pub fn hours(n: i64) -> (d: Duration)
        ensures
            d@ == n * NANOS_PER_HOUR,
    {
        proof {
            lemma_magnitude_times_unit_fits(n as int, NANOS_PER_HOUR as int);
        }
        Duration { nanos: (n as i128) * (NANOS_PER_HOUR as i128) }
    }

    /// A span of `n` days.
    pub fn days(n: i64) -> (d: Duration)
        ensures
            d@ == n * NANOS_PER_DAY,
    {
        proof {
            lemma_magnitude_times_unit_fits(n as int, NANOS_PER_DAY as int);
        }
        Duration { nanos: (n as i128) * (NANOS_PER_DAY as i128) }
    }

    /// A span of `n` weeks.
    pub fn weeks(n: i64) -> (d: Duration)
        ensures
            d@ == n * NANOS_PER_WEEK,
    {
        proof {
            lemma_magnitude_times_unit_fits(n as int, NANOS_PER_WEEK as int);
        }
        Duration { nanos: (n as i128) * (NANOS_PER_WEEK as i128) }
    }

    /// The sum of two spans, or `None` if it exceeds the representable
    /// range.
    pub fn checked_add(self, other: Duration) -> (r: Option<Duration>)
        ensures
            i128::MIN <= self@ + other@ <= i128::MAX <==> r is Some,
            r matches Some(d) ==> d@ == self@ + other@,
    {
        match self.nanos.checked_add(other.nanos) {
            Some(n) => Some(Duration { nanos: n }),
            None => None,
        }
    }
}

/// Every span measures a number of nanoseconds that an `i128` can hold.
pub proof fn lemma_duration_representable(d: Duration)
    ensures
        i128::MIN <= d@ <= i128::MAX,
{
}

/// Law: two spans are equal exactly when they measure the same number of
/// nanoseconds, so constructors whose contracts promise the same measure
/// return the same span.
pub proof fn lemma_duration_eq_measure(a: Duration, b: Duration)
    ensures
        a == b <==> a@ == b@,
{
}

/// Relies on `chrono::Utc::now`, which reads the system clock as a UTC
/// instant (and panics if the clock is set before the Unix epoch), and on
/// `chrono::DateTime::timestamp_nanos_opt`, which reads that instant out
/// as nanoseconds since the epoch, returning `None` when the instant does
/// not fit in an `i64`. A returned reading is therefore never negative.
#[verifier::external_body]
fn clock_now_nanos() -> (r: Option<i64>)
    ensures
        r matches Some(n) ==> n >= 0,
{
    chrono::Utc::now().timestamp_nanos_opt()
}

/// The remainder of `n` modulo a positive `unit`, always in
/// `0 .. unit`.
fn rem_euclid_unit(n: i64, unit: i64) -> (r: i64)
    requires
        0 < unit,
    ensures
        r == n as int % unit as int,
        0 <= r < unit,
{
    proof {
        vstd::arithmetic::div_mod::lemma_mod_division_less_than_divisor(n as int, unit as int);
    }
    match n.checked_rem_euclid(unit) {
        Some(r) => r,
        None => vstd::pervasive::unreached(),
    }
}

/// An absolute instant in UTC, held as a signed count of nanoseconds from
/// the Unix epoch.
#[derive(Clone, Copy, Debug, PartialEq, Eq, Structural, PartialOrd, Ord)]
pub struct Timestamp {
    nanos: i64,
}

impl View for Timestamp {
    type V = int;

    closed spec fn view(&self) -> int {
        self.nanos as int
    }
}

impl Timestamp {
    /// The instant `n` nanoseconds from the Unix epoch.
    pub fn from_nanos(n: i64) -> (t: Timestamp)
        ensures
            t@ == n,
    {
        Timestamp { nanos: n }
    }

    /// The instant as nanoseconds from the Unix epoch.
    pub fn as_nanos(&self) -> (n: i64)
        ensures
            n == self@,
    {
        self.nanos
    }

    /// The current wall-clock instant, or `None` when the clock reads an
    /// instant whose nanosecond count does not fit in the representable
    /// range. A reading is never before the epoch.
    pub fn now() -> (r: Option<Timestamp>)
        ensures
            r matches Some(t) ==> t@ >= 0,
    {
        match clock_now_nanos() {
            Some(n) => Some(Timestamp { nanos: n }),
            None => None,
        }
    }

    /// The instant advanced by `d`, or `None` when the sum leaves the
    /// representable range.
    pub fn checked_add_signed(self, d: Duration) -> (r: Option<Timestamp>)
        ensures
            r is Some <==> i64::MIN <= self@ + d@ <= i64::MAX,
            r matches Some(t) ==> t@ == self@ + d@,
    {
        match (self.nanos as i128).checked_add(d.nanos) {
            Some(s) => if i64::MIN as i128 <= s && s <= i64::MAX as i128 {
                Some(Timestamp { nanos: s as i64 })
            } else {
                None
            },
            None => None,
        }
    }

    /// The instant receded by `d`, or `None` when the difference leaves
    /// the representable range.
    pub fn checked_sub_signed(self, d: Duration) -> (r: Option<Timestamp>)
        ensures
            r is Some <==> i64::MIN <= self@ - d@ <= i64::MAX,
            r matches Some(t) ==> t@ == self@ - d@,
    {
        match (self.nanos as i128).checked_sub(d.nanos) {
            Some(s) => if i64::MIN as i128 <= s && s <= i64::MAX as i128 {
                Some(Timestamp { nanos: s as i64 })
            } else {
                None
            },
            None => None,
        }
    }

    /// The minutes field of the instant, 0 to 59.
    pub fn minute(&self) -> (m: u32)
        ensures
            m == minute_of(self@),
            m < 60,
    {
        let rem = rem_euclid_unit(self.nanos, NANOS_PER_HOUR);
        proof {
            vstd::arithmetic::div_mod::lemma_multiply_divide_lt(
                rem as int,
                NANOS_PER_MINUTE as int,
                60,
            );
        }
        ((rem as u64) / (NANOS_PER_MINUTE as u64)) as u32
    }

    /// The seconds field of the instant, 0 to 59.
    pub fn second(&self) -> (s: u32)
        ensures
            s == second_of(self@),
            s < 60,
    {
        let rem = rem_euclid_unit(self.nanos, NANOS_PER_MINUTE);
        proof {
            vstd::arithmetic::div_mod::lemma_multiply_divide_lt(
                rem as int,
                NANOS_PER_SECOND as int,
                60,
            );
        }
        ((rem as u64) / (NANOS_PER_SECOND as u64)) as u32
    }

    /// The sub-second field of the instant, 0 to 999,999,999 nanoseconds.
    pub fn nanosecond(&self) -> (ns: u32)
        ensures
            ns == subsec_nanos_of(self@),
            ns < 1_000_000_000,
    {
        let rem = rem_euclid_unit(self.nanos, NANOS_PER_SECOND);
        rem as u32
    }
}

/// Every instant lies at a number of nanoseconds that an `i64` can hold.
pub proof fn lemma_timestamp_representable(t: Timestamp)
    ensures
        i64::MIN <= t@ <= i64::MAX,
{
}

/// Law: two instants are equal exactly when they lie at the same number
/// of nanoseconds from the epoch.
pub proof fn lemma_timestamp_eq_measure(a: Timestamp, b: Timestamp)
    ensures
        a == b <==> a@ == b@,
{
}

/// Turns an integer magnitude into a semantic span of time.
///
/// Each singular form is an alias of its plural: both promise exactly the
/// same measure, so by `lemma_duration_eq_measure` they return equal
/// spans.
pub trait TimeDuration {
    /// The magnitude the conversions multiply, as a mathematical integer.
    spec fn magnitude(&self) -> int;

    /// The magnitude read as a count of seconds, converted to the
    /// equivalent span of milliseconds (the duration-typed variant of
    /// this conversion: one magnitude of seconds is a thousand
    /// milliseconds).
    fn in_milliseconds(&self) -> (d: Duration)
        ensures
            d@ == self.magnitude() * 1000 * NANOS_PER_MILLISECOND,
    ;

    /// A span of `magnitude` seconds.
    fn seconds(&self) -> (d: Duration)
        ensures
            d@ == self.magnitude() * NANOS_PER_SECOND,
    ;

    /// A span of `magnitude` seconds.
    fn second(&self) -> (d: Duration)
        ensures
            d@ == self.magnitude() * NANOS_PER_SECOND,
    {
        self.seconds()
    }

    /// A span of `magnitude` minutes.
    fn minutes(&self) -> (d: Duration)
        ensures
            d@ == self.magnitude() * NANOS_PER_MINUTE,
    ;

    /// A span of `magnitude` minutes.
    fn minute(&self) -> (d: Duration)
        ensures
            d@ == self.magnitude() * NANOS_PER_MINUTE,
    {
        self.minutes()
    }

    /// A span of `magnitude` hours.
    fn hours(&self) -> (d: Duration)
        ensures
            d@ == self.magnitude() * NANOS_PER_HOUR,
    ;

    /// A span of `magnitude` hours.
    fn hour(&self) -> (d: Duration)
        ensures
            d@ == self.magnitude() * NANOS_PER_HOUR,
    {
        self.hours()
    }

    /// A span of `magnitude` days.
    fn days(&self) -> (d: Duration)
        ensures
            d@ == self.magnitude() * NANOS_PER_DAY,
    ;

    /// A span of `magnitude` days.
    fn day(&self) -> (d: Duration)
        ensures
            d@ == self.magnitude() * NANOS_PER_DAY,
    {
        self.days()
    }

    /// A span of `magnitude` weeks.
    fn weeks(&self) -> (d: Duration)
        ensures
            d@ == self.magnitude() * NANOS_PER_WEEK,
    ;

    /// A span of `magnitude` weeks.
    fn week(&self) -> (d: Duration)
        ensures
            d@ == self.magnitude() * NANOS_PER_WEEK,
    {
        self.weeks()
    }

    /// A span of `magnitude` fortnights, a fortnight being exactly two
    /// weeks.
    fn fortnights(&self) -> (d: Duration)
        ensures
            d@ == self.magnitude() * NANOS_PER_FORTNIGHT,
    ;

    /// A span of `magnitude` fortnights.
    fn fortnight(&self) -> (d: Duration)
        ensures
            d@ == self.magnitude() * NANOS_PER_FORTNIGHT,
    {
        self.fortnights()
    }
}

impl TimeDuration for i32 {
    open spec fn magnitude(&self) -> int {
        *self as int
    }

    fn in_milliseconds(&self) -> (d: Duration) {
        Duration::milliseconds((*self as i64) * 1000)
    }

    fn seconds(&self) -> (d: Duration) {
        Duration::seconds(*self as i64)
    }

    fn minutes(&self) -> (d: Duration) {
        Duration::minutes(*self as i64)
    }

    fn hours(&self) -> (d: Duration) {
        Duration::hours(*self as i64)
    }

    fn days(&self) -> (d: Duration) {
        Duration::days(*self as i64)
    }

    fn weeks(&self) -> (d: Duration) {
        Duration::weeks(*self as i64)
    }

    fn fortnights(&self) -> (d: Duration) {
        Duration::weeks((*self as i64) * 2)
    }
}

/// Resolves a span of time against the wall clock, forwards for
/// `from_now` and its synonyms, backwards for `ago` and its synonyms.
///
/// The clock is read once per call, so nothing relates two calls; each
/// contract instead says how the result stands to the span and to some
/// representable post-epoch clock reading.
pub trait TimeRange {
    /// The span being resolved, as a signed count of nanoseconds.
    spec fn span(&self) -> int;

    /// The current instant advanced by the span: some non-negative clock
    /// reading plus `span`. `None` when the clock or the sum leaves the
    /// representable range.
    fn from_now(&self) -> (r: Option<Timestamp>)
        ensures
            r matches Some(t) ==> 0 <= t@ - self.span() <= i64::MAX,
    ;

    /// Synonym of `from_now`.
    fn since(&self) -> (r: Option<Timestamp>)
        ensures
            r matches Some(t) ==> 0 <= t@ - self.span() <= i64::MAX,
    {
        self.from_now()
    }

    /// Synonym of `from_now`.
    fn after(&self) -> (r: Option<Timestamp>)
        ensures
            r matches Some(t) ==> 0 <= t@ - self.span() <= i64::MAX,
    {
        self.from_now()
    }

    /// The current instant receded by the span: some non-negative clock
    /// reading minus `span`. `None` when the clock or the difference
    /// leaves the representable range.
    fn ago(&self) -> (r: Option<Timestamp>)
        ensures
            r matches Some(t) ==> 0 <= t@ + self.span() <= i64::MAX,
    ;

    /// Synonym of `ago`.
    fn until(&self) -> (r: Option<Timestamp>)
        ensures
            r matches Some(t) ==> 0 <= t@ + self.span() <= i64::MAX,
    {
        self.ago()
    }

    /// Synonym of `ago`.
    fn before(&self) -> (r: Option<Timestamp>)
        ensures
            r matches Some(t) ==> 0 <= t@ + self.span() <= i64::MAX,
    {
        self.ago()
    }
}

impl TimeRange for Duration {
    open spec fn span(&self) -> int {
        self@
    }

    fn from_now(&self) -> (r: Option<Timestamp>) {
        match Timestamp::now() {
            Some(now) => now.checked_add_signed(*self),
            None => None,
        }
    }

    fn ago(&self) -> (r: Option<Timestamp>) {
        match Timestamp::now() {
            Some(now) => now.checked_sub_signed(*self),
            None => None,
        }
    }
}

/// Truncates an instant to the first or last nanosecond of its enclosing
/// hour or minute.
pub trait TimeCalculation: Sized {
    /// The instant as nanoseconds from the epoch.
    spec fn instant(&self) -> int;

    /// The first instant of the hour containing `self`, or `None` when it
    /// lies below the representable range.
    fn beginning_of_hour(&self) -> (r: Option<Self>)
        ensures
            r is Some <==> i64::MIN <= beginning_of(self.instant(), NANOS_PER_HOUR as int),
            r matches Some(b) ==> b.instant() == beginning_of(
                self.instant(),
                NANOS_PER_HOUR as int,
            ),
    ;

    /// The last nanosecond of the hour containing `self`, or `None` when
    /// the hour's bracket leaves the representable range.
    fn end_of_hour(&self) -> (r: Option<Self>)
        ensures
            r is Some <==> (i64::MIN <= beginning_of(self.instant(), NANOS_PER_HOUR as int)
                && end_of(self.instant(), NANOS_PER_HOUR as int) <= i64::MAX),
            r matches Some(e) ==> e.instant() == end_of(self.instant(), NANOS_PER_HOUR as int),
    ;

    /// The first instant of the minute containing `self`, or `None` when
    /// it lies below the representable range.
    fn beginning_of_minute(&self) -> (r: Option<Self>)
        ensures
            r is Some <==> i64::MIN <= beginning_of(self.instant(), NANOS_PER_MINUTE as int),
            r matches Some(b) ==> b.instant() == beginning_of(
                self.instant(),
                NANOS_PER_MINUTE as int,
            ),
    ;

    /// The last nanosecond of the minute containing `self`, or `None`
    /// when the minute's bracket leaves the representable range.
    fn end_of_minute(&self) -> (r: Option<Self>)
        ensures
            r is Some <==> (i64::MIN <= beginning_of(self.instant(), NANOS_PER_MINUTE as int)
                && end_of(self.instant(), NANOS_PER_MINUTE as int) <= i64::MAX),
            r matches Some(e) ==> e.instant() == end_of(self.instant(), NANOS_PER_MINUTE as int),
    ;
}

impl TimeCalculation for Timestamp {
    open spec fn instant(&self) -> int {
        self@
    }

    fn beginning_of_hour(&self) -> (r: Option<Timestamp>) {
        let rem = rem_euclid_unit(self.nanos, NANOS_PER_HOUR);
        match self.nanos.checked_sub(rem) {
            Some(n) => Some(Timestamp { nanos: n }),
            None => None,
        }
    }

    fn end_of_hour(&self) -> (r: Option<Timestamp>) {
        match self.beginning_of_hour() {
            Some(b) => match b.nanos.checked_add(NANOS_PER_HOUR - 1) {
                Some(n) => Some(Timestamp { nanos: n }),
                None => None,
            },
            None => None,
        }
    }

    fn beginning_of_minute(&self) -> (r: Option<Timestamp>) {
        let rem = rem_euclid_unit(self.nanos, NANOS_PER_MINUTE);
        match self.nanos.checked_sub(rem) {
            Some(n) => Some(Timestamp { nanos: n }),
            None => None,
        }
    }

    fn end_of_minute(&self) -> (r: Option<Timestamp>) {
        match self.beginning_of_minute() {
            Some(b) => match b.nanos.checked_add(NANOS_PER_MINUTE - 1) {
                Some(n) => Some(Timestamp { nanos: n }),
                None => None,
            },
            None => None,
        }
    }
}

/// Law: a magnitude of minutes measures sixty times as many seconds.
pub proof fn lemma_minutes_in_seconds(n: int)
    ensures
        n * NANOS_PER_MINUTE == (60 * n) * NANOS_PER_SECOND,
{
    assert(n * NANOS_PER_MINUTE == (60 * n) * NANOS_PER_SECOND) by (nonlinear_arith)
        requires
            NANOS_PER_MINUTE == 60 * NANOS_PER_SECOND,
    ;
}

/// Law: a magnitude of hours measures 3600 times as many seconds.
pub proof fn lemma_hours_in_seconds(n: int)
    ensures
        n * NANOS_PER_HOUR == (3600 * n) * NANOS_PER_SECOND,
{
    assert(n * NANOS_PER_HOUR == (3600 * n) * NANOS_PER_SECOND) by (nonlinear_arith)
        requires
            NANOS_PER_HOUR == 3600 * NANOS_PER_SECOND,
    ;
}

/// Law: a magnitude of days measures 86,400 times as many seconds.
pub proof fn lemma_days_in_seconds(n: int)
    ensures
        n * NANOS_PER_DAY == (86_400 * n) * NANOS_PER_SECOND,
{
    assert(n * NANOS_PER_DAY == (86_400 * n) * NANOS_PER_SECOND) by (nonlinear_arith)
        requires
            NANOS_PER_DAY == 86_400 * NANOS_PER_SECOND,
    ;
}

/// Law: a magnitude of weeks measures 604,800 times as many seconds.
pub proof fn lemma_weeks_in_seconds(n: int)
    ensures
        n * NANOS_PER_WEEK == (604_800 * n) * NANOS_PER_SECOND,
{
    assert(n * NANOS_PER_WEEK == (604_800 * n) * NANOS_PER_SECOND) by (nonlinear_arith)
        requires
            NANOS_PER_WEEK == 604_800 * NANOS_PER_SECOND,
    ;
}

/// Law: a magnitude of fortnights measures twice as many weeks, and
/// 1,209,600 times as many seconds.
pub proof fn lemma_fortnights_in_weeks(n: int)
    ensures
        n * NANOS_PER_FORTNIGHT == (2 * n) * NANOS_PER_WEEK,
        n * NANOS_PER_FORTNIGHT == (1_209_600 * n) * NANOS_PER_SECOND,
{
    assert(n * NANOS_PER_FORTNIGHT == (2 * n) * NANOS_PER_WEEK && n * NANOS_PER_FORTNIGHT == (
    1_209_600 * n) * NANOS_PER_SECOND) by (nonlinear_arith)
        requires
            NANOS_PER_FORTNIGHT == 2 * NANOS_PER_WEEK,
            NANOS_PER_FORTNIGHT == 1_209_600 * NANOS_PER_SECOND,
    ;
}

/// The beginning of a unit is a multiple of that unit and starts the
/// half-open window of one unit's width that contains `n`.
proof fn lemma_beginning_multiple(n: int, unit: int)
    requires
        0 < unit,
    ensures
        beginning_of(n, unit) % unit == 0,
        beginning_of(n, unit) <= n < beginning_of(n, unit) + unit,
{
    vstd::arithmetic::div_mod::lemma_fundamental_div_mod(n, unit);
    vstd::arithmetic::div_mod::lemma_mod_division_less_than_divisor(n, unit);
    let k = n / unit;
    assert(beginning_of(n, unit) == unit * k);
    assert(unit * k == k * unit) by (nonlinear_arith);
    vstd::arithmetic::div_mod::lemma_mod_multiples_basic(k, unit);
}

/// A multiple of `f * small` is a multiple of `small`.
proof fn lemma_multiple_of_factor(b: int, big: int, f: int, small: int)
    requires
        0 < big,
        0 < small,
        big == f * small,
        b % big == 0,
    ensures
        b % small == 0,
{
    vstd::arithmetic::div_mod::lemma_fundamental_div_mod(b, big);
    let k = b / big;
    assert(b == (f * k) * small) by (nonlinear_arith)
        requires
            big == f * small,
            b == big * k,
    ;
    vstd::arithmetic::div_mod::lemma_mod_multiples_basic(f * k, small);
}

/// At a multiple of `unit`, the remainder `offset` nanoseconds later is
/// `offset` reduced modulo `unit`.
proof fn lemma_offset_from_multiple(b: int, offset: int, unit: int)
    requires
        0 < unit,
        b % unit == 0,
    ensures
        (b + offset) % unit == offset % unit,
{
    vstd::arithmetic::div_mod::lemma_fundamental_div_mod(b, unit);
    vstd::arithmetic::div_mod::lemma_mod_multiples_vanish(b / unit, offset, unit);
}

/// Law: the beginning of the hour has zero minutes, zero seconds and a
/// zero sub-second field; the end of the hour reads 59 minutes, 59
/// seconds and 999,999,999 nanoseconds; the two bracket the instant, one
/// hour minus one nanosecond apart.
pub proof fn lemma_hour_bracket(t: int)
    ensures
        minute_of(beginning_of(t, NANOS_PER_HOUR as int)) == 0,
        second_of(beginning_of(t, NANOS_PER_HOUR as int)) == 0,
        subsec_nanos_of(beginning_of(t, NANOS_PER_HOUR as int)) == 0,
        minute_of(end_of(t, NANOS_PER_HOUR as int)) == 59,
        second_of(end_of(t, NANOS_PER_HOUR as int)) == 59,
        subsec_nanos_of(end_of(t, NANOS_PER_HOUR as int)) == 999_999_999,
        beginning_of(t, NANOS_PER_HOUR as int) <= t <= end_of(t, NANOS_PER_HOUR as int),
        end_of(t, NANOS_PER_HOUR as int) - beginning_of(t, NANOS_PER_HOUR as int)
            == NANOS_PER_HOUR - 1,
{
    let hour = NANOS_PER_HOUR as int;
    let minute = NANOS_PER_MINUTE as int;
    let second = NANOS_PER_SECOND as int;
    let b = beginning_of(t, hour);
    let e = end_of(t, hour);
    lemma_beginning_multiple(t, hour);
    lemma_multiple_of_factor(b, hour, 60, minute);
    lemma_multiple_of_factor(b, hour, 3600, second);
    lemma_offset_from_multiple(b, hour - 1, hour);
    lemma_offset_from_multiple(b, hour - 1, minute);
    lemma_offset_from_multiple(b, hour - 1, second);
    vstd::arithmetic::div_mod::lemma_fundamental_div_mod_converse(hour - 1, hour, 0, hour - 1);
    vstd::arithmetic::div_mod::lemma_fundamental_div_mod_converse(hour - 1, minute, 59, minute - 1);
    vstd::arithmetic::div_mod::lemma_fundamental_div_mod_converse(hour - 1, second, 3599, second - 1);
    vstd::arithmetic::div_mod::lemma_fundamental_div_mod_converse(minute - 1, second, 59, second - 1);
    vstd::arithmetic::div_mod::lemma_fundamental_div_mod_converse(0, minute, 0, 0);
    vstd::arithmetic::div_mod::lemma_fundamental_div_mod_converse(0, second, 0, 0);
}

/// Law: the beginning of the minute has zero seconds and a zero
/// sub-second field; the end of the minute reads 59 seconds and
/// 999,999,999 nanoseconds; the two bracket the instant, one minute minus
/// one nanosecond apart.
pub proof fn lemma_minute_bracket(t: int)
    ensures
        second_of(beginning_of(t, NANOS_PER_MINUTE as int)) == 0,
        subsec_nanos_of(beginning_of(t, NANOS_PER_MINUTE as int)) == 0,
        second_of(end_of(t, NANOS_PER_MINUTE as int)) == 59,
        subsec_nanos_of(end_of(t, NANOS_PER_MINUTE as int)) == 999_999_999,
        beginning_of(t, NANOS_PER_MINUTE as int) <= t <= end_of(t, NANOS_PER_MINUTE as int),
        end_of(t, NANOS_PER_MINUTE as int) - beginning_of(t, NANOS_PER_MINUTE as int)
            == NANOS_PER_MINUTE - 1,
{
    let minute = NANOS_PER_MINUTE as int;
    let second = NANOS_PER_SECOND as int;
    let b = beginning_of(t, minute);
    lemma_beginning_multiple(t, minute);
    lemma_multiple_of_factor(b, minute, 60, second);
    lemma_offset_from_multiple(b, minute - 1, minute);
    lemma_offset_from_multiple(b, minute - 1, second);
    vstd::arithmetic::div_mod::lemma_fundamental_div_mod_converse(minute - 1, minute, 0, minute - 1);
    vstd::arithmetic::div_mod::lemma_fundamental_div_mod_converse(minute - 1, second, 59, second - 1);
    vstd::arithmetic::div_mod::lemma_fundamental_div_mod_converse(0, second, 0, 0);
}

/// Law: truncating to the beginning of the hour is idempotent, and so is
/// truncating to the beginning of the minute.
pub proof fn lemma_beginning_idempotent(t: int)
    ensures
        beginning_of(beginning_of(t, NANOS_PER_HOUR as int), NANOS_PER_HOUR as int)
            == beginning_of(t, NANOS_PER_HOUR as int),
        beginning_of(beginning_of(t, NANOS_PER_MINUTE as int), NANOS_PER_MINUTE as int)
            == beginning_of(t, NANOS_PER_MINUTE as int),
{
    lemma_beginning_multiple(t, NANOS_PER_HOUR as int);
    lemma_beginning_multiple(t, NANOS_PER_MINUTE as int);
}

} // verus!
