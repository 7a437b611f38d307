//! Spans of time, and conversions between units of time.

use vstd::prelude::*;

verus! {

/// Nanoseconds in one second.
pub const NANOS_PER_SEC: u32 = 1_000_000_000;

/// A span of time: whole seconds and a remainder in nanoseconds.
///
/// Two spans are ordered by their seconds first and by their nanoseconds
/// second; for spans built by the constructors here, whose nanoseconds stay
/// below one second, that is the order of their lengths.
#[derive(Debug, Clone, Copy, PartialEq, Eq, Structural)]
pub struct Duration {
    secs: u64,
    nanos: u32,
}

/// The text that the standard library's debug formatting gives a span of
/// `secs` seconds and `nanos` nanoseconds (such as `30s` or `1.5s`).
pub uninterp spec fn duration_debug(secs: u64, nanos: u32) -> Seq<char>;

/// Trusted: the `Debug` formatting of `std::time::Duration`. The result is a
/// function of the two parts alone; its exact shape is not stated.
#[verifier::external_body]
fn debug_string(secs: u64, nanos: u32) -> (r: String)
    requires
        nanos < NANOS_PER_SEC,
    ensures
        r@ == duration_debug(secs, nanos),
{
    format!("{:?}", std::time::Duration::new(secs, nanos))
}

impl Duration {
    #[verifier::type_invariant]
    closed spec fn in_normal_form(self) -> bool {
        self.nanos < NANOS_PER_SEC
    }

    /// The whole seconds of the span.
    pub closed spec fn secs_part(self) -> nat {
        self.secs as nat
    }

    /// The nanoseconds beyond the whole seconds.
    pub closed spec fn nanos_part(self) -> nat {
        self.nanos as nat
    }

    /// The length of the span in nanoseconds.
    pub open spec fn total_nanos(self) -> nat {
        self.secs_part() * 1_000_000_000 + self.nanos_part()
    }

    /// The nanosecond part is below one second.
    pub open spec fn normal(self) -> bool {
        self.nanos_part() < 1_000_000_000
    }

    /// `self` is at most `other`.
    pub open spec fn le(self, other: Duration) -> bool {
        self.secs_part() < other.secs_part() || (self.secs_part() == other.secs_part()
            && self.nanos_part() <= other.nanos_part())
    }

    /// The shorter of two spans (`self` when they are equal).
    pub open spec fn minimum(self, other: Duration) -> Duration {
        if self.le(other) {
            self
        } else {
            other
        }
    }

    /// The span of `secs` whole seconds.
    pub closed spec fn from_secs_spec(secs: u64) -> Duration {
        Duration { secs, nanos: 0 }
    }

    /// A span of `secs` whole seconds.
    #[verifier::when_used_as_spec(from_secs_spec)]
    pub fn from_secs(secs: u64) -> (r: Duration)
        ensures
            r == Duration::from_secs_spec(secs),
            r.secs_part() == secs,
            r.nanos_part() == 0,
            r.normal(),
    {
        Duration { secs, nanos: 0 }
    }

    /// A span of `millis` milliseconds.
    pub fn from_millis(millis: u64) -> (r: Duration)
        ensures
            r.secs_part() == millis / 1000,
            r.nanos_part() == (millis % 1000) * 1_000_000,
            r.total_nanos() == millis * 1_000_000,
            r.normal(),
    {
        let rest: u32 = (millis % 1000) as u32;
        let r = Duration { secs: millis / 1000, nanos: rest * 1_000_000 };
        assert(r.total_nanos() == millis * 1_000_000) by {
            assert(millis == (millis / 1000) * 1000 + millis % 1000);
            assert(((millis / 1000) * 1000 + millis % 1000) * 1_000_000 == (millis / 1000)
                * 1_000_000_000 + (millis % 1000) * 1_000_000) by (nonlinear_arith);
        }
        r
    }

    /// A span of `nanos` nanoseconds.
    pub fn from_nanos(nanos: u64) -> (r: Duration)
        ensures
            r.secs_part() == nanos / 1_000_000_000,
            r.nanos_part() == nanos % 1_000_000_000,
            r.total_nanos() == nanos,
            r.normal(),
    {
        let rest: u32 = (nanos % 1_000_000_000) as u32;
        Duration { secs: nanos / 1_000_000_000, nanos: rest }
    }

    /// A span of `secs` seconds and `nanos` nanoseconds. Whole seconds among
    /// the nanoseconds are carried over to the seconds, which must not
    /// overflow.
    pub fn new(secs: u64, nanos: u32) -> (r: Duration)
        requires
            secs + nanos / NANOS_PER_SEC <= u64::MAX,
        ensures
            r.secs_part() == secs + nanos / NANOS_PER_SEC,
            r.nanos_part() == nanos % NANOS_PER_SEC,
            r.total_nanos() == secs * 1_000_000_000 + nanos,
            r.normal(),
    {
        let carry: u32 = nanos / NANOS_PER_SEC;
        let r = Duration { secs: secs + carry as u64, nanos: nanos % NANOS_PER_SEC };
        assert(r.total_nanos() == secs * 1_000_000_000 + nanos) by {
            assert(nanos == (nanos / NANOS_PER_SEC) * 1_000_000_000 + nanos % NANOS_PER_SEC);
            assert((secs + nanos / NANOS_PER_SEC) * 1_000_000_000 == secs * 1_000_000_000 + (nanos
                / NANOS_PER_SEC) * 1_000_000_000) by (nonlinear_arith);
        }
        r
    }

    /// The whole seconds of the span.
    pub fn as_secs(&self) -> (r: u64)
        ensures
            r == self.secs_part(),
            self.normal(),
    {
        proof {
            use_type_invariant(self);
        }
        self.secs
    }

    /// The span in the notation of the standard library's debug formatting.
    pub fn debug_text(&self) -> (r: String)
        ensures
            r@ == duration_debug(self.secs_part() as u64, self.nanos_part() as u32),
    {
        proof {
            use_type_invariant(self);
        }
        debug_string(self.secs, self.nanos)
    }

    /// The nanoseconds beyond the whole seconds.
    pub fn subsec_nanos(&self) -> (r: u32)
        ensures
            r == self.nanos_part(),
    {
        self.nanos
    }

    /// The length in whole milliseconds.
    pub fn as_millis(&self) -> (r: u128)
        ensures
            r == self.secs_part() * 1000 + self.nanos_part() / 1_000_000,
    {
        (self.secs as u128) * 1000 + (self.nanos / 1_000_000) as u128
    }

    /// Whether `self` is at most `other`.
    pub fn at_most(&self, other: &Duration) -> (r: bool)
        ensures
            r == self.le(*other),
    {
        self.secs < other.secs || (self.secs == other.secs && self.nanos <= other.nanos)
    }

    /// The shorter of two spans.
    pub fn min(self, other: Duration) -> (r: Duration)
        ensures
            r == self.minimum(other),
    {
        if self.at_most(&other) {
            self
        } else {
            other
        }
    }
}

/// What `from_secs` builds: that many seconds and no nanoseconds.
pub proof fn lemma_from_secs(secs: u64)
    ensures
        Duration::from_secs_spec(secs).secs_part() == secs,
        Duration::from_secs_spec(secs).nanos_part() == 0,
        Duration::from_secs_spec(secs).normal(),
        Duration::from_secs_spec(secs).total_nanos() == secs * 1_000_000_000,
{
}

/// The order of spans is total: of two spans one is at most the other.
pub proof fn lemma_le_total(a: Duration, b: Duration)
    ensures
        a.le(b) || b.le(a),
{
}

/// The order of spans is transitive.
pub proof fn lemma_le_transitive(a: Duration, b: Duration, c: Duration)
    requires
        a.le(b),
        b.le(c),
    ensures
        a.le(c),
{
}

/// Two spans that are each at most the other are the same span.
pub proof fn lemma_le_antisymmetric(a: Duration, b: Duration)
    requires
        a.le(b),
        b.le(a),
    ensures
        a == b,
{
}

/// For spans in normal form the order is the order of their lengths.
pub proof fn lemma_le_is_length_order(a: Duration, b: Duration)
    requires
        a.normal(),
        b.normal(),
    ensures
        a.le(b) <==> a.total_nanos() <= b.total_nanos(),
{
    assert(a.secs_part() < b.secs_part() ==> a.secs_part() + 1 <= b.secs_part());
    assert(b.secs_part() < a.secs_part() ==> b.secs_part() + 1 <= a.secs_part());
    assert(a.secs_part() + 1 <= b.secs_part() ==> (a.secs_part() + 1) * 1_000_000_000
        <= b.secs_part() * 1_000_000_000) by (nonlinear_arith);
    assert(b.secs_part() + 1 <= a.secs_part() ==> (b.secs_part() + 1) * 1_000_000_000
        <= a.secs_part() * 1_000_000_000) by (nonlinear_arith);
}

/// Seconds as milliseconds.
pub fn seconds_to_millis(secs: i64) -> (r: i64)
    requires
        i64::MIN <= secs * 1000 <= i64::MAX,
    ensures
        r == secs * 1000,
{
    secs * 1000
}

/// The quotient of `a` by the positive `b`, rounded toward zero.
pub open spec fn div_toward_zero(a: int, b: int) -> int {
    if a >= 0 {
        a / b
    } else {
        -((-a) / b)
    }
}

/// Milliseconds as whole seconds, rounded toward zero.
pub fn millis_to_seconds(millis: i64) -> (r: i64)
    ensures
        r == div_toward_zero(millis as int, 1000),
{
    if millis >= 0 {
        millis / 1000
    } else if millis == i64::MIN {
        -9223372036854775
    } else {
        -((-millis) / 1000)
    }
}

/// Minutes as seconds.
pub fn minutes_to_seconds(mins: i64) -> (r: i64)
    requires
        i64::MIN <= mins * 60 <= i64::MAX,
    ensures
        r == mins * 60,
{
    mins * 60
}

/// Hours as seconds.
pub fn hours_to_seconds(hours: i64) -> (r: i64)
    requires
        i64::MIN <= hours * 3600 <= i64::MAX,
    ensures
        r == hours * 3600,
{
    hours * 3600
}

/// Days as seconds.
pub fn days_to_seconds(days: i64) -> (r: i64)
    requires
        i64::MIN <= days * 86400 <= i64::MAX,
    ensures
        r == days * 86400,
{
    days * 86400
}

} // verus!
