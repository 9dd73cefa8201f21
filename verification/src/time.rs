//! Points in time and spans of time: the arithmetic on `Timespec` that the
//! portable `SystemTime` and `Instant` types rest on.
use vstd::prelude::*;
use crate::c;
use crate::error::{Error, ErrorKind};

verus! {

/// Nanoseconds in one second.
pub const NSEC_PER_SEC: u64 = 1_000_000_000;

/// A span of time: whole seconds and the nanoseconds below one second.
#[derive(Debug, Clone, Copy, PartialEq, Eq, Structural)]
pub struct Duration {
    secs: u64,
    nanos: u32,
}

impl Duration {
    #[verifier::type_invariant]
    spec fn inv(self) -> bool {
        self.nanos < NSEC_PER_SEC
    }

    /// The whole seconds of this span.
    pub closed spec fn spec_secs(self) -> u64 {
        self.secs
    }

    /// The nanoseconds of this span below one second.
    pub closed spec fn spec_nanos(self) -> u32 {
        self.nanos
    }

    /// The length of this span in nanoseconds.
    pub open spec fn total(self) -> int {
        self.spec_secs() * 1_000_000_000 + self.spec_nanos()
    }

    /// Whether the sub-second part is below one second, as it is for every
    /// span that executable code holds.
    pub open spec fn wf(self) -> bool {
        self.spec_nanos() < NSEC_PER_SEC
    }

    /// Two well-formed spans of equal length are equal.
    pub proof fn lemma_total_determines(self, other: Duration)
        requires
            self.wf(),
            other.wf(),
            self.total() == other.total(),
        ensures
            self == other,
    {
        if self.secs < other.secs {
            assert(self.total() < other.total());
        } else if self.secs > other.secs {
            assert(self.total() > other.total());
        }
    }

    /// A span of `secs` seconds and `nanos` nanoseconds; nanoseconds of a
    /// second or more carry into the seconds.
    pub fn new(secs: u64, nanos: u32) -> (d: Duration)
        requires
            secs + nanos / 1_000_000_000 <= u64::MAX,
        ensures
            d.wf(),
            d.total() == secs * 1_000_000_000 + nanos,
    {
        let carry = nanos / 1_000_000_000;
        let rest = nanos % 1_000_000_000;
        Duration { secs: secs + carry as u64, nanos: rest }
    }

    /// The whole seconds of this span.
    pub fn as_secs(&self) -> (s: u64)
        ensures
            s == self.spec_secs(),
    {
        self.secs
    }

    /// The nanoseconds of this span below one second.
    pub fn subsec_nanos(&self) -> (n: u32)
        ensures
            n == self.spec_nanos(),
            n < NSEC_PER_SEC,
    {
        proof {
            use_type_invariant(self);
        }
        self.nanos
    }
}

/// A point in time: seconds relative to the clock's origin, and the
/// nanoseconds below one second.
#[derive(Debug, Clone, Copy, PartialEq, Eq, Structural)]
pub struct Timespec {
    tv_sec: i64,
    tv_nsec: u32,
}

/// Whether a count of nanoseconds since the origin is a point that a
/// `Timespec` can hold (its seconds fit in an `i64`).
pub open spec fn timespec_fits(total: int) -> bool {
    i64::MIN * 1_000_000_000 <= total < (i64::MAX + 1) * 1_000_000_000
}

impl Timespec {
    #[verifier::type_invariant]
    spec fn inv(self) -> bool {
        self.tv_nsec < NSEC_PER_SEC
    }

    /// The seconds of this point.
    pub closed spec fn spec_sec(self) -> i64 {
        self.tv_sec
    }

    /// The nanoseconds of this point below one second.
    pub closed spec fn spec_nsec(self) -> u32 {
        self.tv_nsec
    }

    /// This point as nanoseconds since the clock's origin.
    pub open spec fn total(self) -> int {
        self.spec_sec() * 1_000_000_000 + self.spec_nsec()
    }

    /// Whether this point comes no earlier than `other` in the order of
    /// (seconds, nanoseconds) that the comparison operators use.
    pub open spec fn spec_ge(self, other: Timespec) -> bool {
        self.spec_sec() > other.spec_sec()
            || (self.spec_sec() == other.spec_sec() && self.spec_nsec() >= other.spec_nsec())
    }

    /// Whether the sub-second part is below one second, as it is for every
    /// point that executable code holds.
    pub open spec fn wf(self) -> bool {
        self.spec_nsec() < NSEC_PER_SEC
    }

    /// Every well-formed point lies in the range that a `Timespec` can hold.
    pub proof fn lemma_fits(self)
        requires
            self.wf(),
        ensures
            timespec_fits(self.total()),
    {
    }

    /// Two well-formed points with the same count of nanoseconds are equal.
    pub proof fn lemma_total_determines(self, other: Timespec)
        requires
            self.wf(),
            other.wf(),
            self.total() == other.total(),
        ensures
            self == other,
    {
        if self.tv_sec < other.tv_sec {
            assert(self.total() < other.total());
        } else if self.tv_sec > other.tv_sec {
            assert(self.total() > other.total());
        }
    }

    /// The lexicographic order on (seconds, nanoseconds) is the order of the
    /// points in time.
    pub proof fn lemma_order_is_time_order(self, other: Timespec)
        requires
            self.wf(),
            other.wf(),
        ensures
            self.spec_ge(other) <==> self.total() >= other.total(),
    {
    }

    /// The latest point a `Timespec` can hold.
    pub fn max_value() -> (t: Timespec)
        ensures
            t.spec_sec() == i64::MAX,
            t.spec_nsec() == NSEC_PER_SEC - 1,
    {
        Timespec { tv_sec: i64::MAX, tv_nsec: 999_999_999 }
    }

    /// The earliest point a `Timespec` can hold.
    pub fn min_value() -> (t: Timespec)
        ensures
            t.spec_sec() == i64::MIN,
            t.spec_nsec() == 0,
    {
        Timespec { tv_sec: i64::MIN, tv_nsec: 0 }
    }

    /// The clock's origin.
    pub fn zero() -> (t: Timespec)
        ensures
            t.spec_sec() == 0,
            t.spec_nsec() == 0,
            t.total() == 0,
    {
        Timespec { tv_sec: 0, tv_nsec: 0 }
    }

    /// The point `tv_sec` seconds and `tv_nsec` nanoseconds after the origin;
    /// fails with `InvalidData` unless `0 <= tv_nsec < 1_000_000_000`.
    pub fn new(tv_sec: i64, tv_nsec: i64) -> (r: Result<Timespec, Error>)
        ensures
            0 <= tv_nsec < NSEC_PER_SEC ==> (r matches Ok(t) && t.wf() && t.spec_sec() == tv_sec
                && t.spec_nsec() == tv_nsec),
            !(0 <= tv_nsec < NSEC_PER_SEC) ==> (r matches Err(e) && e.is_simple(
                ErrorKind::InvalidData,
                "invalid timestamp"@,
            )),
    {
        if tv_nsec >= 0 && tv_nsec < NSEC_PER_SEC as i64 {
            Ok(Timespec { tv_sec, tv_nsec: tv_nsec as u32 })
        } else {
            let message = "invalid timestamp";
            proof {
                reveal_strlit("invalid timestamp");
            }
            Err(Error::Simple { kind: ErrorKind::InvalidData, message })
        }
    }

    /// The seconds of this point.
    pub fn tv_sec(&self) -> (s: i64)
        ensures
            s == self.spec_sec(),
    {
        self.tv_sec
    }

    /// The nanoseconds of this point below one second.
    pub fn tv_nsec(&self) -> (n: u32)
        ensures
            n == self.spec_nsec(),
            n < NSEC_PER_SEC,
    {
        proof {
            use_type_invariant(self);
        }
        self.tv_nsec
    }

    /// Whether this point comes no earlier than `other`.
    pub fn ge(&self, other: &Timespec) -> (r: bool)
        ensures
            r == self.spec_ge(*other),
    {
        self.tv_sec > other.tv_sec || (self.tv_sec == other.tv_sec && self.tv_nsec
            >= other.tv_nsec)
    }

    /// The span from `b` to `a`, for `a` no earlier than `b`.
    fn sub_ge(a: &Timespec, b: &Timespec) -> (d: Duration)
        requires
            a.total() >= b.total(),
        ensures
            d.wf(),
            d.total() == a.total() - b.total(),
    {
        proof {
            use_type_invariant(a);
            use_type_invariant(b);
        }
        if a.tv_nsec >= b.tv_nsec {
            let secs = (a.tv_sec as i128 - b.tv_sec as i128) as u64;
            Duration::new(secs, a.tv_nsec - b.tv_nsec)
        } else {
            let secs = (a.tv_sec as i128 - 1 - b.tv_sec as i128) as u64;
            Duration::new(secs, a.tv_nsec + 1_000_000_000 - b.tv_nsec)
        }
    }

    /// The span from `other` to `self`: `Ok` with its length when `self` is
    /// no earlier than `other`, `Err` with the length of the span back from
    /// `other` to `self` otherwise.
    pub fn sub_timespec(&self, other: &Timespec) -> (r: Result<Duration, Duration>)
        ensures
            self.total() >= other.total() ==> (r matches Ok(d) && d.wf() && d.total() == self.total()
                - other.total()),
            self.total() < other.total() ==> (r matches Err(d) && d.wf() && d.total() == other.total()
                - self.total()),
    {
        proof {
            use_type_invariant(self);
            use_type_invariant(other);
            self.lemma_order_is_time_order(*other);
        }
        if self.ge(other) {
            Ok(Self::sub_ge(self, other))
        } else {
            Err(Self::sub_ge(other, self))
        }
    }

    /// The point `other` after this one, or `None` when it lies beyond the
    /// range of a `Timespec`.
    pub fn checked_add_duration(&self, other: &Duration) -> (r: Option<Timespec>)
        ensures
            timespec_fits(self.total() + other.total()) ==> (r matches Some(t) && t.wf() && t.total()
                == self.total() + other.total()),
            !timespec_fits(self.total() + other.total()) ==> r is None,
    {
        proof {
            use_type_invariant(self);
            use_type_invariant(other);
        }
        let mut secs: i128 = self.tv_sec as i128 + other.as_secs() as i128;
        let mut nsec: u32 = other.subsec_nanos() + self.tv_nsec;
        if nsec >= 1_000_000_000 {
            nsec = nsec - 1_000_000_000;
            secs = secs + 1;
        }
        if secs < i64::MIN as i128 || secs > i64::MAX as i128 {
            None
        } else {
            Some(Timespec { tv_sec: secs as i64, tv_nsec: nsec })
        }
    }

    /// The point `other` before this one, or `None` when it lies before the
    /// range of a `Timespec`.
    pub fn checked_sub_duration(&self, other: &Duration) -> (r: Option<Timespec>)
        ensures
            timespec_fits(self.total() - other.total()) ==> (r matches Some(t) && t.wf() && t.total()
                == self.total() - other.total()),
            !timespec_fits(self.total() - other.total()) ==> r is None,
    {
        proof {
            use_type_invariant(self);
            use_type_invariant(other);
        }
        let mut secs: i128 = self.tv_sec as i128 - other.as_secs() as i128;
        let mut nsec: i32 = self.tv_nsec as i32 - other.subsec_nanos() as i32;
        if nsec < 0 {
            nsec = nsec + 1_000_000_000;
            secs = secs - 1;
        }
        if secs < i64::MIN as i128 || secs > i64::MAX as i128 {
            None
        } else {
            Some(Timespec { tv_sec: secs as i64, tv_nsec: nsec as u32 })
        }
    }

    /// This point in the layout the clock system calls use.
    pub fn to_timespec(&self) -> (r: Option<c::timespec_t>)
        ensures
            r matches Some(t) && t.tv_sec == self.spec_sec() && t.tv_nsec == self.spec_nsec(),
    {
        Some(c::timespec_t { tv_sec: self.tv_sec, tv_nsec: self.tv_nsec as i64 })
    }
}

/// Measuring the span from a point to itself gives the empty span: when
/// `t.sub_timespec(&t)` reports `Ok(d)`, `d` has no seconds and no
/// nanoseconds.
pub proof fn lemma_sub_self(t: Timespec, d: Duration)
    requires
        t.wf(),
        d.wf(),
        d.total() == t.total() - t.total(),
    ensures
        d.spec_secs() == 0,
        d.spec_nanos() == 0,
{
}

/// Swapping the two points of a subtraction swaps `Ok` and `Err` and keeps
/// the span: when `a` is later than `b`, `a.sub_timespec(&b)` is `Ok(d)`
/// and `b.sub_timespec(&a)` is `Err(e)` with `e == d`.
pub proof fn lemma_sub_antisymmetric(a: Timespec, b: Timespec, d: Duration, e: Duration)
    requires
        a.wf(),
        b.wf(),
        d.wf(),
        e.wf(),
        a.total() > b.total(),
        d.total() == a.total() - b.total(),
        e.total() == a.total() - b.total(),
    ensures
        a.total() >= b.total(),
        b.total() < a.total(),
        d == e,
{
    d.lemma_total_determines(e);
}

/// Adding a span and then measuring the distance back gives the span again:
/// when `t.checked_add_duration(&d)` is `Some(u)`, `u.sub_timespec(&t)` is
/// `Ok(d)`.
pub proof fn lemma_add_then_sub(t: Timespec, d: Duration, u: Timespec, back: Duration)
    requires
        t.wf(),
        d.wf(),
        u.wf(),
        back.wf(),
        u.total() == t.total() + d.total(),
        back.total() == u.total() - t.total(),
    ensures
        u.total() >= t.total(),
        back == d,
{
    back.lemma_total_determines(d);
}

/// Subtracting a span and then measuring the distance forward gives the
/// span again: when `t.checked_sub_duration(&d)` is `Some(u)`,
/// `t.sub_timespec(&u)` is `Ok(d)`.
pub proof fn lemma_sub_then_measure(t: Timespec, d: Duration, u: Timespec, fwd: Duration)
    requires
        t.wf(),
        d.wf(),
        u.wf(),
        fwd.wf(),
        u.total() == t.total() - d.total(),
        fwd.total() == t.total() - u.total(),
    ensures
        t.total() >= u.total(),
        fwd == d,
{
    fwd.lemma_total_determines(d);
}

/// Adding a span and subtracting it again gives the starting point, and the
/// subtraction never falls outside the range: when
/// `t.checked_add_duration(&d)` is `Some(u)`, `u.checked_sub_duration(&d)`
/// is `Some(t)`.
pub proof fn lemma_add_sub_roundtrip(t: Timespec, d: Duration, u: Timespec, v: Timespec)
    requires
        t.wf(),
        d.wf(),
        u.wf(),
        v.wf(),
        u.total() == t.total() + d.total(),
        v.total() == u.total() - d.total(),
    ensures
        timespec_fits(u.total() - d.total()),
        v == t,
{
    t.lemma_fits();
    v.lemma_total_determines(t);
}

/// A point in wall-clock time.
#[derive(Debug, Clone, Copy, PartialEq, Eq, Structural)]
pub struct SystemTime {
    pub t: Timespec,
}

impl SystemTime {
    /// The wall-clock time `tv_sec` seconds and `tv_nsec` nanoseconds after
    /// the epoch; fails as `Timespec::new` does.
    pub fn new(tv_sec: i64, tv_nsec: i64) -> (r: Result<SystemTime, Error>)
        ensures
            0 <= tv_nsec < NSEC_PER_SEC ==> (r matches Ok(s) && s.t.spec_sec() == tv_sec
                && s.t.spec_nsec() == tv_nsec),
            !(0 <= tv_nsec < NSEC_PER_SEC) ==> (r matches Err(e) && e.is_simple(
                ErrorKind::InvalidData,
                "invalid timestamp"@,
            )),
    {
        match Timespec::new(tv_sec, tv_nsec) {
            Ok(t) => Ok(SystemTime { t }),
            Err(e) => Err(e),
        }
    }
}

} // verus!
