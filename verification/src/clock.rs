//! The two clock values and the hour/minute adjustment arithmetic.
//!
//! A [`Time`] is an optional `(hour, minute)` pair; `None` means "unset".
//! An [`AlarmTime`] wraps a `Time` with its provenance: `Pending` for a value
//! authored locally and not yet confirmed, `Synced` for a value confirmed by
//! the remote store.  A [`Clocks`] value ties an `AlarmTime` to the slot it
//! belongs to: the "tomorrow" slot or the "usual" slot.

use vstd::arithmetic::div_mod::{
    lemma_add_mod_noop_right, lemma_fundamental_div_mod_converse, lemma_mod_add_multiples_vanish,
    lemma_mod_multiples_vanish, lemma_small_mod,
};
use vstd::prelude::*;

verus! {

/// An optional wall-clock time: hour in `[0, 23]`, minute in `[0, 59]`.
pub type Time = Option<(u8, u8)>;

/// Slot identity: which of the two clocks a value belongs to.
#[derive(Clone, Copy, Debug, PartialEq, Eq, Structural)]
pub enum Slot {
    Tomorrow,
    Usually,
}

/// A clock value tagged with its provenance.
#[derive(Clone, Copy, Debug, PartialEq)]
pub enum AlarmTime {
    /// Authored locally; not yet confirmed by the remote store.
    Pending(Time),
    /// Confirmed by the remote store to hold exactly this value.
    Synced(Time),
}

/// A clock value tagged with the slot it belongs to.
#[derive(Clone, Copy, Debug, PartialEq)]
pub enum Clocks {
    Tomorrow(AlarmTime),
    Usually(AlarmTime),
}

/// Both components of a time are within the clock's ranges.
pub open spec fn valid_time(t: Time) -> bool {
    match t {
        Some((h, m)) => h < 24 && m < 60,
        None => true,
    }
}

impl AlarmTime {
    /// The wrapped time, whatever the provenance tag.
    pub open spec fn spec_time(self) -> Time {
        match self {
            AlarmTime::Pending(t) => t,
            AlarmTime::Synced(t) => t,
        }
    }

    /// The same provenance tag around a new time.
    pub open spec fn spec_retime(self, t: Time) -> AlarmTime {
        match self {
            AlarmTime::Pending(_) => AlarmTime::Pending(t),
            AlarmTime::Synced(_) => AlarmTime::Synced(t),
        }
    }

    pub open spec fn wf(self) -> bool {
        valid_time(self.spec_time())
    }

    /// The base an adjustment starts from: the current value, or the
    /// default of 12:00 when the clock is unset.
    pub open spec fn spec_base(self) -> (int, int) {
        match self.spec_time() {
            Some((h, m)) => (h as int, m as int),
            None => (12int, 0int),
        }
    }

    /// Adding `n` minutes to the base, carrying whole hours and wrapping
    /// around midnight; the result is always locally authored (`Pending`).
    pub open spec fn spec_adjust_min(self, n: int) -> AlarmTime {
        let (bh, bm) = self.spec_base();
        let t = (bh * 60 + bm + n) % 1440;
        AlarmTime::Pending(Some(((t / 60) as u8, (t % 60) as u8)))
    }

    /// Adding `n` hours to the base, wrapping modulo 24; the minute is kept
    /// and the result is always locally authored (`Pending`).
    pub open spec fn spec_adjust_hour(self, n: int) -> AlarmTime {
        let (bh, bm) = self.spec_base();
        AlarmTime::Pending(Some((((bh + n) % 24) as u8, bm as u8)))
    }

    /// Retag the current value as confirmed, keeping the value itself.
    pub fn set_synced(&mut self)
        ensures
            *final(self) == AlarmTime::Synced(old(self).spec_time()),
    {
        let t = *self.inner();
        *self = Self::Synced(t);
    }

    /// Mutable access to the wrapped time; writing through it keeps the
    /// provenance tag.
    pub fn inner_mut(&mut self) -> (r: &mut Time)
        ensures
            *r == old(self).spec_time(),
            *final(self) == old(self).spec_retime(*final(r)),
    {
        match self {
            Self::Pending(t) => t,
            Self::Synced(t) => t,
        }
    }

    /// The wrapped time, whatever the provenance tag.
    pub fn inner(&self) -> (r: &Time)
        ensures
            *r == self.spec_time(),
    {
        match self {
            Self::Pending(t) => t,
            Self::Synced(t) => t,
        }
    }

    /// The adjustment base: the current value, or 12:00 when unset.
    pub fn inner_or_def(&mut self) -> (r: (i8, i8))
        requires
            old(self).wf(),
        ensures
            *final(self) == *old(self),
            r.0 == old(self).spec_base().0,
            r.1 == old(self).spec_base().1,
            0 <= r.0 < 24,
            0 <= r.1 < 60,
    {
        match *self.inner() {
            Some((h, m)) => (h as i8, m as i8),
            None => (12, 0),
        }
    }

    /// Add `n` minutes, carrying whole hours and wrapping around midnight.
    pub fn adjust_min(&mut self, n: i8)
        requires
            old(self).wf(),
        ensures
            *final(self) == old(self).spec_adjust_min(n as int),
            final(self).wf(),
    {
        let (bh, bm) = self.inner_or_def();
        let total: i16 = (bh as i16) * 60 + (bm as i16) + (n as i16);
        let shifted: i16 = total + 1440;
        let wrapped: i16 = shifted % 1440;
        proof {
            lemma_mod_add_multiples_vanish(total as int, 1440);
            assert(wrapped == (bh * 60 + bm + n) % 1440);
            assert(wrapped / 60 < 24 && wrapped % 60 < 60) by (nonlinear_arith)
                requires 0 <= wrapped < 1440;
        }
        let hour: u8 = (wrapped / 60) as u8;
        let min: u8 = (wrapped % 60) as u8;
        *self = Self::Pending(Some((hour, min)));
    }

    /// Wrap an hour count into `[0, 23]`, in both directions.
    fn fix_hour(hour: i16) -> (r: u8)
        requires
            -1440 <= hour < 1440,
        ensures
            r == (hour as int) % 24,
    {
        let shifted: i16 = hour + 1440;
        let wrapped: i16 = shifted % 24;
        proof {
            lemma_mod_multiples_vanish(60, hour as int, 24);
        }
        wrapped as u8
    }

    /// Add `n` hours, wrapping modulo 24; the minute is kept.
    pub fn adjust_hour(&mut self, n: i8)
        requires
            old(self).wf(),
        ensures
            *final(self) == old(self).spec_adjust_hour(n as int),
            final(self).wf(),
    {
        let (bh, bm) = self.inner_or_def();
        let hour: u8 = Self::fix_hour(bh as i16 + n as i16);
        *self = Self::Pending(Some((hour, bm as u8)));
    }
}

/// Adjusting by `n` and then by `-n` restores the original time exactly,
/// including across the midnight wraparound; only the provenance tag is
/// forced to `Pending`.  This holds for every delta, minute-wise.
pub proof fn lemma_adjust_min_inverse(a: AlarmTime, n: int)
    requires
        a.wf(),
        a.spec_time() is Some,
    ensures
        a.spec_adjust_min(n).spec_adjust_min(-n) == AlarmTime::Pending(a.spec_time()),
{
    let (h, m) = a.spec_base();
    let t0 = h * 60 + m;
    let t1 = (t0 + n) % 1440;
    lemma_fundamental_div_mod_converse(t1, 60, t1 / 60, t1 % 60);
    assert((t1 / 60) * 60 + t1 % 60 == t1);
    let b = a.spec_adjust_min(n);
    assert(b.spec_base() == (t1 / 60, t1 % 60));
    assert(b.spec_base().0 * 60 + b.spec_base().1 == t1);
    lemma_add_mod_noop_right(-n, t0 + n, 1440);
    assert((t1 + -n) % 1440 == (t0 + n + -n) % 1440);
    lemma_small_mod(t0 as nat, 1440);
    assert((t0 + n + -n) % 1440 == t0);
    lemma_fundamental_div_mod_converse(t0, 60, h, m);
}

/// Adjusting by `n` hours and then by `-n` hours restores the original time
/// exactly, including across the midnight wraparound; only the provenance
/// tag is forced to `Pending`.
pub proof fn lemma_adjust_hour_inverse(a: AlarmTime, n: int)
    requires
        a.wf(),
        a.spec_time() is Some,
    ensures
        a.spec_adjust_hour(n).spec_adjust_hour(-n) == AlarmTime::Pending(a.spec_time()),
{
    let (h, m) = a.spec_base();
    let h1 = (h + n) % 24;
    lemma_add_mod_noop_right(-n, h + n, 24);
    assert((h1 + -n) % 24 == (h + n + -n) % 24);
    lemma_small_mod(h as nat, 24);
}

impl Clocks {
    /// The slot this value belongs to; the tag never changes for the
    /// lifetime of a logical slot.
    pub open spec fn spec_slot(self) -> Slot {
        match self {
            Clocks::Tomorrow(_) => Slot::Tomorrow,
            Clocks::Usually(_) => Slot::Usually,
        }
    }

    /// The wrapped alarm time.
    pub open spec fn spec_alarm(self) -> AlarmTime {
        match self {
            Clocks::Tomorrow(a) => a,
            Clocks::Usually(a) => a,
        }
    }

    /// The wrapped time value, through both layers of tagging.
    pub open spec fn spec_time(self) -> Time {
        self.spec_alarm().spec_time()
    }

    /// The same slot tag around a new alarm time.
    pub open spec fn spec_with_alarm(self, a: AlarmTime) -> Clocks {
        match self {
            Clocks::Tomorrow(_) => Clocks::Tomorrow(a),
            Clocks::Usually(_) => Clocks::Usually(a),
        }
    }

    /// The whole value retagged as confirmed, keeping slot and time.
    pub open spec fn spec_set_synced(self) -> Clocks {
        self.spec_with_alarm(AlarmTime::Synced(self.spec_time()))
    }

    pub open spec fn wf(self) -> bool {
        self.spec_alarm().wf()
    }

    /// The slot this value belongs to.
    pub fn slot(&self) -> (s: Slot)
        ensures
            s == self.spec_slot(),
    {
        match self {
            Clocks::Tomorrow(_) => Slot::Tomorrow,
            Clocks::Usually(_) => Slot::Usually,
        }
    }

    /// Mutable access to the wrapped alarm time; writing through it keeps
    /// the slot tag.
    pub fn inner_mut(&mut self) -> (r: &mut AlarmTime)
        ensures
            *r == old(self).spec_alarm(),
            *final(self) == old(self).spec_with_alarm(*final(r)),
    {
        match self {
            Self::Tomorrow(a) => a,
            Self::Usually(a) => a,
        }
    }

    /// The wrapped alarm time.
    pub fn inner(&self) -> (r: &AlarmTime)
        ensures
            *r == self.spec_alarm(),
    {
        match self {
            Self::Tomorrow(a) => a,
            Self::Usually(a) => a,
        }
    }

    /// The whole value retagged as confirmed, keeping slot and time.
    pub fn set_synced(self) -> (r: Self)
        ensures
            r == self.spec_set_synced(),
    {
        let mut c = self;
        c.inner_mut().set_synced();
        c
    }

    /// Clear the clock: the slot keeps its identity, the value becomes
    /// unset and locally authored.
    pub fn set_none(&mut self)
        ensures
            *final(self) == old(self).spec_with_alarm(AlarmTime::Pending(None)),
    {
        *self.inner_mut() = AlarmTime::Pending(None);
    }
}

/// Two times are the same value; provenance plays no part here.
pub fn time_eq(a: Time, b: Time) -> (r: bool)
    ensures
        r == (a == b),
{
    match (a, b) {
        (None, None) => true,
        (Some((h1, m1)), Some((h2, m2))) => h1 == h2 && m1 == m2,
        _ => false,
    }
}

} // verus!
