//! Lifetimes of short-lived objects, such as the pieces that a destroyed
//! object leaves behind.
//!
//! Time is counted in whole nanoseconds.

use vstd::prelude::*;
use crate::ratio::Ratio;

verus! {

/// Nanoseconds in a millisecond.
pub const NANOS_PER_MILLI: u64 = 1_000_000;

/// How long a piece of a destroyed object stays in the world: ten seconds.
pub const DEBRIS_LIFETIME: u64 = 10_000_000_000;

/// The time that an object has to live: `total` from its creation, of which
/// `elapsed` has passed. An object that shrinks away grows smaller as its end
/// comes near.
#[derive(Clone, Copy, Debug, PartialEq, Eq)]
pub struct Lifetime {
    pub total: u64,
    pub elapsed: u64,
    pub shrink_away: bool,
}

impl Lifetime {
    /// No more time has passed than the object has to live.
    pub open spec fn wf(self) -> bool {
        self.elapsed <= self.total
    }

    /// Whether the time is up.
    pub open spec fn finished(self) -> bool {
        self.elapsed >= self.total
    }

    /// The lifetime after `delta` more nanoseconds; the clock stops when the
    /// time is up.
    pub open spec fn ticked(self, delta: u64) -> Lifetime {
        Lifetime {
            total: self.total,
            elapsed: if self.elapsed + delta >= self.total {
                self.total
            } else {
                (self.elapsed + delta) as u64
            },
            shrink_away: self.shrink_away,
        }
    }

    /// The whole milliseconds that are left.
    pub open spec fn millis_left(self) -> int {
        self.total / NANOS_PER_MILLI - self.elapsed / NANOS_PER_MILLI
    }

    /// Whether the object is drawn smaller than it is.
    pub open spec fn shrinks(self) -> bool {
        self.shrink_away && self.millis_left() > 0
    }

    /// The share of the lifetime that is left, in whole milliseconds.
    pub open spec fn share_left(self) -> Ratio {
        Ratio {
            num: self.millis_left() as i64,
            den: (self.total / NANOS_PER_MILLI) as i64,
        }
    }

    /// A lifetime of `total` nanoseconds that begins now.
    pub fn new(total: u64, shrink_away: bool) -> (life: Lifetime)
        ensures
            life == (Lifetime { total, elapsed: 0, shrink_away }),
            life.wf(),
    {
        Lifetime { total, elapsed: 0, shrink_away }
    }

    /// The lifetime of a piece of a destroyed object.
    pub fn debris(shrink_away: bool) -> (life: Lifetime)
        ensures
            life == (Lifetime { total: DEBRIS_LIFETIME, elapsed: 0, shrink_away }),
            life.wf(),
    {
        Lifetime { total: DEBRIS_LIFETIME, elapsed: 0, shrink_away }
    }

    /// Lets `delta` nanoseconds pass, and says whether the object is to leave
    /// the world: its time is up.
    pub fn count_down(&mut self, delta: u64) -> (over: bool)
        requires
            old(self).wf(),
        ensures
            *final(self) == old(self).ticked(delta),
            final(self).wf(),
            over == final(self).finished(),
            over == (old(self).elapsed + delta >= old(self).total),
    {
        let left: u64 = self.total - self.elapsed;
        if delta >= left {
            self.elapsed = self.total;
            true
        } else {
            self.elapsed = self.elapsed + delta;
            false
        }
    }

    /// The square of the scale at which the object is drawn, if it is drawn
    /// smaller than it is: the share of its lifetime that is left. The scale
    /// is the square root of that share.
    pub fn shrink(&self) -> (share: Option<Ratio>)
        requires
            self.wf(),
        ensures
            share is Some <==> self.shrinks(),
            share is Some ==> share->Some_0 == self.share_left(),
            share is Some ==> 0 < share->Some_0.num <= share->Some_0.den,
    {
        if !self.shrink_away {
            return None;
        }
        let total: u64 = self.total / NANOS_PER_MILLI;
        let gone: u64 = self.elapsed / NANOS_PER_MILLI;
        if total > gone {
            Some(Ratio::new((total - gone) as i64, total as i64))
        } else {
            None
        }
    }
}

/// A lifetime that is counted down tick by tick ends on the tick at which
/// the spans add up to the whole, and an ended lifetime stays ended.
pub proof fn lemma_lifetime_ends(life: Lifetime, first: u64, second: u64)
    requires
        life.wf(),
    ensures
        life.ticked(first).wf(),
        life.ticked(first).ticked(second).finished() <==> life.elapsed + first + second
            >= life.total,
        life.finished() ==> life.ticked(first) == life,
        life.finished() ==> !life.shrinks(),
{
}

} // verus!
