//! The duration value, its total in seconds, and its normal form.

use vstd::prelude::*;
use vstd::std_specs::cmp::PartialEqSpecImpl;

verus! {

/// A duration as three magnitudes. No field is bounded by the next larger
/// unit: `second: 5025` is as good a value as `hour: 1, minute: 23, second: 45`,
/// and the two are equal.
///
/// Arithmetic goes through the total number of seconds, which has to be a
/// `usize`: a value whose total is one is *in range*, and an operation that
/// computes a total asks for operands and a result in range.
#[derive(Debug, Clone, Copy)]
pub struct Mytime {
    pub hour: usize,
    pub minute: usize,
    pub second: usize,
}

/// A duration stands for its total number of seconds, however large.
impl View for Mytime {
    type V = nat;

    open spec fn view(&self) -> nat {
        (self.hour * 3600 + self.minute * 60 + self.second) as nat
    }
}

impl Mytime {
    /// The total number of seconds is a `usize`.
    pub open spec fn in_range(&self) -> bool {
        self@ <= usize::MAX
    }

    /// Minutes and seconds are both below sixty.
    pub open spec fn is_normalized(&self) -> bool {
        self.minute < 60 && self.second < 60
    }

    /// The one normalized duration of `total` seconds.
    pub open spec fn of_seconds(total: nat) -> Mytime {
        Mytime {
            hour: (total / 3600) as usize,
            minute: (total / 60 % 60) as usize,
            second: (total % 60) as usize,
        }
    }

    /// The normal form of this duration.
    pub open spec fn normalized(&self) -> Mytime {
        Mytime::of_seconds(self@)
    }

    /// A duration of the given magnitudes, which are taken as they are.
    pub fn new(hour: usize, minute: usize, second: usize) -> (t: Mytime)
        ensures
            t.hour == hour,
            t.minute == minute,
            t.second == second,
    {
        Mytime { hour, minute, second }
    }

    /// The duration in seconds.
    pub fn total_seconds(&self) -> (total: usize)
        requires
            self.in_range(),
        ensures
            total == self@,
    {
        self.hour * 3600 + self.minute * 60 + self.second
    }

    /// The duration in seconds, or `None` where it is out of range.
    pub fn checked_total_seconds(&self) -> (total: Option<usize>)
        ensures
            total is Some <==> self.in_range(),
            total matches Some(t) ==> t == self@,
    {
        let hours = match self.hour.checked_mul(3600) {
            Some(s) => s,
            None => { return None; },
        };
        let minutes = match self.minute.checked_mul(60) {
            Some(s) => s,
            None => { return None; },
        };
        match hours.checked_add(minutes) {
            Some(s) => s.checked_add(self.second),
            None => None,
        }
    }

    /// Carries seconds into minutes, then minutes into hours. The total
    /// stays, and so does a value that is normalized already.
    pub fn normalize(&mut self)
        requires
            old(self).in_range(),
        ensures
            *final(self) == old(self).normalized(),
            final(self).is_normalized(),
            final(self)@ == old(self)@,
    {
        proof {
            lemma_carry(self.hour as nat, self.minute as nat, self.second as nat);
        }
        self.minute += self.second / 60;
        self.second %= 60;
        self.hour += self.minute / 60;
        self.minute %= 60;
    }

    /// The normal form of a number of seconds has that total and is
    /// normalized.
    pub proof fn lemma_of_seconds(total: nat)
        requires
            total <= usize::MAX,
        ensures
            Mytime::of_seconds(total)@ == total,
            Mytime::of_seconds(total).is_normalized(),
    {
    }
}

/// Carrying seconds into minutes and minutes into hours, field by field,
/// gives the hours, minutes and seconds of the total.
proof fn lemma_carry(h: nat, m: nat, s: nat)
    ensures
        (h * 3600 + m * 60 + s) % 60 == s % 60,
        (h * 3600 + m * 60 + s) / 60 % 60 == (m + s / 60) % 60,
        (h * 3600 + m * 60 + s) / 3600 == h + (m + s / 60) / 60,
{
}

/// Equality is that of the totals: how a duration is spread over its fields
/// makes no difference. It is decided for every pair of values, in range or
/// not.
impl PartialEq for Mytime {
    fn eq(&self, other: &Self) -> (equal: bool) {
        let s = self.hour as u128 * 3600 + self.minute as u128 * 60 + self.second as u128;
        let o = other.hour as u128 * 3600 + other.minute as u128 * 60 + other.second as u128;
        s == o
    }
}

impl PartialEqSpecImpl for Mytime {
    open spec fn obeys_eq_spec() -> bool {
        true
    }

    open spec fn eq_spec(&self, other: &Self) -> bool {
        self@ == other@
    }
}

} // verus!
