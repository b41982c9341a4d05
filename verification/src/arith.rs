//! Sums, differences, multiples and quotients of durations.
//!
//! Each operation works on the totals and gives its result in normal form.
//! The operators build a new value; the methods ending in `_assign` change
//! the left operand to that same value.

use std::ops::{Add, Div, Mul, Sub};
use vstd::prelude::*;
use crate::clock::Mytime;
use crate::error::DivideByZero;

verus! {

/// How far two numbers are apart.
pub open spec fn distance(a: nat, b: nat) -> nat {
    if a >= b {
        (a - b) as nat
    } else {
        (b - a) as nat
    }
}

impl Mytime {
    /// Both durations together, normalized.
    pub open spec fn sum(self, other: Mytime) -> Mytime {
        Mytime::of_seconds(self@ + other@)
    }

    /// The duration between the two, normalized.
    pub open spec fn difference(self, other: Mytime) -> Mytime {
        Mytime::of_seconds(distance(self@, other@))
    }

    /// The duration taken `factor` times, normalized.
    pub open spec fn product(self, factor: usize) -> Mytime {
        Mytime::of_seconds(self@ * factor as nat)
    }

    /// The duration divided by `divisor`, which is not zero, rounded down
    /// to a second and normalized.
    pub open spec fn quotient(self, divisor: usize) -> Mytime {
        Mytime::of_seconds(self@ / divisor as nat)
    }
}

/// `a + b` is the normalized duration of both totals together. The sum has
/// to be in range.
impl Add for Mytime {
    type Output = Mytime;

    fn add(self, other: Mytime) -> (output: Mytime)
        ensures
            output == self.sum(other),
            output.is_normalized(),
            output@ == self@ + other@,
    {
        let mut output: Mytime = Mytime {
            hour: 0,
            minute: 0,
            second: self.total_seconds() + other.total_seconds(),
        };
        output.normalize();
        output
    }
}

impl vstd::std_specs::ops::AddSpecImpl for Mytime {
    open spec fn obeys_add_spec() -> bool {
        true
    }

    open spec fn add_req(self, other: Mytime) -> bool {
        self@ + other@ <= usize::MAX
    }

    open spec fn add_spec(self, other: Mytime) -> Mytime {
        self.sum(other)
    }
}

/// `a - b` is the normalized duration between the two, whichever is the
/// longer: there is no negative duration. Both have to be in range.
impl Sub for Mytime {
    type Output = Mytime;

    fn sub(self, other: Mytime) -> (output: Mytime)
        ensures
            output == self.difference(other),
            output.is_normalized(),
            output@ == distance(self@, other@),
    {
        let s = self.total_seconds();
        let o = other.total_seconds();
        let mut output: Mytime;
        if s >= o {
            output = Mytime { hour: 0, minute: 0, second: s - o };
        } else {
            output = Mytime { hour: 0, minute: 0, second: o - s };
        }
        output.normalize();
        output
    }
}

impl vstd::std_specs::ops::SubSpecImpl for Mytime {
    open spec fn obeys_sub_spec() -> bool {
        true
    }

    open spec fn sub_req(self, other: Mytime) -> bool {
        self.in_range() && other.in_range()
    }

    open spec fn sub_spec(self, other: Mytime) -> Mytime {
        self.difference(other)
    }
}

/// `a * n` is the normalized duration of `n` times the total. The duration
/// and the product have to be in range.
impl Mul<usize> for Mytime {
    type Output = Mytime;

    fn mul(self, factor: usize) -> (output: Mytime)
        ensures
            output == self.product(factor),
            output.is_normalized(),
            output@ == self@ * factor as nat,
    {
        let mut output: Mytime = Mytime {
            hour: 0,
            minute: 0,
            second: self.total_seconds() * factor,
        };
        output.normalize();
        output
    }
}

impl vstd::std_specs::ops::MulSpecImpl<usize> for Mytime {
    open spec fn obeys_mul_spec() -> bool {
        true
    }

    open spec fn mul_req(self, factor: usize) -> bool {
        self.in_range() && self@ * factor <= usize::MAX
    }

    open spec fn mul_spec(self, factor: usize) -> Mytime {
        self.product(factor)
    }
}

/// `a / n` is the normalized duration of the total divided by `n`, rounded
/// down, for a duration in range. There is no quotient by zero: that is an
/// error, whatever the duration.
impl Div<usize> for Mytime {
    type Output = Result<Mytime, DivideByZero>;

    fn div(self, divisor: usize) -> (output: Result<Mytime, DivideByZero>)
        ensures
            divisor == 0 <==> output is Err,
            divisor != 0 ==> output == Ok::<Mytime, DivideByZero>(self.quotient(divisor)),
            output matches Ok(q) ==> q.is_normalized() && q@ == self@ / divisor as nat,
    {
        if divisor == 0 {
            return Err(DivideByZero);
        }
        let mut output: Mytime = Mytime {
            hour: 0,
            minute: 0,
            second: self.total_seconds() / divisor,
        };
        output.normalize();
        Ok(output)
    }
}

impl vstd::std_specs::ops::DivSpecImpl<usize> for Mytime {
    open spec fn obeys_div_spec() -> bool {
        true
    }

    open spec fn div_req(self, divisor: usize) -> bool {
        divisor != 0 ==> self.in_range()
    }

    open spec fn div_spec(self, divisor: usize) -> Result<Mytime, DivideByZero> {
        if divisor == 0 {
            Err(DivideByZero)
        } else {
            Ok(self.quotient(divisor))
        }
    }
}

impl Mytime {
    /// Adds `other` to this duration: its total goes into the seconds, which
    /// are then carried. The value is that of `self + other`.
    pub fn add_assign(&mut self, other: Mytime)
        requires
            old(self)@ + other@ <= usize::MAX,
        ensures
            *final(self) == old(self).sum(other),
            final(self).is_normalized(),
            final(self)@ == old(self)@ + other@,
    {
        self.second += other.total_seconds();
        self.normalize();
    }

    /// Replaces this duration by the one between it and `other`, whichever
    /// is the longer. The value is that of `self - other`.
    pub fn sub_assign(&mut self, other: Mytime)
        requires
            old(self).in_range(),
            other.in_range(),
        ensures
            *final(self) == old(self).difference(other),
            final(self).is_normalized(),
            final(self)@ == distance(old(self)@, other@),
    {
        let s = self.total_seconds();
        let o = other.total_seconds();
        if s >= o {
            self.hour = 0;
            self.minute = 0;
            self.second = s - o;
        } else {
            self.hour = 0;
            self.minute = 0;
            self.second = o - s;
        }
        self.normalize();
    }

    /// Multiplies this duration by `factor`: each field is multiplied, and
    /// the fields are then carried. The value is that of `self * factor`.
    pub fn mul_assign(&mut self, factor: usize)
        requires
            old(self)@ * factor <= usize::MAX,
        ensures
            *final(self) == old(self).product(factor),
            final(self).is_normalized(),
            final(self)@ == old(self)@ * factor as nat,
    {
        proof {
            lemma_scale_fields(self.hour as nat, self.minute as nat, self.second as nat, factor as nat);
        }
        self.hour *= factor;
        self.minute *= factor;
        self.second *= factor;
        self.normalize();
    }

    /// Divides this duration by `divisor`, rounding down. The value is that
    /// of `self / divisor`; a division by zero is an error and changes
    /// nothing.
    pub fn div_assign(&mut self, divisor: usize) -> (done: Result<(), DivideByZero>)
        requires
            divisor != 0 ==> old(self).in_range(),
        ensures
            divisor == 0 <==> done is Err,
            divisor == 0 ==> *final(self) == *old(self),
            divisor != 0 ==> *final(self) == old(self).quotient(divisor),
            divisor != 0 ==> final(self).is_normalized(),
            divisor != 0 ==> final(self)@ == old(self)@ / divisor as nat,
    {
        if divisor == 0 {
            return Err(DivideByZero);
        }
        let s = self.total_seconds();
        self.hour = 0;
        self.minute = 0;
        self.second = s / divisor;
        self.normalize();
        Ok(())
    }
}

/// Multiplying each field multiplies the total, and no field outgrows it.
proof fn lemma_scale_fields(h: nat, m: nat, s: nat, n: nat)
    ensures
        (h * n) * 3600 + (m * n) * 60 + s * n == (h * 3600 + m * 60 + s) * n,
        h * n <= (h * 3600 + m * 60 + s) * n,
        m * n <= (h * 3600 + m * 60 + s) * n,
        s * n <= (h * 3600 + m * 60 + s) * n,
{
    assert((h * n) * 3600 + (m * n) * 60 + s * n == (h * 3600 + m * 60 + s) * n)
        by (nonlinear_arith);
}

} // verus!
