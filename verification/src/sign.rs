//! Sign enum: positive, negative, or zero.

use vstd::prelude::*;

verus! {

/// Positive, negative, or zero.
#[derive(Debug, Copy, Clone, PartialEq, Eq, Hash, Structural)]
pub enum Sign {
    /// Negative.
    Neg,
    /// Zero.
    Zero,
    /// Positive.
    Pos,
}

impl Sign {
    /// Mathematical value of this sign: -1, 0, or 1.
    pub open spec fn as_int(self) -> int {
        match self {
            Sign::Neg => -1,
            Sign::Zero => 0,
            Sign::Pos => 1,
        }
    }

    /// Returns an integer representation of this sign (either -1, 0, or 1).
    pub fn int_value(self) -> (r: isize)
        ensures
            r as int == self.as_int(),
    {
        match self {
            Sign::Neg => -1,
            Sign::Zero => 0,
            Sign::Pos => 1,
        }
    }

    /// Returns the absolute value of the integer representation of this sign
    /// (either 0 or 1).
    pub fn abs(self) -> (r: usize)
        ensures
            r as int == if self.as_int() < 0 {
                -self.as_int()
            } else {
                self.as_int()
            },
    {
        match self {
            Sign::Neg | Sign::Pos => 1,
            Sign::Zero => 0,
        }
    }

    /// Returns true if this is Sign::Zero or false otherwise.
    pub fn is_zero(self) -> (r: bool)
        ensures
            r == (self is Zero),
    {
        match self {
            Sign::Zero => true,
            _ => false,
        }
    }

    /// Returns false if this is Sign::Zero or true otherwise.
    pub fn is_nonzero(self) -> (r: bool)
        ensures
            r == (self !is Zero),
    {
        match self {
            Sign::Zero => false,
            _ => true,
        }
    }

    /// The opposite sign: negation of the mathematical value.
    pub fn negated(self) -> (r: Sign)
        ensures
            r.as_int() == -self.as_int(),
    {
        match self {
            Sign::Neg => Sign::Pos,
            Sign::Zero => Sign::Zero,
            Sign::Pos => Sign::Neg,
        }
    }

    /// Addition of the mathematical values. The sum of two equal nonzero
    /// signs is not a sign, so such inputs are excluded.
    pub fn plus(self, rhs: Sign) -> (r: Sign)
        requires
            -1 <= self.as_int() + rhs.as_int() <= 1,
        ensures
            r.as_int() == self.as_int() + rhs.as_int(),
    {
        match self {
            Sign::Neg => match rhs {
                Sign::Zero => Sign::Neg,
                _ => Sign::Zero,
            },
            Sign::Zero => rhs,
            Sign::Pos => match rhs {
                Sign::Zero => Sign::Pos,
                _ => Sign::Zero,
            },
        }
    }

    /// Sign of the product: multiplication of the mathematical values.
    pub fn times(self, rhs: Sign) -> (r: Sign)
        ensures
            r.as_int() == self.as_int() * rhs.as_int(),
    {
        match self {
            Sign::Neg => rhs.negated(),
            Sign::Zero => Sign::Zero,
            Sign::Pos => rhs,
        }
    }
}

impl Default for Sign {
    /// The default sign is zero.
    fn default() -> (r: Sign)
        ensures
            r is Zero,
    {
        Sign::Zero
    }
}

} // verus!
