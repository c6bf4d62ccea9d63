//! Exact fractions, for progress that is reported as a share of a whole.

use vstd::prelude::*;

verus! {

/// A fraction of two natural numbers.
#[derive(Clone, Copy, Debug, PartialEq, Eq, Structural)]
pub struct Ratio {
    pub numerator: u128,
    pub denominator: u128,
}

impl Ratio {
    /// The fraction with the given numerator and denominator.
    pub open spec fn of(numerator: nat, denominator: nat) -> Ratio {
        Ratio { numerator: numerator as u128, denominator: denominator as u128 }
    }

    /// The fraction is a number from 0 to 1.
    pub open spec fn is_share(self) -> bool {
        self.denominator > 0 && self.numerator <= self.denominator
    }

    /// The fraction is exactly 1.
    pub open spec fn is_whole(self) -> bool {
        self.denominator > 0 && self.numerator == self.denominator
    }

    /// The fraction is exactly 0.
    pub open spec fn is_nothing(self) -> bool {
        self.denominator > 0 && self.numerator == 0
    }

    /// `self <= other` as numbers, for fractions with positive denominators.
    pub open spec fn le(self, other: Ratio) -> bool {
        self.numerator * other.denominator <= other.numerator * self.denominator
    }

    /// The two fractions are the same number.
    pub open spec fn same(self, other: Ratio) -> bool {
        self.numerator * other.denominator == other.numerator * self.denominator
    }

    /// The fraction 1.
    pub fn whole() -> (r: Ratio)
        ensures
            r == Ratio::of(1, 1),
            r.is_whole(),
    {
        Ratio { numerator: 1, denominator: 1 }
    }

    /// The fraction 0.
    pub fn nothing() -> (r: Ratio)
        ensures
            r == Ratio::of(0, 1),
            r.is_nothing(),
    {
        Ratio { numerator: 0, denominator: 1 }
    }

    /// `done` parts of `total`, and the whole once `done` reaches `total`.
    pub fn share(done: u128, total: u128) -> (r: Ratio)
        requires
            total > 0,
        ensures
            r == Ratio::of(
                if done < total {
                    done as nat
                } else {
                    total as nat
                },
                total as nat,
            ),
            r.is_share(),
            r.is_whole() <==> done >= total,
    {
        if done < total {
            Ratio { numerator: done, denominator: total }
        } else {
            Ratio { numerator: total, denominator: total }
        }
    }
}

} // verus!
