use vstd::prelude::*;

verus! {

/// An exact rational number: a signed numerator over a positive denominator.
///
/// Every real-valued quantity of this library — a dice expectation, a
/// probability, a damage factor, a challenge-rating value — is carried as an
/// exact rational, so all arithmetic on such quantities stays exact and
/// nothing is ever approximated.
#[derive(Debug, Clone, Copy, PartialEq, Eq, Structural)]
pub struct Ratio {
    pub num: i64,
    pub den: i64,
}

impl Ratio {
    /// Well-formed: the denominator is positive.
    pub open spec fn wf(self) -> bool {
        self.den >= 1
    }

    /// Both sides denote the same rational number (cross multiplication;
    /// meaningful for well-formed ratios).
    pub open spec fn same_value(self, other: Ratio) -> bool {
        self.num * other.den == other.num * self.den
    }

    /// The denoted value is at most that of `other` (for well-formed ratios).
    pub open spec fn le_value(self, other: Ratio) -> bool {
        self.num * other.den <= other.num * self.den
    }

    pub fn new(num: i64, den: i64) -> (r: Ratio)
        requires
            den >= 1,
        ensures
            r == (Ratio { num, den }),
    {
        Ratio { num, den }
    }

    pub fn from_int(v: i64) -> (r: Ratio)
        ensures
            r == (Ratio { num: v, den: 1 }),
    {
        Ratio { num: v, den: 1 }
    }

    /// Exact test: do the two ratios denote the same value?
    pub fn same(&self, other: &Ratio) -> (b: bool)
        requires
            self.wf(),
            other.wf(),
        ensures
            b == self.same_value(*other),
    {
        proof {
            lemma_i64_mul_in_i128(self.num as int, other.den as int);
            lemma_i64_mul_in_i128(other.num as int, self.den as int);
        }
        (self.num as i128) * (other.den as i128) == (other.num as i128) * (self.den as i128)
    }

    /// Exact test: is the denoted value at most that of `other`?
    pub fn le(&self, other: &Ratio) -> (b: bool)
        requires
            self.wf(),
            other.wf(),
        ensures
            b == self.le_value(*other),
    {
        proof {
            lemma_i64_mul_in_i128(self.num as int, other.den as int);
            lemma_i64_mul_in_i128(other.num as int, self.den as int);
        }
        (self.num as i128) * (other.den as i128) <= (other.num as i128) * (self.den as i128)
    }

    /// One minus a probability, kept over the same denominator.
    pub fn complement(&self) -> (r: Ratio)
        requires
            self.wf(),
            0 <= self.num <= self.den,
        ensures
            r == (Ratio { num: (self.den - self.num) as i64, den: self.den }),
    {
        Ratio { num: self.den - self.num, den: self.den }
    }
}

/// The product of two values in `i64` range lies in `i128` range.
pub proof fn lemma_i64_mul_in_i128(a: int, b: int)
    requires
        i64::MIN <= a <= i64::MAX,
        i64::MIN <= b <= i64::MAX,
    ensures
        i128::MIN <= a * b <= i128::MAX,
{
    assert(i128::MIN <= a * b <= i128::MAX) by (nonlinear_arith)
        requires
            i64::MIN <= a <= i64::MAX,
            i64::MIN <= b <= i64::MAX,
    ;
}

} // verus!
