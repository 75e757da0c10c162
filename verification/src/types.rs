use vstd::prelude::*;
use crate::rational::Ratio;

verus! {

/// Capability of types that represent something with a distribution holding
/// an expected value. Every expectation in this library is a multiple of one
/// half, so the ghost model is twice the expectation, an exact integer, and
/// the computed value is returned as an exact ratio over two.
pub trait ExpectedValue {
    /// Twice the expected value.
    spec fn expected2_spec(&self) -> int;

    /// Twice the expected value of the whole and of every part fits the
    /// machine word the computation uses.
    spec fn expected_fits(&self) -> bool;

    /// The exact expected value, as a ratio with denominator two.
    fn expected(&self) -> (r: Ratio)
        requires
            self.expected_fits(),
        ensures
            r.den == 2,
            r.num == self.expected2_spec(),
    ;
}

} // verus!
