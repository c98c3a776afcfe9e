//! Information Coefficient (IC) calculator: the forward return periods at
//! which a factor's IC is measured.

use vstd::prelude::*;

verus! {

/// Information Coefficient calculator
pub struct IcCalculator {
    /// Forward return periods for IC calculation
    forward_periods: Vec<usize>,
}

impl IcCalculator {
    /// The forward periods of the calculator.
    pub closed spec fn periods(&self) -> Seq<usize> {
        self.forward_periods@
    }

    /// Create a new IC calculator with default forward periods (1, 5, 10
    /// and 20).
    pub fn new() -> (r: Self)
        ensures
            r.periods() == seq![1usize, 5, 10, 20],
    {
        let mut periods: Vec<usize> = Vec::new();
        periods.push(1);
        periods.push(5);
        periods.push(10);
        periods.push(20);
        let r = IcCalculator { forward_periods: periods };
        assert(r.periods() =~= seq![1usize, 5, 10, 20]);
        r
    }

    /// Create with custom forward periods
    pub fn with_periods(periods: Vec<usize>) -> (r: Self)
        ensures
            r.periods() == periods@,
    {
        IcCalculator { forward_periods: periods }
    }

    /// Get forward periods
    pub fn forward_periods(&self) -> (r: &[usize])
        ensures
            r@ == self.periods(),
    {
        self.forward_periods.as_slice()
    }
}

impl Default for IcCalculator {
    fn default() -> (r: Self)
        ensures
            r.periods() == seq![1usize, 5, 10, 20],
    {
        Self::new()
    }
}

} // verus!
