use vstd::prelude::*;

verus! {

/// A decimal amount of money with exactly four decimal places, held as a
/// whole number of ten-thousandths of the currency unit.
#[derive(Clone, Copy, Debug, PartialEq, Eq, Structural)]
pub struct Amount {
    pub ten_thousandths: i64,
}

impl View for Amount {
    type V = int;

    /// The amount as a mathematical integer, in ten-thousandths.
    open spec fn view(&self) -> int {
        self.ten_thousandths as int
    }
}

impl Amount {
    /// The amount of `ten_thousandths` ten-thousandths of a unit.
    pub fn from_ten_thousandths(ten_thousandths: i64) -> (amount: Amount)
        ensures
            amount@ == ten_thousandths,
    {
        Amount { ten_thousandths }
    }
}

} // verus!
