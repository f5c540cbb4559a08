//! Mass, held in whole grams.

use crate::text::{decimal, decimal_string};
use vstd::prelude::*;
use vstd::std_specs::ops::{AddSpecImpl, MulSpecImpl};
use vstd::string::StringExecFns;

verus! {

#[derive(Copy, Clone, Debug)]
pub struct Mass {
    grams: i64,
}

impl Mass {
    /// The mass in grams.
    pub closed spec fn spec_grams(self) -> int {
        self.grams as int
    }

    /// The mass of a number of grams that fits the type.
    pub closed spec fn spec_from_grams(grams: int) -> Mass {
        Mass { grams: grams as i64 }
    }

    pub fn from_grams(grams: i64) -> (mass: Mass)
        ensures
            mass == Mass::spec_from_grams(grams as int),
            mass.spec_grams() == grams,
    {
        Mass { grams }
    }

    pub fn to_grams(&self) -> (grams: i64)
        ensures
            grams == self.spec_grams(),
    {
        self.grams
    }

    /// The mass in grams, with the unit: `1000g`.
    pub fn display_grams(&self) -> (text: String)
        ensures
            text@ == decimal(self.spec_grams()) + "g"@,
    {
        let mut text = decimal_string(self.grams);
        text.append("g");
        text
    }
}

impl PartialEq for Mass {
    fn eq(&self, other: &Mass) -> (equal: bool) {
        self.grams == other.grams
    }
}

impl vstd::std_specs::cmp::PartialEqSpecImpl for Mass {
    open spec fn obeys_eq_spec() -> bool {
        true
    }

    open spec fn eq_spec(&self, other: &Mass) -> bool {
        self.spec_grams() == other.spec_grams()
    }
}

impl core::ops::Add<Mass> for Mass {
    type Output = Mass;

    fn add(self, rhs: Mass) -> (sum: Mass) {
        Mass { grams: self.grams + rhs.grams }
    }
}

impl AddSpecImpl<Mass> for Mass {
    open spec fn obeys_add_spec() -> bool {
        true
    }

    /// The sum has to fit the type.
    open spec fn add_req(self, rhs: Mass) -> bool {
        i64::MIN <= self.spec_grams() + rhs.spec_grams() <= i64::MAX
    }

    open spec fn add_spec(self, rhs: Mass) -> Mass {
        Mass::spec_from_grams(self.spec_grams() + rhs.spec_grams())
    }
}

impl core::ops::Mul<i64> for Mass {
    type Output = Mass;

    fn mul(self, rhs: i64) -> (product: Mass) {
        assert(i64::MIN <= self.grams * rhs <= i64::MAX);
        Mass { grams: self.grams * rhs }
    }
}

impl MulSpecImpl<i64> for Mass {
    open spec fn obeys_mul_spec() -> bool {
        true
    }

    /// Zero and negative factors are not allowed, and the product has to
    /// fit the type.
    open spec fn mul_req(self, rhs: i64) -> bool {
        rhs > 0 && i64::MIN <= self.spec_grams() * rhs <= i64::MAX
    }

    open spec fn mul_spec(self, rhs: i64) -> Mass {
        Mass::spec_from_grams(self.spec_grams() * rhs)
    }
}

/// A number of grams that fits the type is the mass's own.
pub proof fn lemma_grams_kept(grams: int)
    requires
        i64::MIN <= grams <= i64::MAX,
    ensures
        Mass::spec_from_grams(grams).spec_grams() == grams,
{
}

} // verus!
