//! Physical units.

pub mod mass;

use vstd::prelude::*;

verus! {

/// The system of units in which a quantity is shown.
#[derive(Clone, Copy, Debug, PartialEq, Eq, Structural)]
pub enum UnitSystem {
    Metric,
    Imperial,
}

/// A quantity that can be shown in either system of units.
pub trait UnitDisplay {
    fn display_with_units(&self, units: UnitSystem) -> String;
}

} // verus!
