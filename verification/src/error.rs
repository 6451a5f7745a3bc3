//! Failures reported by the element table and by nuclide construction.

use vstd::prelude::*;

verus! {

/// Why an element could not be resolved or a nuclide could not be built.
#[derive(Clone, Copy, Debug, PartialEq, Eq)]
pub enum NuclideError {
    /// The proton number names no element: it lies outside `1..=118`.
    OutOfRange,
    /// The element table is shorter than a complete table.
    DataIntegrity {
        /// Rows a complete table holds.
        expected: usize,
        /// Rows the table at hand holds.
        actual: usize,
    },
    /// The nucleon counts contradict each other: the neutron number is
    /// negative, or the mass number is not the sum of protons and neutrons.
    InvalidNucleonCounts,
}

} // verus!
