//! Nuclide identities for the semi-empirical (liquid drop) mass formula.
//!
//! The crate resolves chemical elements from a table of `Name,Symbol`
//! records, builds nuclides whose nucleon counts are always consistent, and
//! classifies them for the pairing term of the Bethe-Weizsaecker formula.

pub mod error;
pub mod record;
pub mod catalog;
pub mod isotope;
pub mod samples;
