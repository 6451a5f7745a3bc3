//! A fixed set of nuclides from the fission of uranium-236.

use vstd::prelude::*;
use crate::catalog::{lookup_fault, ElementCatalog, ELEMENT_COUNT};
use crate::error::NuclideError;
use crate::isotope::{resolved, Isotope};

verus! {

/// Uranium-236, palladium-117, xenon-140 and strontium-94, in this order,
/// their elements resolved from `catalog`.
///
/// Fails with `DataIntegrity` where the table is incomplete, and on no
/// other table.
pub fn hw1_isotopes(catalog: &ElementCatalog) -> (built: Result<Vec<Isotope>, NuclideError>)
    ensures
        catalog@.len() < ELEMENT_COUNT ==> built == Err::<Vec<Isotope>, NuclideError>(
            NuclideError::DataIntegrity { expected: ELEMENT_COUNT, actual: catalog@.len() as usize },
        ),
        catalog@.len() >= ELEMENT_COUNT ==> {
            &&& built is Ok
            &&& built->Ok_0@.len() == 4
            &&& built->Ok_0@[0]@ == resolved(catalog@, 236, 92)
            &&& built->Ok_0@[1]@ == resolved(catalog@, 117, 46)
            &&& built->Ok_0@[2]@ == resolved(catalog@, 140, 54)
            &&& built->Ok_0@[3]@ == resolved(catalog@, 94, 38)
        },
{
    let uranium = match Isotope::from_nucleons(catalog, 236, 92) {
        Ok(nuclide) => nuclide,
        Err(fault) => { return Err(fault); },
    };
    let palladium = match Isotope::from_nucleons(catalog, 117, 46) {
        Ok(nuclide) => nuclide,
        Err(fault) => { return Err(fault); },
    };
    let xenon = match Isotope::from_nucleons(catalog, 140, 54) {
        Ok(nuclide) => nuclide,
        Err(fault) => { return Err(fault); },
    };
    let strontium = match Isotope::from_nucleons(catalog, 94, 38) {
        Ok(nuclide) => nuclide,
        Err(fault) => { return Err(fault); },
    };
    let mut nuclides: Vec<Isotope> = Vec::new();
    nuclides.push(uranium);
    nuclides.push(palladium);
    nuclides.push(xenon);
    nuclides.push(strontium);
    Ok(nuclides)
}

} // verus!
