//! Nuclides: an element together with consistent nucleon counts.

use vstd::prelude::*;
use crate::catalog::{
    get_element_from_protons, lookup_fault, ElementCatalog, ELEMENT_COUNT, MAX_PROTONS,
    MIN_PROTONS,
};
use crate::error::NuclideError;
use crate::record::{record_name, record_symbol};

verus! {

/// How the pairing term of the mass formula enters the binding energy.
#[derive(Clone, Copy, Debug, PartialEq, Eq, Structural)]
pub enum Pairing {
    /// Protons and neutrons are both paired: the term is added.
    Bonus,
    /// One kind of nucleon is unpaired: the term is left out.
    Neutral,
    /// A proton and a neutron are both unpaired: the term is subtracted.
    Penalty,
}

impl Pairing {
    /// Factor of the pairing term: `1`, `0` or `-1`.
    pub open spec fn spec_sign(self) -> int {
        match self {
            Pairing::Bonus => 1,
            Pairing::Neutral => 0,
            Pairing::Penalty => -1,
        }
    }

    /// Factor of the pairing term: `1`, `0` or `-1`.
    pub fn sign(self) -> (factor: i32)
        ensures
            factor == self.spec_sign(),
    {
        match self {
            Pairing::Bonus => 1,
            Pairing::Neutral => 0,
            Pairing::Penalty => -1,
        }
    }
}

/// The pairing class of a nucleus by the parities of its proton and neutron
/// numbers: a bonus for even-even, a penalty for odd-odd, neutral otherwise.
pub open spec fn pairing_of(protons: int, neutrons: int) -> Pairing {
    if protons % 2 == 0 && neutrons % 2 == 0 {
        Pairing::Bonus
    } else if protons % 2 != 0 && neutrons % 2 != 0 {
        Pairing::Penalty
    } else {
        Pairing::Neutral
    }
}

/// What a nuclide is: its element and its nucleon counts.
pub struct IsotopeView {
    /// Display name of the element.
    pub element: Seq<char>,
    /// Chemical symbol of the element.
    pub symbol: Seq<char>,
    /// Mass number A: protons and neutrons together.
    pub mass_number: int,
    /// Atomic number Z.
    pub protons: int,
    /// Neutron number N.
    pub neutrons: int,
}

impl IsotopeView {
    /// The nucleon counts fit together: A = Z + N, A > 0, Z names an
    /// element, and N is not negative.
    pub open spec fn is_consistent(self) -> bool {
        &&& self.mass_number == self.protons + self.neutrons
        &&& self.mass_number > 0
        &&& MIN_PROTONS <= self.protons <= MAX_PROTONS
        &&& self.neutrons >= 0
    }
}

/// The failure of building a nuclide of `mass_number` nucleons and `protons`
/// protons from a table of `rows` rows, if any. A failed lookup comes first.
pub open spec fn resolve_fault(rows: nat, mass_number: int, protons: int) -> Option<NuclideError> {
    match lookup_fault(rows, protons) {
        Some(fault) => Some(fault),
        None => if mass_number < protons {
            Some(NuclideError::InvalidNucleonCounts)
        } else {
            None
        },
    }
}

/// The nuclide of `mass_number` nucleons and `protons` protons, its element
/// read from row `protons - 1` of `table`.
pub open spec fn resolved(table: Seq<Seq<char>>, mass_number: int, protons: int) -> IsotopeView {
    IsotopeView {
        element: record_name(table[protons - 1]),
        symbol: record_symbol(table[protons - 1]),
        mass_number,
        protons,
        neutrons: mass_number - protons,
    }
}

/// The failure of building a nuclide from the three counts, if any.
pub open spec fn counts_fault(
    mass_number: int,
    protons: int,
    neutrons: int,
) -> Option<NuclideError> {
    if protons < MIN_PROTONS || protons > MAX_PROTONS {
        Some(NuclideError::OutOfRange)
    } else if neutrons < 0 || mass_number != protons + neutrons {
        Some(NuclideError::InvalidNucleonCounts)
    } else {
        None
    }
}

/// One nuclide. Its counts are fixed at construction and always consistent.
#[derive(Debug)]
pub struct Isotope {
    element: String,
    symbol: String,
    mass_number: i32,
    protons: i32,
    neutrons: i32,
}

impl View for Isotope {
    type V = IsotopeView;

    /// The element and the counts of this nuclide.
    closed spec fn view(&self) -> IsotopeView {
        IsotopeView {
            element: self.element@,
            symbol: self.symbol@,
            mass_number: self.mass_number as int,
            protons: self.protons as int,
            neutrons: self.neutrons as int,
        }
    }
}

impl Isotope {
    /// Holds of every nuclide: its counts fit together.
    #[verifier::type_invariant]
    spec fn consistent(&self) -> bool {
        self@.is_consistent()
    }

    /// The nuclide of `mass_number` nucleons of which `protons` are protons.
    /// The neutron number is the difference, and the element is resolved
    /// from `catalog`.
    ///
    /// Fails as the lookup of `protons` fails, and with
    /// `InvalidNucleonCounts` where `mass_number` is less than `protons`.
    pub fn from_nucleons(
        catalog: &ElementCatalog,
        mass_number: i32,
        protons: i32,
    ) -> (built: Result<Isotope, NuclideError>)
        ensures
            match resolve_fault(catalog@.len(), mass_number as int, protons as int) {
                Some(fault) => built == Err::<Isotope, NuclideError>(fault),
                None => built is Ok && built->Ok_0@ == resolved(
                    catalog@,
                    mass_number as int,
                    protons as int,
                ),
            },
            built is Ok ==> built->Ok_0@.is_consistent(),
    {
        match get_element_from_protons(catalog, protons) {
            Err(fault) => Err(fault),
            Ok((element, symbol)) => {
                if mass_number < protons {
                    Err(NuclideError::InvalidNucleonCounts)
                } else {
                    let neutrons: i32 = mass_number - protons;
                    Ok(Isotope { element, symbol, mass_number, protons, neutrons })
                }
            },
        }
    }

    /// The nuclide with the given identity and counts, with no lookup.
    ///
    /// Fails with `OutOfRange` where `protons` lies outside `1..=118`, and
    /// with `InvalidNucleonCounts` where `neutrons` is negative or
    /// `mass_number` is not the sum of `protons` and `neutrons`.
    pub fn create(
        element: String,
        symbol: String,
        mass_number: i32,
        protons: i32,
        neutrons: i32,
    ) -> (built: Result<Isotope, NuclideError>)
        ensures
            match counts_fault(mass_number as int, protons as int, neutrons as int) {
                Some(fault) => built == Err::<Isotope, NuclideError>(fault),
                None => built is Ok && built->Ok_0@ == (IsotopeView {
                    element: element@,
                    symbol: symbol@,
                    mass_number: mass_number as int,
                    protons: protons as int,
                    neutrons: neutrons as int,
                }),
            },
            built is Ok ==> built->Ok_0@.is_consistent(),
    {
        if protons < MIN_PROTONS || protons > MAX_PROTONS {
            Err(NuclideError::OutOfRange)
        } else if neutrons < 0 || mass_number < protons || mass_number - protons != neutrons {
            Err(NuclideError::InvalidNucleonCounts)
        } else {
            Ok(Isotope { element, symbol, mass_number, protons, neutrons })
        }
    }

    /// The next isobar up: the same mass number, one proton more and one
    /// neutron less, its element resolved from `catalog`.
    ///
    /// Fails with `OutOfRange` where this nuclide has 118 protons, with
    /// `DataIntegrity` where the table is incomplete, and with
    /// `InvalidNucleonCounts` where this nuclide has no neutron to give.
    pub fn get_upper_isobar(
        &self,
        catalog: &ElementCatalog,
    ) -> (upper: Result<Isotope, NuclideError>)
        ensures
            self@.is_consistent(),
            match resolve_fault(catalog@.len(), self@.mass_number, self@.protons + 1) {
                Some(fault) => upper == Err::<Isotope, NuclideError>(fault),
                None => upper is Ok && upper->Ok_0@ == resolved(
                    catalog@,
                    self@.mass_number,
                    self@.protons + 1,
                ),
            },
            upper is Ok ==> {
                &&& upper->Ok_0@.is_consistent()
                &&& upper->Ok_0@.mass_number == self@.mass_number
                &&& upper->Ok_0@.protons == self@.protons + 1
                &&& upper->Ok_0@.neutrons == self@.neutrons - 1
            },
            upper is Ok <==> {
                &&& self@.protons < MAX_PROTONS
                &&& self@.neutrons >= 1
                &&& catalog@.len() >= ELEMENT_COUNT
            },
    {
        proof {
            use_type_invariant(self);
        }
        Isotope::from_nucleons(catalog, self.mass_number, self.protons + 1)
    }

    /// Display name of the element.
    pub fn element(&self) -> (name: &str)
        ensures
            name@ == self@.element,
    {
        self.element.as_str()
    }

    /// Chemical symbol of the element.
    pub fn symbol(&self) -> (symbol: &str)
        ensures
            symbol@ == self@.symbol,
    {
        self.symbol.as_str()
    }

    /// Mass number A.
    pub fn mass_number(&self) -> (count: i32)
        ensures
            count == self@.mass_number,
            self@.is_consistent(),
    {
        proof {
            use_type_invariant(self);
        }
        self.mass_number
    }

    /// Atomic number Z.
    pub fn protons(&self) -> (count: i32)
        ensures
            count == self@.protons,
            self@.is_consistent(),
    {
        proof {
            use_type_invariant(self);
        }
        self.protons
    }

    /// Neutron number N.
    pub fn neutrons(&self) -> (count: i32)
        ensures
            count == self@.neutrons,
            self@.is_consistent(),
    {
        proof {
            use_type_invariant(self);
        }
        self.neutrons
    }

    /// The pairing class of this nuclide, by the parities of Z and N.
    pub fn pairing(&self) -> (class: Pairing)
        ensures
            class == pairing_of(self@.protons, self@.neutrons),
    {
        proof {
            use_type_invariant(self);
        }
        let even_protons = self.protons % 2 == 0;
        let even_neutrons = self.neutrons % 2 == 0;
        if even_protons && even_neutrons {
            Pairing::Bonus
        } else if !even_protons && !even_neutrons {
            Pairing::Penalty
        } else {
            Pairing::Neutral
        }
    }
}

/// The pairing term of an even-even nucleus is added and that of an odd-odd
/// nucleus is subtracted: the two factors are `1` and `-1`, each the
/// negation of the other.
pub proof fn lemma_pairing_opposite(
    even_protons: int,
    even_neutrons: int,
    odd_protons: int,
    odd_neutrons: int,
)
    requires
        even_protons % 2 == 0,
        even_neutrons % 2 == 0,
        odd_protons % 2 != 0,
        odd_neutrons % 2 != 0,
    ensures
        pairing_of(even_protons, even_neutrons).spec_sign() == 1,
        pairing_of(odd_protons, odd_neutrons).spec_sign() == -pairing_of(
            even_protons,
            even_neutrons,
        ).spec_sign(),
{
}

/// A nucleus with exactly one unpaired kind of nucleon has no pairing term.
pub proof fn lemma_pairing_neutral(protons: int, neutrons: int)
    requires
        (protons % 2 == 0) != (neutrons % 2 == 0),
    ensures
        pairing_of(protons, neutrons).spec_sign() == 0,
{
}

/// A nuclide that resolves from a table can be built again from its own
/// counts: where `from_nucleons` succeeds on a mass number and a proton
/// number, `create` succeeds on them and their difference, and with the
/// resolved name and symbol it gives the same nuclide.
pub proof fn lemma_create_accepts_resolved(table: Seq<Seq<char>>, mass_number: int, protons: int)
    requires
        resolve_fault(table.len(), mass_number, protons) is None,
    ensures
        counts_fault(mass_number, protons, mass_number - protons) is None,
        resolved(table, mass_number, protons).is_consistent(),
        resolved(table, mass_number, protons) == (IsotopeView {
            element: record_name(table[protons - 1]),
            symbol: record_symbol(table[protons - 1]),
            mass_number,
            protons,
            neutrons: mass_number - protons,
        }),
{
}

/// Every nuclide that the counts alone admit is consistent.
pub proof fn lemma_admitted_counts_consistent(nuclide: IsotopeView)
    requires
        counts_fault(nuclide.mass_number, nuclide.protons, nuclide.neutrons) is None,
    ensures
        nuclide.is_consistent(),
{
}

} // verus!
