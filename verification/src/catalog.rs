//! The element table: one `Name,Symbol` record per atomic number.

use vstd::prelude::*;
use crate::error::NuclideError;
use crate::record::{
    lemma_split_of_joined, lines_view, record_name, record_of, record_symbol, split_lines,
    split_record, text_lines,
};

verus! {

/// Rows of a complete element table, one for each atomic number.
pub const ELEMENT_COUNT: usize = 118;

/// Smallest atomic number.
pub const MIN_PROTONS: i32 = 1;

/// Largest atomic number.
pub const MAX_PROTONS: i32 = 118;

/// The failure of a lookup of `protons` in a table of `rows` rows, if any.
pub open spec fn lookup_fault(rows: nat, protons: int) -> Option<NuclideError> {
    if protons < MIN_PROTONS || protons > MAX_PROTONS {
        Some(NuclideError::OutOfRange)
    } else if rows < ELEMENT_COUNT {
        Some(NuclideError::DataIntegrity { expected: ELEMENT_COUNT, actual: rows as usize })
    } else {
        None
    }
}

/// The table of chemical elements, in order of atomic number: row `i` is
/// the record of the element with `i + 1` protons.
pub struct ElementCatalog {
    lines: Vec<String>,
}

impl View for ElementCatalog {
    type V = Seq<Seq<char>>;

    /// The rows of the table, in order.
    closed spec fn view(&self) -> Seq<Seq<char>> {
        lines_view(self.lines@)
    }
}

impl ElementCatalog {
    /// The table made of the given lines, first line first.
    pub fn new(lines: Vec<String>) -> (catalog: ElementCatalog)
        ensures
            catalog@ == lines_view(lines@),
    {
        ElementCatalog { lines }
    }

    /// The table whose rows are the lines of `text`.
    pub fn from_text(text: &str) -> (catalog: ElementCatalog)
        ensures
            catalog@ == text_lines(text@),
    {
        ElementCatalog { lines: split_lines(text) }
    }

    /// Number of rows in the table.
    pub fn row_count(&self) -> (rows: usize)
        ensures
            rows == self@.len(),
    {
        self.lines.len()
    }

    /// Whether the table has a row for every atomic number.
    pub fn is_complete(&self) -> (complete: bool)
        ensures
            complete == (self@.len() >= ELEMENT_COUNT),
    {
        self.lines.len() >= ELEMENT_COUNT
    }
}

/// Name and symbol of the element with `num_protons` protons.
///
/// Fails with `OutOfRange` where `num_protons` lies outside `1..=118`, and
/// with `DataIntegrity` where the table has fewer than 118 rows. Otherwise
/// the result is read from row `num_protons - 1`; a field that the row lacks
/// comes back empty.
pub fn get_element_from_protons(
    catalog: &ElementCatalog,
    num_protons: i32,
) -> (found: Result<(String, String), NuclideError>)
    ensures
        match lookup_fault(catalog@.len(), num_protons as int) {
            Some(fault) => found == Err::<(String, String), NuclideError>(fault),
            None => found is Ok && found->Ok_0.0@ == record_name(catalog@[num_protons - 1])
                && found->Ok_0.1@ == record_symbol(catalog@[num_protons - 1]),
        },
{
    if num_protons < MIN_PROTONS || num_protons > MAX_PROTONS {
        return Err(NuclideError::OutOfRange);
    }
    let rows = catalog.lines.len();
    if rows < ELEMENT_COUNT {
        return Err(NuclideError::DataIntegrity { expected: ELEMENT_COUNT, actual: rows });
    }
    let row: usize = (num_protons - 1) as usize;
    Ok(split_record(catalog.lines[row].as_str()))
}

/// Every atomic number resolves against a complete table: where the row of
/// an atomic number is joined from a name and a symbol that are not empty
/// and hold no comma, the lookup does not fail, and the fields of the row
/// are that name and that symbol.
pub proof fn lemma_lookup_resolves(
    table: Seq<Seq<char>>,
    protons: int,
    name: Seq<char>,
    symbol: Seq<char>,
)
    requires
        table.len() >= ELEMENT_COUNT,
        MIN_PROTONS <= protons <= MAX_PROTONS,
        table[protons - 1] == record_of(name, symbol),
        name.len() > 0,
        symbol.len() > 0,
        !name.contains(','),
        !symbol.contains(','),
    ensures
        lookup_fault(table.len(), protons) is None,
        record_name(table[protons - 1]) == name,
        record_symbol(table[protons - 1]) == symbol,
        record_name(table[protons - 1]).len() > 0,
        record_symbol(table[protons - 1]).len() > 0,
{
    lemma_split_of_joined(name, symbol);
}

} // verus!
