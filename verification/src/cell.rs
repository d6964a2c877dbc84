//! Volatile memory cells, as the `vcell` crate provides them.
//!
//! Nothing in this file is proved: it states what the rest of the crate
//! takes for granted about `vcell::VolatileCell`.

use vcell::VolatileCell;
use vstd::prelude::*;

verus! {

/// `vcell::VolatileCell<T>`: a cell whose content is read and written with
/// volatile accesses. Its inside is hidden from the verifier; what a cell of
/// `u32` contains is spoken of through [`contained`].
#[verifier::external_type_specification]
#[verifier::external_body]
#[verifier::reject_recursive_types(T)]
pub struct ExVolatileCell<T>(VolatileCell<T>);

/// The value that a cell contains: the one it was created with, or the last
/// one stored in it.
pub uninterp spec fn contained(cell: VolatileCell<u32>) -> u32;

/// `VolatileCell::new`: a new cell that contains `value`.
#[verifier::external_body]
pub(crate) fn new_cell(value: u32) -> (cell: VolatileCell<u32>)
    ensures
        contained(cell) == value,
{
    VolatileCell::new(value)
}

/// `VolatileCell::get`: a copy of the value that the cell contains.
#[verifier::external_body]
pub(crate) fn load(cell: &VolatileCell<u32>) -> (value: u32)
    ensures
        value == contained(*cell),
{
    cell.get()
}

/// `VolatileCell::set`: afterwards the cell contains `value`. The outside
/// function stores through a shared reference; the exclusive one asked for
/// here lets the contract tell the cell before the store from the cell after.
#[verifier::external_body]
pub(crate) fn store(cell: &mut VolatileCell<u32>, value: u32)
    ensures
        contained(*final(cell)) == value,
{
    cell.set(value)
}

} // verus!
