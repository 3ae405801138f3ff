use vstd::prelude::*;

use crate::address::Address;

verus! {

/// What an instruction is handed: the id of the program that runs it and
/// the accounts that it names.
pub struct Context<T> {
    /// The address of this program.
    pub program_id: Address,
    /// The accounts of the instruction.
    pub accounts: T,
}

} // verus!
