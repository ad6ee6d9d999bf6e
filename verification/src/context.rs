//! What an instruction is handed when it is invoked.

use vstd::prelude::*;

verus! {

/// The accounts that `initialize` declares: none. A value of this type holds
/// no state, so every value of it is valid.
#[derive(Clone, Copy, Debug, PartialEq, Eq)]
pub struct Initialize {}

/// The inputs of an invocation other than its arguments.
#[derive(Debug)]
pub struct Context<T> {
    /// Identifier of the program that is being invoked.
    pub program_id: [u8; 32],
    /// The accounts that the instruction declares.
    pub accounts: T,
}

} // verus!
