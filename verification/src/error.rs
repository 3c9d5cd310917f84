use vstd::prelude::*;

verus! {

/// The reasons for which a hook cannot be created or changed.
#[derive(Debug, Clone, Copy, PartialEq, Eq, Structural)]
pub enum Error {
    /// The target and the hook are the same address.
    SameAddress,
    /// The target or the hook does not lie in executable memory.
    NotExecutable,
    /// The bytes at the target do not decode to a valid instruction.
    InvalidCode,
    /// The instruction at the target cannot be relocated.
    UnsupportedInstruction,
}

} // verus!
