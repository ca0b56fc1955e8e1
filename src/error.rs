use vstd::prelude::*;

verus! {

/// Why an instruction was rejected. Every rejection leaves all accounts as they were.
#[derive(Clone, Copy, PartialEq, Eq, Structural, Debug)]
pub enum ProgramError {
    /// A supplied account has the wrong mint, authority or identity.
    AccountConstraintViolation,
    /// A balance is too small for a transfer, or a sum would overflow.
    ArithmeticOrBalanceError,
    /// The account to be created already exists.
    AlreadyInitialized,
    /// The account to be used does not exist (already closed, or never opened).
    MissingAccount,
}

} // verus!
