use vstd::prelude::*;

verus! {

/// The error kinds with which an instruction can fail. Every precondition
/// failure is surfaced immediately as the matching kind; no failure is
/// silently swallowed, and no mutation is committed once a handler fails.
#[derive(Clone, Copy, Debug, PartialEq, Eq, Structural)]
pub enum ProgramError {
    /// A required signer flag was false.
    AuthorizationError,
    /// An account's owner tag did not match the executing program's identity.
    OwnershipError,
    /// A byte buffer did not decode into the expected record shape, or an
    /// encoded record did not fit the target account's data buffer.
    DeserializationError,
    /// Decoded data violated a semantic invariant: the admin of a campaign
    /// did not match the creating or withdrawing account's identity.
    InvalidDataError,
    /// A balance check failed: creation below the rent-exempt minimum, or a
    /// withdrawal exceeding the balance available above that minimum.
    InsufficientFundsError,
    /// The instruction payload was empty or its opcode matched no handler.
    InvalidInstructionError,
    /// A balance or donation counter would have exceeded its representable
    /// range; the operation is refused rather than allowed to wrap.
    OverflowError,
}

} // verus!
