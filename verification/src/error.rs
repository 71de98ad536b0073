use vstd::prelude::*;

verus! {

/// Why an instruction was refused. Every error aborts the whole instruction:
/// no effect is handed to the host and no record changes.
#[derive(Clone, Copy, Debug, PartialEq, Eq, Structural)]
pub enum VaultError {
    /// The escrow account handed in is not the one derived for the caller.
    AddressMismatch,
    /// The caller is not the identity recorded in the escrow.
    Unauthorized,
    /// The escrow has already paid out and accepts nothing more.
    AlreadyFinalized,
    /// Fewer than `DELAY` time units have passed since the last deposit.
    TimeLockNotElapsed,
    /// A tenth of the balance rounds down to nothing.
    InsufficientFunds,
    /// A balance would leave the range of `u64`.
    ArithmeticOverflow,
    /// The host refused to create an account.
    AccountCreationFailed,
    /// Instruction data or a persisted record does not follow its layout.
    MalformedInstruction,
    /// The instruction names fewer accounts than its handler reads.
    NotEnoughAccountKeys,
}

} // verus!
