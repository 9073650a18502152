use vstd::prelude::*;

verus! {

/// Why a ledger or certificate operation was refused.
#[derive(Clone, Copy, Debug, PartialEq, Eq, Structural)]
pub enum MyErrorCode {
    /// The quota field is missing, or smaller than the amount asked for.
    InsufficientCredits,
    /// A counter or a balance left the range of an unsigned 64-bit integer.
    Overflow,
    /// A counter field is present but is not a decimal number.
    NoCredits,
    /// The amount was zero where a positive amount is needed.
    InvalidAmount,
    /// The holder owns fewer tokens than the burn asks for.
    InsufficientBalance,
    /// A credit value is not acceptable.
    InvalidCredit,
    /// A record or token already stands at the derived address.
    AlreadyExists,
    /// The signer is not the principal or the authority record that owns the
    /// resource.
    Unauthorized,
}

/// Why the transfer hook refused a transfer.
#[derive(Clone, Copy, Debug, PartialEq, Eq, Structural)]
pub enum TokenTransferHookError {
    /// An endpoint of the transfer holds no valid consumer certificate.
    UnAuthorized,
    /// The hook was called while the token account is not in a transfer.
    ProgramCalledOutsideOfTransfer,
    /// The account data is no token account that carries the transfer flag.
    InvalidAccountData,
}

} // verus!
