use vstd::prelude::*;

verus! {

/// Why an instruction is refused. Each variant stands for one of the checks
/// that abort the instruction.
#[derive(Clone, Copy, Debug, PartialEq, Eq, Structural)]
pub enum ElemfiError {
    /// A checked addition, subtraction, division or narrowing failed.
    MathOverflow,
    /// A strategy would use more than its utilization limit.
    UtilizationLimitExceeded,
    /// Fewer extra accounts were passed than the instruction reads.
    MissingAccount,
    /// An account's data is too short to read, or is not the data it must be.
    InvalidAccountData,
    /// An account is not the one the instruction expects.
    AccountMismatch,
    /// A program account is not the program the instruction expects.
    ProgramMismatch,
    /// The source of a deposit holds less than the amount.
    InsufficientFunds,
    /// The collateral mint and the underlying token have different decimals.
    DecimalsMismatch,
    /// The collateral mint has no mint authority.
    MintAuthorityMissing,
    /// The collateral mint's authority is not the vault authority.
    MintAuthorityMismatch,
    /// The collateral mint has a freeze authority.
    FreezeAuthorityPresent,
    /// An obligation's timestamp is not later than the current time.
    TimestampNotInFuture,
    /// An obligation's timestamp does not fit the stored 32-bit field.
    TimestampOutOfRange,
    /// A deposit would leave the depositor below the vault's minimum collateral.
    CollateralBelowMinimum,
    /// A deposit would leave the depositor above the vault's maximum collateral.
    CollateralAboveMaximum,
    /// A deposit would raise the collateral supply above its cap.
    SupplyCapExceeded,
    /// The realm or vault names no escrow collection.
    EscrowCollectionMissing,
    /// The NFT's metadata names no collection.
    CollectionMissing,
    /// The NFT's collection is not the escrow collection.
    CollectionMismatch,
    /// The NFT account does not hold exactly one token.
    NotSingleToken,
    /// The NFT account is not owned by the signer that presents it.
    NftOwnerMismatch,
    /// The NFT's mint differs from its metadata's or the escrow's mint.
    NftMintMismatch,
    /// A plain deposit into a vault that only takes escrow deposits.
    EscrowOnlyVault,
}

} // verus!
