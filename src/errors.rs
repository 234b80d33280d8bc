use vstd::prelude::*;

verus! {

/// Every way in which an operation of the program can fail.
#[derive(PartialEq, Eq, Structural, Clone, Copy, Debug)]
pub enum HonoraryQuoteFeeError {
    InvalidInvestorShare,
    InvalidY0,
    InvalidPoolAccount,
    InvalidFeeMode,
    QuoteMintMismatch,
    BaseMintMismatch,
    VaultMismatch,
    UnsupportedPartnerPool,
    MissingBump,
    Unauthorized,
    InvalidPositionAccount,
    PositionPoolMismatch,
    PositionHasUnclaimedFees,
    PositionNotEmpty,
    InvalidPositionNft,
    InvalidPositionMint,
    InvalidPositionNftOwner,
    InvalidPositionNftAmount,
    InvalidTimestamp,
    DayNotReady,
    UnexpectedPageCursor,
    ArithmeticOverflow,
    BaseFeeDetected,
    EmptyPageWithoutLastFlag,
    PageOverflow,
    InvalidInvestorAccount,
    StreamflowMintMismatch,
    InvestorAtaOwnerMismatch,
    InvestorAtaMintMismatch,
    CreatorAtaMintMismatch,
    DayNotOpen,
    HonoraryPositionNotReady,
    HonoraryPositionAlreadyConfigured,
    TreasuryMintMismatch,
    TreasuryOwnerMismatch,
    InvalidTokenAccount,
    InvalidProgressAccount,
}

} // verus!
