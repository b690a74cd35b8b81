use vstd::prelude::*;

verus! {

/// Failures of the token program's instructions.
#[derive(Clone, Copy, Debug, PartialEq, Eq, Structural)]
pub enum TbtcError {
    /// The caller is not the program's authority.
    IsNotAuthority,
    /// The caller is not the pending authority.
    IsNotPendingAuthority,
    /// No authority change has been proposed.
    NoPendingAuthorityChange,
    /// The address is already a guardian.
    GuardianAlreadyExists,
    /// The address is not a guardian.
    GuardianNonexistent,
    /// The caller is not a guardian.
    SignerNotGuardian,
    /// The address is already a minter.
    MinterAlreadyExists,
    /// The address is not a minter.
    MinterNonexistent,
    /// The caller is not a minter.
    SignerNotMinter,
    /// The program is paused.
    IsPaused,
    /// The program is not paused.
    IsNotPaused,
}

/// Failures of the gateway's instructions.
#[derive(Clone, Copy, Debug, PartialEq, Eq, Structural)]
pub enum WormholeGatewayError {
    /// Minting would take the minted amount past the minting limit.
    MintingLimitExceeded,
    /// The caller is not the custodian's authority.
    IsNotAuthority,
    /// The caller is not the pending authority.
    IsNotPendingAuthority,
    /// No authority change has been proposed.
    NoPendingAuthorityChange,
    /// The outbound recipient is the zero address.
    ZeroRecipient,
    /// The custody account holds less than the amount to bridge out.
    NotEnoughWrappedTbtc,
    /// The outbound amount is zero.
    ZeroAmount,
    /// The outbound amount truncates to zero at bridge precision.
    TruncatedZeroAmount,
    /// The inbound transfer has already been settled.
    TransferAlreadyRedeemed,
    /// The inbound token is not the configured bridged token.
    InvalidEthereumTbtc,
    /// The inbound transfer carries no amount.
    NoTbtcTransferred,
    /// The inbound recipient is the zero address.
    RecipientZeroAddress,
    /// Burning more than the gateway has minted.
    MintedAmountUnderflow,
    /// The minted amount would not fit in 64 bits.
    MintedAmountOverflow,
    /// No gateway address is configured for the destination chain.
    UnknownGateway,
}

} // verus!
