use vstd::prelude::*;

verus! {

/// Why an operation was refused. A refused operation changes nothing.
#[derive(Clone, Copy, Debug, PartialEq, Eq, Structural)]
pub enum DaoError {
    /// The caller does not hold the right that the creation policy asks for.
    Unauthorized,
    /// An asset of another resource than the one expected was handed in.
    WrongAssetType,
    /// The payment is below the price asked.
    InsufficientPayment,
    /// The treasury holds less than the amount to be paid out of it.
    InsufficientTreasury,
    /// An instrument holds less than the amount to be paid out of it.
    InsufficientFunds,
    /// The proposal's voting time is over.
    VotingClosed,
    /// A proposal must end after it starts.
    InvalidVotingPeriod,
    /// The voter has already voted on this proposal.
    AlreadyVoted,
    /// The time at which the operation becomes possible has not come yet.
    TooEarly,
    /// No instrument was issued by the given issuer.
    NoSuchIssuer,
    /// No proposal has the given id.
    NoSuchProposal,
    /// No unit, or not enough governance shares, is left to sell.
    SoldOut,
    /// The maturity date gives a term of less than one year, or no date at all.
    InvalidTerm,
    /// Shares cannot be redeemed while proposals are open.
    ActiveProposalsExist,
    /// The collateral has already left the instrument.
    NoCollateral,
    /// The organization holds no unit of the instrument it claims on.
    NoUnitsHeld,
    /// The proposal does not ask for governance tokens to be minted.
    NotAMintProposal,
}

} // verus!
