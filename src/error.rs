//! The reasons for which an auction operation is rejected.
use vstd::prelude::*;

verus! {

/// Every rejection leaves all records as they were.
#[derive(Debug, Clone, Copy, PartialEq, Eq, Structural)]
pub enum CustomErrorCode {
    ProxyClose,
    AuctionEarly,
    AuctionLate,
    InvalidDateRange,
    InvalidStartDate,
    MismatchedGlobalVault,
    InvalidEscrow,
    InvalidFee,
    InvalidFeeBurn,
    IncorrectAuthority,
    AuctionInvalid,
    InvalidEscrowAmount,
    PreviousRoundNotEnd,
}

impl CustomErrorCode {
    /// A sentence for the user that explains the rejection.
    pub fn message(&self) -> &'static str {
        match self {
            CustomErrorCode::ProxyClose => "Close auction can only be called by the auction authority",
            CustomErrorCode::AuctionEarly => "Auction has not yet begun",
            CustomErrorCode::AuctionLate => "Auction has concluded",
            CustomErrorCode::InvalidDateRange => "Start date must occur before end date",
            CustomErrorCode::InvalidStartDate => "Start date must occur in the future",
            CustomErrorCode::MismatchedGlobalVault => "Auction global vault must match auction config global vault",
            CustomErrorCode::InvalidEscrow => "Incorrect escrow token account",
            CustomErrorCode::InvalidFee => "Invalid fee",
            CustomErrorCode::InvalidFeeBurn => "Invalid fee burn",
            CustomErrorCode::IncorrectAuthority => "IncorrectAuthority",
            CustomErrorCode::AuctionInvalid => "The auction rounds for this escrow account has completed or has not started",
            CustomErrorCode::InvalidEscrowAmount => "Invalid escrow amount",
            CustomErrorCode::PreviousRoundNotEnd => "Previous auction round has not been ended",
        }
    }
}

} // verus!
