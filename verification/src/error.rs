//! The reasons for which an operation is refused.

use vstd::prelude::*;

verus! {

/// Why an operation was refused. Every refusal aborts the whole operation:
/// no record is changed and no funds move.
#[derive(Clone, Copy, Debug, PartialEq, Eq, Structural)]
pub enum ErrorCode {
    MathOverflow,
    Unauthorized,
    InvalidFee,
    TitleTooLong,
    DescriptionTooLong,
    NameTooLong,
    BenefitsTooLong,
    InvalidAmount,
    InvalidDuration,
    InvalidTierRange,
    PlatformInactive,
    CampaignNotActive,
    CampaignFinalized,
    CampaignNotStarted,
    CampaignEnded,
    CampaignNotEnded,
    CampaignNotFinalized,
    CampaignAlreadyFinalized,
    InvalidTier,
    AmountBelowMinimum,
    AmountAboveMaximum,
    TierFull,
    InvalidMint,
    GoalNotReached,
    GoalReached,
    AlreadyRefunded,
    NoFundsToWithdraw,
    /// The address at which a record was to be created is already occupied.
    AlreadyExists,
    /// The ledger runtime did not report the current time.
    ClockUnavailable,
}

impl ErrorCode {
    /// The text of `message`.
    pub open spec fn text(self) -> Seq<char> {
        match self {
            ErrorCode::MathOverflow => "Math overflow occurred"@,
            ErrorCode::Unauthorized => "Unauthorized access"@,
            ErrorCode::InvalidFee => "Invalid fee percentage"@,
            ErrorCode::TitleTooLong => "Title too long (max 64 chars)"@,
            ErrorCode::DescriptionTooLong => "Description too long (max 256 chars)"@,
            ErrorCode::NameTooLong => "Name too long (max 32 chars)"@,
            ErrorCode::BenefitsTooLong => "Benefits too long (max 256 chars)"@,
            ErrorCode::InvalidAmount => "Invalid amount"@,
            ErrorCode::InvalidDuration => "Invalid duration"@,
            ErrorCode::InvalidTierRange => "Invalid tier range"@,
            ErrorCode::PlatformInactive => "Platform is inactive"@,
            ErrorCode::CampaignNotActive => "Campaign is not active"@,
            ErrorCode::CampaignFinalized => "Campaign is already finalized"@,
            ErrorCode::CampaignNotStarted => "Campaign has not started yet"@,
            ErrorCode::CampaignEnded => "Campaign has ended"@,
            ErrorCode::CampaignNotEnded => "Campaign has not ended yet"@,
            ErrorCode::CampaignNotFinalized => "Campaign is not finalized"@,
            ErrorCode::CampaignAlreadyFinalized => "Campaign already finalized"@,
            ErrorCode::InvalidTier => "Invalid tier"@,
            ErrorCode::AmountBelowMinimum => "Amount below minimum"@,
            ErrorCode::AmountAboveMaximum => "Amount above maximum"@,
            ErrorCode::TierFull => "Tier is full"@,
            ErrorCode::InvalidMint => "Invalid mint"@,
            ErrorCode::GoalNotReached => "Goal not reached"@,
            ErrorCode::GoalReached => "Goal was reached, no refunds available"@,
            ErrorCode::AlreadyRefunded => "Already refunded"@,
            ErrorCode::NoFundsToWithdraw => "No funds to withdraw"@,
            ErrorCode::AlreadyExists => "Record already exists"@,
            ErrorCode::ClockUnavailable => "Clock is unavailable"@,
        }
    }

    /// The text shown to a caller for this refusal.
    pub fn message(&self) -> (r: &'static str)
        ensures
            r@ == self.text(),
    {
        match self {
            ErrorCode::MathOverflow => "Math overflow occurred",
            ErrorCode::Unauthorized => "Unauthorized access",
            ErrorCode::InvalidFee => "Invalid fee percentage",
            ErrorCode::TitleTooLong => "Title too long (max 64 chars)",
            ErrorCode::DescriptionTooLong => "Description too long (max 256 chars)",
            ErrorCode::NameTooLong => "Name too long (max 32 chars)",
            ErrorCode::BenefitsTooLong => "Benefits too long (max 256 chars)",
            ErrorCode::InvalidAmount => "Invalid amount",
            ErrorCode::InvalidDuration => "Invalid duration",
            ErrorCode::InvalidTierRange => "Invalid tier range",
            ErrorCode::PlatformInactive => "Platform is inactive",
            ErrorCode::CampaignNotActive => "Campaign is not active",
            ErrorCode::CampaignFinalized => "Campaign is already finalized",
            ErrorCode::CampaignNotStarted => "Campaign has not started yet",
            ErrorCode::CampaignEnded => "Campaign has ended",
            ErrorCode::CampaignNotEnded => "Campaign has not ended yet",
            ErrorCode::CampaignNotFinalized => "Campaign is not finalized",
            ErrorCode::CampaignAlreadyFinalized => "Campaign already finalized",
            ErrorCode::InvalidTier => "Invalid tier",
            ErrorCode::AmountBelowMinimum => "Amount below minimum",
            ErrorCode::AmountAboveMaximum => "Amount above maximum",
            ErrorCode::TierFull => "Tier is full",
            ErrorCode::InvalidMint => "Invalid mint",
            ErrorCode::GoalNotReached => "Goal not reached",
            ErrorCode::GoalReached => "Goal was reached, no refunds available",
            ErrorCode::AlreadyRefunded => "Already refunded",
            ErrorCode::NoFundsToWithdraw => "No funds to withdraw",
            ErrorCode::AlreadyExists => "Record already exists",
            ErrorCode::ClockUnavailable => "Clock is unavailable",
        }
    }
}

} // verus!
