use vstd::prelude::*;

verus! {

/// Every way an action can be refused. An action that fails leaves the
/// record and the vault counters exactly as they were.
#[derive(Debug, Clone, Copy, PartialEq, Eq)]
pub enum ErrorCode {
    AmountNotEnough,
    AlreadyInitialized,
    AlreadyClaimed,
    AlreadyStaked,
    NotStaked,
    AlreadyUnstaked,
    AlreadyUnlockable,
    NotUnstaked,
    Locked,
    DurationTooShort,
    DurationTooLong,
    DoesNotExist,
    Decreased,
    HasReward,
    InvalidStakeAccount,
    InvalidMint,
    ClockUnavailable,
    SettlementFailed,
    Overflow,
}

impl ErrorCode {
    /// The short human-readable message of the error.
    pub fn message(&self) -> &'static str {
        match self {
            ErrorCode::AmountNotEnough => "This amount is not enough.",
            ErrorCode::AlreadyInitialized => "This stake is already running.",
            ErrorCode::AlreadyClaimed => "This stake is already claimed.",
            ErrorCode::AlreadyStaked => "This stake is already staked.",
            ErrorCode::NotStaked => "This stake is already unstaked.",
            ErrorCode::AlreadyUnstaked => "Not staked.",
            ErrorCode::AlreadyUnlockable => "This stake is not yet unstaked.",
            ErrorCode::NotUnstaked => "This locked period has ended.",
            ErrorCode::Locked => "This stake is still locked.",
            ErrorCode::DurationTooShort => "This stake duration is not long enough.",
            ErrorCode::DurationTooLong => "This stake duration is too long.",
            ErrorCode::DoesNotExist => "This stake account does not exist.",
            ErrorCode::Decreased => "This stake is not allowed to decrease.",
            ErrorCode::HasReward => "This stake still has a reward account.",
            ErrorCode::InvalidStakeAccount => "This stake does not belong to the authority.",
            ErrorCode::InvalidMint => "This token mint is not accepted.",
            ErrorCode::ClockUnavailable => "The clock could not be read.",
            ErrorCode::SettlementFailed => "The token transfer failed.",
            ErrorCode::Overflow => "An amount or a time is out of range.",
        }
    }
}

} // verus!
