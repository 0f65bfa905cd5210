use vstd::prelude::*;

verus! {

/// Stable contract error codes for the escrow lifecycle.
///
/// Every variant has a fixed numeric code (see [`ContractError::code`]) that is
/// part of the public ABI and must not be renumbered.
#[derive(Clone, Copy, Debug, PartialEq, Eq, Structural)]
pub enum ContractError {
    /// An amount is zero, negative, or otherwise invalid for the requested operation.
    InvalidAmount,
    /// The contract does not hold enough tokens for the requested transfer or withdrawal.
    InsufficientBalance,
    /// The requested escrow id does not exist.
    EscrowNotFound,
    /// The escrow is in a state that does not permit the requested action.
    InvalidState,
    /// The caller is not authorized to perform the requested privileged action.
    NotAuthorized,
    /// `initialize` was called after the contract had already been initialized.
    AlreadyInitialized,
    /// A fee basis-point value exceeds its hard cap.
    FeeExceedsMax,
    /// The action requires an assigned buyer but the escrow has none yet.
    EscrowHasNoBuyer,
    /// Auto-release was attempted before the release window elapsed.
    ShippingWindowNotElapsed,
    /// Dispute evidence failed validation.
    InvalidEvidenceHash,
    /// A dispute record is missing for the requested escrow.
    DisputeNotFound,
    /// Checked arithmetic failed while updating contract bookkeeping.
    ArithmeticError,
    /// The dispute window has closed for the requested escrow action.
    DisputeWindowClosed,
    /// The action is blocked because the contract (or the action) is paused.
    ContractPaused,
    /// Checked arithmetic overflowed in a payout or fee calculation.
    ArithmeticOverflow,
    /// The state transition is not part of the approved lifecycle.
    InvalidStateTransition,
    /// A supplied string exceeds the supported length.
    InputTooLong,
    /// An address is invalid for its role.
    InvalidAddress,
    /// The update is a no-op because the new value equals the current one.
    SameAddress,
    /// The escrow amount exceeds the maximum allowed limit.
    AmountExceedsMaximum,
    /// The tracking id is empty.
    InvalidTrackingId,
    /// The token is not on the enabled token allowlist.
    TokenNotAllowed,
    /// Two of the buyer, payee and resolver roles would be held by one address.
    ConflictingRoles,
    /// A funding tranche would take the funded total past the agreed amount.
    TrancheExceedsRemaining,
    /// The escrow amount is below the minimum allowed limit.
    AmountBelowMinimum,
    /// A milestone escrow was requested with no milestones.
    EmptyMilestones,
    /// A milestone escrow was requested with more milestones than allowed.
    TooManyMilestones,
    /// A milestone action was requested on an escrow without milestones.
    NotMilestoneEscrow,
    /// The milestone index is out of range.
    MilestoneNotFound,
    /// The milestone has already been paid out.
    MilestoneAlreadyReleased,
    /// Funds cannot be released while the dispute window is still open.
    DeliveryBeforeDisputeWindow,
}

/// The ABI code of each error.
pub open spec fn error_code(e: ContractError) -> u32 {
    match e {
        ContractError::InvalidAmount => 1,
        ContractError::InsufficientBalance => 2,
        ContractError::EscrowNotFound => 3,
        ContractError::InvalidState => 4,
        ContractError::NotAuthorized => 5,
        ContractError::AlreadyInitialized => 6,
        ContractError::FeeExceedsMax => 7,
        ContractError::EscrowHasNoBuyer => 8,
        ContractError::ShippingWindowNotElapsed => 9,
        ContractError::InvalidEvidenceHash => 10,
        ContractError::DisputeNotFound => 11,
        ContractError::ArithmeticError => 12,
        ContractError::DisputeWindowClosed => 13,
        ContractError::ContractPaused => 14,
        ContractError::ArithmeticOverflow => 15,
        ContractError::InvalidStateTransition => 16,
        ContractError::InputTooLong => 17,
        ContractError::InvalidAddress => 18,
        ContractError::SameAddress => 19,
        ContractError::AmountExceedsMaximum => 20,
        ContractError::InvalidTrackingId => 21,
        ContractError::TokenNotAllowed => 22,
        ContractError::ConflictingRoles => 23,
        ContractError::TrancheExceedsRemaining => 24,
        ContractError::AmountBelowMinimum => 25,
        ContractError::EmptyMilestones => 26,
        ContractError::TooManyMilestones => 27,
        ContractError::NotMilestoneEscrow => 28,
        ContractError::MilestoneNotFound => 29,
        ContractError::MilestoneAlreadyReleased => 30,
        ContractError::DeliveryBeforeDisputeWindow => 31,
    }
}

impl ContractError {
    /// Returns the stable ABI code of this error.
    pub fn code(&self) -> (c: u32)
        ensures
            c == error_code(*self),
    {
        match self {
            ContractError::InvalidAmount => 1,
            ContractError::InsufficientBalance => 2,
            ContractError::EscrowNotFound => 3,
            ContractError::InvalidState => 4,
            ContractError::NotAuthorized => 5,
            ContractError::AlreadyInitialized => 6,
            ContractError::FeeExceedsMax => 7,
            ContractError::EscrowHasNoBuyer => 8,
            ContractError::ShippingWindowNotElapsed => 9,
            ContractError::InvalidEvidenceHash => 10,
            ContractError::DisputeNotFound => 11,
            ContractError::ArithmeticError => 12,
            ContractError::DisputeWindowClosed => 13,
            ContractError::ContractPaused => 14,
            ContractError::ArithmeticOverflow => 15,
            ContractError::InvalidStateTransition => 16,
            ContractError::InputTooLong => 17,
            ContractError::InvalidAddress => 18,
            ContractError::SameAddress => 19,
            ContractError::AmountExceedsMaximum => 20,
            ContractError::InvalidTrackingId => 21,
            ContractError::TokenNotAllowed => 22,
            ContractError::ConflictingRoles => 23,
            ContractError::TrancheExceedsRemaining => 24,
            ContractError::AmountBelowMinimum => 25,
            ContractError::EmptyMilestones => 26,
            ContractError::TooManyMilestones => 27,
            ContractError::NotMilestoneEscrow => 28,
            ContractError::MilestoneNotFound => 29,
            ContractError::MilestoneAlreadyReleased => 30,
            ContractError::DeliveryBeforeDisputeWindow => 31,
        }
    }
}

/// Distinct errors have distinct codes.
pub proof fn lemma_error_codes_distinct(a: ContractError, b: ContractError)
    ensures
        error_code(a) == error_code(b) <==> a == b,
{
}

} // verus!
