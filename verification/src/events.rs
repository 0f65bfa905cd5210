use vstd::prelude::*;
use crate::types::{Address, EscrowState, Hash32, ResolutionType};

verus! {

/// Payload of the `("Fee", "Updated")` event.
#[derive(Clone, Copy, Debug, PartialEq, Eq, Structural)]
pub struct FeeUpdated {
    pub old_fee_bps: u32,
    pub new_fee_bps: u32,
    pub timestamp: u64,
}

/// Payload of the `("ProtoFee", "Updated")` event.
#[derive(Clone, Copy, Debug, PartialEq, Eq, Structural)]
pub struct ProtocolFeeUpdated {
    pub old_fee_bps: u32,
    pub new_fee_bps: u32,
    pub timestamp: u64,
}

/// Payload of the `("ArbFee", "Updated")` event.
#[derive(Clone, Copy, Debug, PartialEq, Eq, Structural)]
pub struct ArbitrationFeeUpdated {
    pub old_fee_bps: u32,
    pub new_fee_bps: u32,
    pub timestamp: u64,
}

/// Payload of the `("Admin", "Rotated")` event.
#[derive(Clone, Copy, Debug, PartialEq, Eq, Structural)]
pub struct AdminRotated {
    pub old_admin: Address,
    pub new_admin: Address,
    pub timestamp: u64,
}

/// Payload of the `("Contract", "Paused", admin)` event.
#[derive(Clone, Copy, Debug, PartialEq, Eq, Structural)]
pub struct ContractPausedEvent {
    pub admin: Address,
    pub timestamp: u64,
}

/// Payload of the `("Contract", "Unpaused", admin)` event.
#[derive(Clone, Copy, Debug, PartialEq, Eq, Structural)]
pub struct ContractUnpausedEvent {
    pub admin: Address,
    pub timestamp: u64,
}

/// Payload of the `("Fee", "Withdrawn", to)` event.
#[derive(Clone, Copy, Debug, PartialEq, Eq, Structural)]
pub struct FeesWithdrawn {
    pub token: Address,
    pub to: Address,
    pub amount: i128,
    pub timestamp: u64,
}

/// Payload of the `("FeeCollectorUpdated",)` event.
#[derive(Clone, Copy, Debug, PartialEq, Eq, Structural)]
pub struct FeeCollectorUpdated {
    pub old_collector: Address,
    pub new_collector: Address,
}

/// Payload of the `("Escrow", "Created", seller)` event.
#[derive(Clone, Copy, Debug, PartialEq, Eq, Structural)]
pub struct EscrowCreated {
    pub escrow_id: u64,
    pub seller: Address,
    pub resolver: Address,
    pub token: Address,
    pub amount: i128,
    pub fee_bps: u32,
    pub resolver_fee_bps: u32,
    pub shipping_window: u64,
    pub timestamp: u64,
    pub prev_state: EscrowState,
    pub new_state: EscrowState,
}

/// Payload of the `("Milestone", "Created", escrow_id)` event.
#[derive(Clone, Copy, Debug, PartialEq, Eq, Structural)]
pub struct MilestoneEscrowCreated {
    pub escrow_id: u64,
    pub milestone_count: u32,
    pub total_amount: i128,
    pub timestamp: u64,
}

/// Payload of the `("Escrow", "Funded", buyer)` event.
#[derive(Clone, Copy, Debug, PartialEq, Eq, Structural)]
pub struct EscrowFunded {
    pub escrow_id: u64,
    pub buyer: Address,
    pub amount: i128,
    pub timestamp: u64,
    pub prev_state: EscrowState,
    pub new_state: EscrowState,
}

/// Payload of the `("Escrow", "Tranche", buyer)` event.
#[derive(Clone, Copy, Debug, PartialEq, Eq, Structural)]
pub struct EscrowTrancheFunded {
    pub escrow_id: u64,
    pub buyer: Address,
    pub tranche_amount: i128,
    pub funded_amount: i128,
    pub total_amount: i128,
    pub timestamp: u64,
}

/// Payload of the `("Escrow", "Shipped", seller)` event.
#[derive(Debug)]
pub struct EscrowShipped {
    pub escrow_id: u64,
    pub seller: Address,
    pub tracking_id: String,
    pub timestamp: u64,
    pub prev_state: EscrowState,
    pub new_state: EscrowState,
}

/// Payload of the `("Escrow", "Delivered")` event.
#[derive(Clone, Copy, Debug, PartialEq, Eq, Structural)]
pub struct DeliveryRecorded {
    pub escrow_id: u64,
    pub delivered_at: u64,
}

/// Payload of the `("Escrow", "Completed", recipient)` event.
#[derive(Clone, Copy, Debug, PartialEq, Eq, Structural)]
pub struct EscrowCompleted {
    pub escrow_id: u64,
    pub recipient: Address,
    pub amount: i128,
    pub fee_bps: u32,
    pub timestamp: u64,
    pub prev_state: EscrowState,
    pub new_state: EscrowState,
}

/// Payload of the `("Milestone", "Released", seller)` event.
#[derive(Clone, Copy, Debug, PartialEq, Eq, Structural)]
pub struct MilestoneReleased {
    pub escrow_id: u64,
    pub milestone_index: u32,
    pub seller: Address,
    pub amount: i128,
    pub remaining: u32,
    pub timestamp: u64,
}

/// Payload of the `("Dispute", "Raised", buyer)` event.
#[derive(Debug)]
pub struct DisputeRaised {
    pub escrow_id: u64,
    pub buyer: Address,
    pub reason: String,
    pub description: String,
    pub evidence_hash: Hash32,
    pub timestamp: u64,
    pub prev_state: EscrowState,
    pub new_state: EscrowState,
}

/// Payload of the `("Dispute", "Resolved", resolver)` event.
#[derive(Clone, Copy, Debug, PartialEq, Eq, Structural)]
pub struct DisputeResolved {
    pub escrow_id: u64,
    pub resolver: Address,
    pub resolution: ResolutionType,
    pub recipient: Address,
    pub amount: i128,
    pub arbitration_fee: i128,
    pub resolver_fee: i128,
    pub timestamp: u64,
    pub prev_state: EscrowState,
    pub new_state: EscrowState,
}

/// Payload of the `("resolver_vote_recorded",)` event.
#[derive(Clone, Copy, Debug, PartialEq, Eq, Structural)]
pub struct ResolverVoteRecorded {
    pub escrow_id: u64,
    pub resolver: Address,
    pub resolution: ResolutionType,
    pub vote_count: u32,
    pub threshold: u32,
    pub voted_at: u64,
}

/// Payload of the `("Escrow", "Released", seller)` event.
#[derive(Clone, Copy, Debug, PartialEq, Eq, Structural)]
pub struct AutoReleased {
    pub escrow_id: u64,
    pub seller: Address,
    pub amount: i128,
    pub fee_bps: u32,
    pub timestamp: u64,
    pub prev_state: EscrowState,
    pub new_state: EscrowState,
}

/// Payload of the `("Escrow", "Canceled", seller)` event.
#[derive(Clone, Copy, Debug, PartialEq, Eq, Structural)]
pub struct EscrowCancelled {
    pub escrow_id: u64,
    pub seller: Address,
    pub timestamp: u64,
    pub prev_state: EscrowState,
    pub new_state: EscrowState,
}

/// Payload of the `("Contract", "Init")` event.
#[derive(Clone, Copy, Debug, PartialEq, Eq, Structural)]
pub struct ContractInitialized {
    pub admin: Address,
    pub fee_collector: Address,
    pub arbitration_fee_bps: u32,
    pub timestamp: u64,
}

/// Payload of the `("Resolver", "Rotated")` event.
#[derive(Clone, Copy, Debug, PartialEq, Eq, Structural)]
pub struct ResolverRotated {
    pub escrow_id: u64,
    pub old_resolver: Address,
    pub new_resolver: Address,
    pub rotated_at: u64,
}

/// Payload of the `("Token", "Allowlist", token)` event.
#[derive(Clone, Copy, Debug, PartialEq, Eq, Structural)]
pub struct TokenAllowlistUpdated {
    pub token: Address,
    pub added: bool,
    pub timestamp: u64,
}

/// Payload of the `("Allowlist", "Toggled")` event.
#[derive(Clone, Copy, Debug, PartialEq, Eq, Structural)]
pub struct AllowlistToggled {
    pub enabled: bool,
    pub timestamp: u64,
}

/// Payload of the `("Dispute", "Pending", resolver)` event.
#[derive(Clone, Copy, Debug, PartialEq, Eq, Structural)]
pub struct DisputePendingFinalization {
    pub escrow_id: u64,
    pub resolver: Address,
    pub resolution: ResolutionType,
    pub amount: i128,
    pub appeal_deadline: u64,
    pub pending_at: u64,
}

/// Payload of the `("Dispute", "Appealed", appellant)` event.
#[derive(Clone, Copy, Debug, PartialEq, Eq, Structural)]
pub struct DisputeAppealed {
    pub escrow_id: u64,
    pub appellant: Address,
    pub timestamp: u64,
}

/// Payload of the `("PlatFee", "Updated")` event.
#[derive(Clone, Copy, Debug, PartialEq, Eq, Structural)]
pub struct PlatformFeeUpdated {
    pub old_fee_bps: u32,
    pub new_fee_bps: u32,
    pub timestamp: u64,
}

/// Payload of the `("Treasury", "Updated")` event.
#[derive(Clone, Copy, Debug, PartialEq, Eq, Structural)]
pub struct TreasuryUpdated {
    pub old_treasury: Address,
    pub new_treasury: Address,
    pub timestamp: u64,
}

/// Payload of the `("Basket", "Created", seller)` event.
#[derive(Clone, Copy, Debug, PartialEq, Eq, Structural)]
pub struct BasketEscrowCreated {
    pub escrow_id: u64,
    pub seller: Address,
    pub token_count: u32,
    pub timestamp: u64,
}

/// Payload of the `("Message", "Posted", sender)` event.
#[derive(Clone, Copy, Debug, PartialEq, Eq, Structural)]
pub struct MessagePosted {
    pub escrow_id: u64,
    pub sender: Address,
    pub timestamp: u64,
}

/// Payload of the `("Refund", "Requested", buyer)` event.
#[derive(Clone, Copy, Debug, PartialEq, Eq, Structural)]
pub struct RefundRequestedEvent {
    pub escrow_id: u64,
    pub buyer: Address,
    pub timestamp: u64,
    pub prev_state: EscrowState,
    pub new_state: EscrowState,
}

/// Payload of the `("Refund", "Approved", seller)` event.
#[derive(Clone, Copy, Debug, PartialEq, Eq, Structural)]
pub struct RefundApprovedEvent {
    pub escrow_id: u64,
    pub seller: Address,
    pub timestamp: u64,
    pub prev_state: EscrowState,
    pub new_state: EscrowState,
}

/// Payload of the `("contract_upgraded",)` event.
#[derive(Clone, Copy, Debug, PartialEq, Eq, Structural)]
pub struct ContractUpgradedEvent {
    pub admin: Address,
    pub new_wasm_hash: Hash32,
    pub timestamp: u64,
}

/// Every event the contract publishes, with its payload.
#[derive(Debug)]
pub enum ContractEvent {
    FeeUpdated(FeeUpdated),
    ProtocolFeeUpdated(ProtocolFeeUpdated),
    ArbitrationFeeUpdated(ArbitrationFeeUpdated),
    AdminRotated(AdminRotated),
    ContractPaused(ContractPausedEvent),
    ContractUnpaused(ContractUnpausedEvent),
    FeesWithdrawn(FeesWithdrawn),
    FeeCollectorUpdated(FeeCollectorUpdated),
    EscrowCreated(EscrowCreated),
    MilestoneEscrowCreated(MilestoneEscrowCreated),
    EscrowFunded(EscrowFunded),
    EscrowTrancheFunded(EscrowTrancheFunded),
    EscrowShipped(EscrowShipped),
    DeliveryRecorded(DeliveryRecorded),
    EscrowCompleted(EscrowCompleted),
    MilestoneReleased(MilestoneReleased),
    DisputeRaised(DisputeRaised),
    DisputePendingFinalization(DisputePendingFinalization),
    DisputeResolved(DisputeResolved),
    AutoReleased(AutoReleased),
    EscrowCancelled(EscrowCancelled),
    ContractInitialized(ContractInitialized),
    ResolverRotated(ResolverRotated),
    MessagePosted(MessagePosted),
    RefundRequested(RefundRequestedEvent),
    RefundApproved(RefundApprovedEvent),
    ContractUpgraded(ContractUpgradedEvent),
}

/// A token movement the contract asks the token contract to perform.
#[derive(Clone, Copy, Debug, PartialEq, Eq, Structural)]
pub enum Transfer {
    /// `from` pays `amount` of `token` into the contract's vault.
    Deposit { token: Address, from: Address, amount: i128 },
    /// The contract's vault pays `amount` of `token` to `to`.
    Payout { token: Address, to: Address, amount: i128 },
}

/// What a successful contract call asks its host to do: the addresses whose
/// authorization the call needs beyond its caller parameter, the token
/// transfers to perform, and the events to publish, in order.
#[derive(Debug)]
pub struct Outcome {
    pub authorizers: Vec<Address>,
    pub transfers: Vec<Transfer>,
    pub events: Vec<ContractEvent>,
}

/// Total amount a sequence of transfers pays out of the vault.
pub open spec fn total_paid_out(ts: Seq<Transfer>) -> int
    decreases ts.len(),
{
    if ts.len() == 0 {
        0
    } else {
        total_paid_out(ts.drop_last()) + match ts.last() {
            Transfer::Payout { amount, .. } => amount as int,
            Transfer::Deposit { .. } => 0int,
        }
    }
}

/// Total amount a sequence of transfers pays out of the vault to `to`.
pub open spec fn paid_out_to(ts: Seq<Transfer>, to: Address) -> int
    decreases ts.len(),
{
    if ts.len() == 0 {
        0
    } else {
        paid_out_to(ts.drop_last(), to) + match ts.last() {
            Transfer::Payout { to: t, amount, .. } => if t == to { amount as int } else { 0int },
            Transfer::Deposit { .. } => 0int,
        }
    }
}

impl Outcome {
    /// An outcome with no effects.
    pub fn empty() -> (o: Outcome)
        ensures
            o.authorizers@.len() == 0,
            o.transfers@.len() == 0,
            o.events@.len() == 0,
    {
        Outcome { authorizers: Vec::new(), transfers: Vec::new(), events: Vec::new() }
    }

    /// An outcome that only publishes one event.
    pub fn event(e: ContractEvent) -> (o: Outcome)
        ensures
            o.authorizers@.len() == 0,
            o.transfers@.len() == 0,
            o.events@ == seq![e],
    {
        let mut events = Vec::new();
        events.push(e);
        Outcome { authorizers: Vec::new(), transfers: Vec::new(), events }
    }
}

} // verus!
