use vstd::prelude::*;
use crate::errors::ContractError;
use crate::types::EscrowState;

verus! {

/// The approved edges of the escrow lifecycle.
pub open spec fn is_legal_transition(from: EscrowState, to: EscrowState) -> bool {
    match (from, to) {
        (EscrowState::Pending, EscrowState::Funded) => true,
        (EscrowState::Pending, EscrowState::Canceled) => true,
        (EscrowState::Funded, EscrowState::Shipped) => true,
        (EscrowState::Funded, EscrowState::Completed) => true,
        (EscrowState::Funded, EscrowState::Refunded) => true,
        (EscrowState::Funded, EscrowState::RefundRequested) => true,
        (EscrowState::RefundRequested, EscrowState::Refunded) => true,
        (EscrowState::Shipped, EscrowState::Completed) => true,
        (EscrowState::Shipped, EscrowState::Disputed) => true,
        (EscrowState::Shipped, EscrowState::Refunded) => true,
        (EscrowState::Disputed, EscrowState::Completed) => true,
        (EscrowState::Disputed, EscrowState::Refunded) => true,
        _ => false,
    }
}

/// The states from which no escrow ever moves on.
pub open spec fn is_terminal(s: EscrowState) -> bool {
    s == EscrowState::Completed || s == EscrowState::Refunded || s == EscrowState::Canceled
}

/// Validity matrix for escrow state transitions: `Ok(())` when the move from
/// `from` to `to` is an approved lifecycle edge, `InvalidStateTransition`
/// otherwise.
pub fn transition_state(from: &EscrowState, to: &EscrowState) -> (r: Result<(), ContractError>)
    ensures
        r is Ok <==> is_legal_transition(*from, *to),
        r is Err ==> r == Err::<(), ContractError>(ContractError::InvalidStateTransition),
{
    let allowed = match (from, to) {
        (EscrowState::Pending, EscrowState::Funded) => true,
        (EscrowState::Pending, EscrowState::Canceled) => true,
        (EscrowState::Funded, EscrowState::Shipped) => true,
        (EscrowState::Funded, EscrowState::Completed) => true,
        (EscrowState::Funded, EscrowState::Refunded) => true,
        (EscrowState::Funded, EscrowState::RefundRequested) => true,
        (EscrowState::RefundRequested, EscrowState::Refunded) => true,
        (EscrowState::Shipped, EscrowState::Completed) => true,
        (EscrowState::Shipped, EscrowState::Disputed) => true,
        (EscrowState::Shipped, EscrowState::Refunded) => true,
        (EscrowState::Disputed, EscrowState::Completed) => true,
        (EscrowState::Disputed, EscrowState::Refunded) => true,
        _ => false,
    };
    if allowed {
        Ok(())
    } else {
        Err(ContractError::InvalidStateTransition)
    }
}

/// No state is a legal transition to itself.
pub proof fn lemma_no_self_loops(s: EscrowState)
    ensures
        !is_legal_transition(s, s),
{
}

/// Terminal states have no outgoing edges, and no edge leads back to `Pending`.
pub proof fn lemma_terminal_states_are_final(from: EscrowState, to: EscrowState)
    ensures
        is_terminal(from) ==> !is_legal_transition(from, to),
        !is_legal_transition(from, EscrowState::Pending),
{
}

/// Every edge of the lifecycle moves strictly forward, so no sequence of legal
/// transitions ever returns to a state it has left.
pub open spec fn stage(s: EscrowState) -> int {
    match s {
        EscrowState::Pending => 0,
        EscrowState::Funded => 1,
        EscrowState::RefundRequested => 2,
        EscrowState::Shipped => 2,
        EscrowState::Disputed => 3,
        EscrowState::Completed => 4,
        EscrowState::Refunded => 4,
        EscrowState::Canceled => 4,
    }
}

/// Each legal transition strictly increases the lifecycle stage.
pub proof fn lemma_transitions_advance(from: EscrowState, to: EscrowState)
    requires
        is_legal_transition(from, to),
    ensures
        stage(from) < stage(to),
{
}

} // verus!
