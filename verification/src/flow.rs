use vstd::prelude::*;
use crate::contract::{
    index_push, is_payee, record_ok, ContractModel, EscrowContract, DISPUTE_WINDOW, MAX_TRACKING_ID_LEN,
};
use crate::errors::ContractError;
use crate::events::{
    ContractEvent, EscrowCancelled, EscrowFunded, EscrowShipped, EscrowTrancheFunded, Outcome,
    RefundApprovedEvent, RefundRequestedEvent, ResolverRotated, Transfer, DeliveryRecorded,
};
use crate::admin::{admin_gate, only_event};
use crate::lifecycle::is_terminal;
use crate::types::{byte_len, Address, ContractStats, EscrowData, EscrowState, EscrowView};

verus! {

/// Why funding escrow `id` with `tranche` from `buyer` is refused, if it is.
pub open spec fn fund_error(m: ContractModel, id: u64, buyer: Address, tranche: i128) -> Option<ContractError> {
    if m.paused {
        Some(ContractError::ContractPaused)
    } else if m.escrow(id) is None {
        Some(ContractError::EscrowNotFound)
    } else {
        let e = m.escrow(id).unwrap();
        if e.state != EscrowState::Pending {
            Some(ContractError::InvalidState)
        } else if tranche <= 0 {
            Some(ContractError::InvalidAmount)
        } else if e.has_payee(buyer) || buyer == e.resolver {
            Some(ContractError::ConflictingRoles)
        } else if e.buyer matches Some(b) && b != buyer {
            Some(ContractError::NotAuthorized)
        } else if e.funded_amount + tranche > i128::MAX {
            Some(ContractError::ArithmeticError)
        } else if e.funded_amount + tranche > e.amount {
            Some(ContractError::TrancheExceedsRemaining)
        } else {
            None
        }
    }
}

/// Why `fund_escrow` is refused, if it is: it funds whatever is still unpaid.
pub open spec fn fund_escrow_error(m: ContractModel, id: u64, buyer: Address) -> Option<ContractError> {
    match m.escrow(id) {
        None => Some(ContractError::EscrowNotFound),
        Some(e) => fund_error(m, id, buyer, (e.amount - e.funded_amount) as i128),
    }
}

/// Whether paying `tranche` into escrow `id` brings its funded total to the
/// agreed amount, completing its funding.
pub open spec fn completes_funding(m: ContractModel, id: u64, tranche: i128) -> bool {
    m.escrow(id).unwrap().funded_amount + tranche == m.escrow(id).unwrap().amount
}

/// An escrow record after `buyer` pays in `tranche` at time `now`: the buyer
/// is locked in, and the escrow becomes `Funded`, with its dispute window
/// opening, exactly when the funded total reaches the agreed amount.
pub open spec fn funded_record(e: EscrowView, buyer: Address, tranche: i128, now: u64) -> EscrowView {
    let total = (e.funded_amount + tranche) as i128;
    if total == e.amount {
        EscrowView {
            buyer: Some(buyer),
            funded_amount: total,
            state: EscrowState::Funded,
            funded_at: now,
            dispute_deadline: (now + DISPUTE_WINDOW) as u64,
            ..e
        }
    } else {
        EscrowView { buyer: Some(buyer), funded_amount: total, ..e }
    }
}

/// The contract after a successful funding of escrow `id`; the first
/// payment lists the escrow for its buyer.
pub open spec fn with_funding(m: ContractModel, id: u64, buyer: Address, tranche: i128, now: u64) -> ContractModel {
    let e = m.escrow(id).unwrap();
    ContractModel {
        escrows: m.escrows.update(id - 1, funded_record(e, buyer, tranche, now)),
        buyer_index: if e.funded_amount == 0 {
            m.buyer_index.insert(buyer, m.buyer_ids(buyer).push(id))
        } else {
            m.buyer_index
        },
        ..m
    }
}

/// The event of a successful funding of escrow `id`.
pub open spec fn funding_event(e: EscrowView, id: u64, buyer: Address, tranche: i128, now: u64) -> ContractEvent {
    let total = (e.funded_amount + tranche) as i128;
    if total == e.amount {
        ContractEvent::EscrowFunded(EscrowFunded {
            escrow_id: id,
            buyer,
            amount: e.amount,
            timestamp: now,
            prev_state: EscrowState::Pending,
            new_state: EscrowState::Funded,
        })
    } else {
        ContractEvent::EscrowTrancheFunded(EscrowTrancheFunded {
            escrow_id: id,
            buyer,
            tranche_amount: tranche,
            funded_amount: total,
            total_amount: e.amount,
            timestamp: now,
        })
    }
}

/// The escrow-existence gate shared by most escrow operations.
pub open spec fn lookup_error(m: ContractModel, id: u64) -> Option<ContractError> {
    if m.escrow(id) is None {
        Some(ContractError::EscrowNotFound)
    } else {
        None
    }
}

/// Why `mark_shipped` is refused, if it is.
pub open spec fn ship_error(m: ContractModel, caller: Address, id: u64, tracking_id: Seq<char>) -> Option<ContractError> {
    if m.paused {
        Some(ContractError::ContractPaused)
    } else if lookup_error(m, id) is Some {
        lookup_error(m, id)
    } else if !m.escrow(id).unwrap().has_payee(caller) {
        Some(ContractError::NotAuthorized)
    } else if m.escrow(id).unwrap().state != EscrowState::Funded {
        Some(ContractError::InvalidState)
    } else if tracking_id.len() == 0 {
        Some(ContractError::InvalidTrackingId)
    } else if byte_len(tracking_id) > MAX_TRACKING_ID_LEN {
        Some(ContractError::InputTooLong)
    } else {
        None
    }
}

/// Why `record_delivery` is refused, if it is.
pub open spec fn delivery_error(m: ContractModel, caller: Address, id: u64) -> Option<ContractError> {
    if admin_gate(m, caller) is Some {
        admin_gate(m, caller)
    } else if lookup_error(m, id) is Some {
        lookup_error(m, id)
    } else if m.escrow(id).unwrap().state != EscrowState::Shipped {
        Some(ContractError::InvalidState)
    } else {
        None
    }
}

/// Why `cancel_escrow` is refused, if it is. The seller may cancel a
/// pending or funded escrow; the buyer may cancel a funded escrow or one
/// still being paid in tranches.
pub open spec fn cancel_error(m: ContractModel, caller: Address, id: u64) -> Option<ContractError> {
    if m.paused {
        Some(ContractError::ContractPaused)
    } else if lookup_error(m, id) is Some {
        lookup_error(m, id)
    } else {
        let e = m.escrow(id).unwrap();
        let is_seller = caller == e.seller();
        let is_buyer = e.buyer == Some(caller);
        if !is_seller && !is_buyer {
            Some(ContractError::NotAuthorized)
        } else if is_buyer && e.state != EscrowState::Funded && e.state != EscrowState::Pending {
            Some(ContractError::InvalidState)
        } else if is_seller && !is_buyer && e.state != EscrowState::Pending && e.state != EscrowState::Funded {
            Some(ContractError::InvalidState)
        } else {
            None
        }
    }
}

/// What a buyer's cancellation refunds: the whole amount of a funded
/// escrow, or the tranches paid so far of a pending one.
pub open spec fn cancel_refund(e: EscrowView) -> i128 {
    if e.state == EscrowState::Funded { e.amount } else { e.funded_amount }
}

/// The record after a cancellation by `caller`.
pub open spec fn cancelled_record(e: EscrowView, caller: Address) -> EscrowView {
    if e.buyer == Some(caller) {
        let refund = cancel_refund(e);
        EscrowView {
            funded_amount: if refund > 0 { 0 } else { e.funded_amount },
            state: if refund > 0 && e.fee_bps > 0 { EscrowState::Refunded } else { EscrowState::Canceled },
            ..e
        }
    } else {
        EscrowView { state: EscrowState::Canceled, ..e }
    }
}

/// The refund a cancellation by `caller` pays out.
pub open spec fn cancel_transfers(e: EscrowView, caller: Address) -> Seq<Transfer> {
    if e.buyer == Some(caller) && cancel_refund(e) > 0 {
        seq![Transfer::Payout { token: e.token, to: caller, amount: cancel_refund(e) }]
    } else {
        seq![]
    }
}

/// Why `mutual_cancel` is refused, if it is.
pub open spec fn mutual_cancel_error(m: ContractModel, id: u64) -> Option<ContractError> {
    if m.paused {
        Some(ContractError::ContractPaused)
    } else if lookup_error(m, id) is Some {
        lookup_error(m, id)
    } else if m.escrow(id).unwrap().buyer is None {
        Some(ContractError::EscrowHasNoBuyer)
    } else if m.escrow(id).unwrap().state != EscrowState::Funded {
        Some(ContractError::InvalidState)
    } else {
        None
    }
}

/// Why a buyer-only escrow action (`request_refund`, `confirm_delivery`,
/// `raise_dispute`, `release_milestone`) is refused at its caller check, if
/// it is.
pub open spec fn buyer_gate(m: ContractModel, caller: Address, id: u64) -> Option<ContractError> {
    if m.paused {
        Some(ContractError::ContractPaused)
    } else if lookup_error(m, id) is Some {
        lookup_error(m, id)
    } else if m.escrow(id).unwrap().buyer is None {
        Some(ContractError::EscrowHasNoBuyer)
    } else if m.escrow(id).unwrap().buyer != Some(caller) {
        Some(ContractError::NotAuthorized)
    } else {
        None
    }
}

/// Why `request_refund` is refused, if it is.
pub open spec fn request_refund_error(m: ContractModel, caller: Address, id: u64) -> Option<ContractError> {
    if buyer_gate(m, caller, id) is Some {
        buyer_gate(m, caller, id)
    } else if m.escrow(id).unwrap().state != EscrowState::Funded {
        Some(ContractError::InvalidStateTransition)
    } else {
        None
    }
}

/// Why `approve_refund` is refused, if it is.
pub open spec fn approve_refund_error(m: ContractModel, caller: Address, id: u64) -> Option<ContractError> {
    if m.paused {
        Some(ContractError::ContractPaused)
    } else if lookup_error(m, id) is Some {
        lookup_error(m, id)
    } else if caller != m.escrow(id).unwrap().seller() {
        Some(ContractError::NotAuthorized)
    } else if m.escrow(id).unwrap().state != EscrowState::RefundRequested {
        Some(ContractError::InvalidStateTransition)
    } else if m.escrow(id).unwrap().buyer is None {
        Some(ContractError::EscrowHasNoBuyer)
    } else if m.stats.total_refunded == u64::MAX {
        Some(ContractError::ArithmeticError)
    } else {
        None
    }
}

/// Why `rotate_resolver` is refused, if it is.
pub open spec fn rotate_resolver_error(m: ContractModel, caller: Address, id: u64, new_resolver: Address) -> Option<ContractError> {
    if m.paused {
        Some(ContractError::ContractPaused)
    } else if lookup_error(m, id) is Some {
        lookup_error(m, id)
    } else if m.admin is None {
        Some(ContractError::NotAuthorized)
    } else {
        let e = m.escrow(id).unwrap();
        if !e.has_payee(caller) && Some(caller) != m.admin {
            Some(ContractError::NotAuthorized)
        } else if is_terminal(e.state) {
            Some(ContractError::InvalidState)
        } else if new_resolver == e.resolver {
            Some(ContractError::SameAddress)
        } else if e.has_payee(new_resolver) || e.buyer == Some(new_resolver) {
            Some(ContractError::InvalidAddress)
        } else {
            None
        }
    }
}

/// The contract with escrow `id` replaced by `e`.
pub open spec fn with_escrow(m: ContractModel, id: u64, e: EscrowView) -> ContractModel {
    ContractModel { escrows: m.escrows.update(id - 1, e), ..m }
}

impl EscrowContract {
    /// The checks a funding of escrow `id` with `tranche_amount` from `buyer`
    /// must pass, in order.
    pub fn funding_check(&self, id: u64, buyer: Address, tranche_amount: i128) -> (r: Result<(), ContractError>)
        requires
            self@.inv(),
        ensures
            match r {
                Ok(_) => fund_error(self@, id, buyer, tranche_amount) is None,
                Err(e) => fund_error(self@, id, buyer, tranche_amount) == Some(e),
            },
    {
        self.ensure_not_paused()?;
        let e = self.load_escrow(id)?;
        if e.state != EscrowState::Pending {
            return Err(ContractError::InvalidState);
        }
        if tranche_amount <= 0 {
            return Err(ContractError::InvalidAmount);
        }
        if is_payee(&e.payees, &buyer) || buyer == e.resolver {
            return Err(ContractError::ConflictingRoles);
        }
        match e.buyer {
            Some(b) => if b != buyer {
                return Err(ContractError::NotAuthorized);
            },
            None => {},
        }
        let total = match e.funded_amount.checked_add(tranche_amount) {
            Some(t) => t,
            None => return Err(ContractError::ArithmeticError),
        };
        if total > e.amount {
            return Err(ContractError::TrancheExceedsRemaining);
        }
        Ok(())
    }

    /// Whether funding escrow `id` with `tranche_amount` from `buyer` would be
    /// accepted and complete the escrow's funding, opening its dispute window
    /// at the current time.
    pub fn funding_completes(&self, id: u64, buyer: Address, tranche_amount: i128) -> (b: bool)
        requires
            self@.inv(),
        ensures
            b == (fund_error(self@, id, buyer, tranche_amount) is None && completes_funding(self@, id, tranche_amount)),
    {
        match self.funding_check(id, buyer, tranche_amount) {
            Ok(_) => {
                let e = self.load_escrow(id);
                match e {
                    Ok(e) => e.funded_amount + tranche_amount == e.amount,
                    Err(_) => false,
                }
            },
            Err(_) => false,
        }
    }

    /// The shared body of `fund_escrow` and `fund_escrow_tranche`: `buyer`
    /// (who must authorize the call) pays `tranche_amount` into the vault.
    fn fund_tranche(&mut self, id: u64, buyer: Address, tranche_amount: i128, now: u64) -> (r: Result<Outcome, ContractError>)
        requires
            old(self)@.inv(),
            fund_error(old(self)@, id, buyer, tranche_amount) is None && completes_funding(old(self)@, id, tranche_amount)
                ==> now <= u64::MAX - DISPUTE_WINDOW,
        ensures
            final(self)@.inv(),
            match r {
                Err(e) => fund_error(old(self)@, id, buyer, tranche_amount) == Some(e) && final(self)@ == old(self)@,
                Ok(o) => fund_error(old(self)@, id, buyer, tranche_amount) is None
                    && final(self)@ == with_funding(old(self)@, id, buyer, tranche_amount, now)
                    && o.authorizers@.len() == 0
                    && o.transfers@ == seq![Transfer::Deposit { token: old(self)@.escrow(id).unwrap().token, from: buyer, amount: tranche_amount }]
                    && o.events@ == seq![funding_event(old(self)@.escrow(id).unwrap(), id, buyer, tranche_amount, now)],
            },
    {
        self.funding_check(id, buyer, tranche_amount)?;
        let e = self.load_escrow(id)?;
        let total = e.funded_amount + tranche_amount;
        let ghost before = self@;
        let ghost ev = e@;
        let first_payment = e.funded_amount == 0;
        let token = e.token;
        let amount = e.amount;
        let mut updated = e.duplicate();
        updated.buyer = Some(buyer);
        updated.funded_amount = total;
        let fully_funded = total == amount;
        if fully_funded {
            updated.state = EscrowState::Funded;
            updated.funded_at = now;
            updated.dispute_deadline = now + DISPUTE_WINDOW;
        }
        assert(updated@ == funded_record(ev, buyer, tranche_amount, now));
        self.store_escrow(id, updated);
        if first_payment {
            index_push(&mut self.buyer_index, buyer, id);
        }
        proof {
            assert(self@ =~= with_funding(before, id, buyer, tranche_amount, now));
            let ne = funded_record(ev, buyer, tranche_amount, now);
            assert(record_ok(ne)) by {
                assert(ne.payees == ev.payees);
            }
            assert forall|i: int| 0 <= i < self@.escrows.len() implies record_ok(#[trigger] self@.escrows[i]) by {
                if i != id - 1 {
                    assert(self@.escrows[i] == before.escrows[i]);
                }
            }
        }
        let event = if fully_funded {
            ContractEvent::EscrowFunded(EscrowFunded {
                escrow_id: id,
                buyer,
                amount,
                timestamp: now,
                prev_state: EscrowState::Pending,
                new_state: EscrowState::Funded,
            })
        } else {
            ContractEvent::EscrowTrancheFunded(EscrowTrancheFunded {
                escrow_id: id,
                buyer,
                tranche_amount,
                funded_amount: total,
                total_amount: amount,
                timestamp: now,
            })
        };
        let mut o = Outcome::event(event);
        o.transfers.push(Transfer::Deposit { token, from: buyer, amount: tranche_amount });
        Ok(o)
    }

    /// `buyer` (who must authorize the call) pays the whole unpaid balance
    /// of a pending escrow into the vault. The buyer is locked in on the
    /// first payment; the escrow becomes `Funded` and its 48-hour dispute
    /// window opens.
    pub fn fund_escrow(&mut self, id: u64, buyer: Address, now: u64) -> (r: Result<Outcome, ContractError>)
        requires
            old(self)@.inv(),
            fund_escrow_error(old(self)@, id, buyer) is None ==> now <= u64::MAX - DISPUTE_WINDOW,
        ensures
            final(self)@.inv(),
            match r {
                Err(e) => fund_escrow_error(old(self)@, id, buyer) == Some(e) && final(self)@ == old(self)@,
                Ok(o) => fund_escrow_error(old(self)@, id, buyer) is None && {
                    let e = old(self)@.escrow(id).unwrap();
                    let remaining = (e.amount - e.funded_amount) as i128;
                    &&& final(self)@ == with_funding(old(self)@, id, buyer, remaining, now)
                    &&& o.authorizers@.len() == 0
                    &&& o.transfers@ == seq![Transfer::Deposit { token: e.token, from: buyer, amount: remaining }]
                    &&& o.events@ == seq![funding_event(e, id, buyer, remaining, now)]
                },
            },
    {
        let e = self.load_escrow(id)?;
        let remaining = e.amount - e.funded_amount;
        self.fund_tranche(id, buyer, remaining, now)
    }

    /// `buyer` (who must authorize the call) pays part of a pending escrow's
    /// amount. Repeated tranches from the same buyer accumulate; the escrow
    /// becomes `Funded` exactly when they reach the agreed amount.
    pub fn fund_escrow_tranche(&mut self, id: u64, buyer: Address, tranche_amount: i128, now: u64) -> (r: Result<Outcome, ContractError>)
        requires
            old(self)@.inv(),
            fund_error(old(self)@, id, buyer, tranche_amount) is None && completes_funding(old(self)@, id, tranche_amount)
                ==> now <= u64::MAX - DISPUTE_WINDOW,
        ensures
            final(self)@.inv(),
            match r {
                Err(e) => fund_error(old(self)@, id, buyer, tranche_amount) == Some(e) && final(self)@ == old(self)@,
                Ok(o) => fund_error(old(self)@, id, buyer, tranche_amount) is None
                    && final(self)@ == with_funding(old(self)@, id, buyer, tranche_amount, now)
                    && o.authorizers@.len() == 0
                    && o.transfers@ == seq![Transfer::Deposit { token: old(self)@.escrow(id).unwrap().token, from: buyer, amount: tranche_amount }]
                    && o.events@ == seq![funding_event(old(self)@.escrow(id).unwrap(), id, buyer, tranche_amount, now)],
            },
    {
        self.fund_tranche(id, buyer, tranche_amount, now)
    }
}

impl EscrowContract {
    /// Replaces escrow `id` with `updated`, which must keep the record
    /// invariant, the escrow's buyer and its seller.
    pub(crate) fn update_escrow(&mut self, id: u64, updated: EscrowData)
        requires
            old(self)@.inv(),
            1 <= id <= old(self)@.escrows.len(),
            record_ok(updated@),
            updated@.buyer == old(self)@.escrows[id - 1].buyer,
            updated@.seller() == old(self)@.escrows[id - 1].seller(),
        ensures
            final(self)@ == with_escrow(old(self)@, id, updated@),
            final(self)@.inv(),
    {
        let ghost before = self@;
        self.store_escrow(id, updated);
        proof {
            assert forall|i: int| 0 <= i < self@.escrows.len() implies record_ok(#[trigger] self@.escrows[i]) by {
                if i != id - 1 {
                    assert(self@.escrows[i] == before.escrows[i]);
                }
            }
        }
    }

    /// A payee marks a funded escrow as shipped, with a tracking id of 1 to
    /// 64 bytes.
    pub fn mark_shipped(&mut self, caller: Address, id: u64, tracking_id: String, now: u64) -> (r: Result<Outcome, ContractError>)
        requires
            old(self)@.inv(),
        ensures
            final(self)@.inv(),
            match r {
                Err(e) => ship_error(old(self)@, caller, id, tracking_id@) == Some(e) && final(self)@ == old(self)@,
                Ok(o) => ship_error(old(self)@, caller, id, tracking_id@) is None && {
                    let e = old(self)@.escrow(id).unwrap();
                    &&& final(self)@ == with_escrow(old(self)@, id, EscrowView {
                        state: EscrowState::Shipped,
                        shipped_at: now,
                        tracking_id: Some(tracking_id@),
                        ..e
                    })
                    &&& o.authorizers@.len() == 0
                    &&& o.transfers@.len() == 0
                    &&& o.events@ == seq![ContractEvent::EscrowShipped(EscrowShipped {
                        escrow_id: id,
                        seller: e.seller(),
                        tracking_id,
                        timestamp: now,
                        prev_state: EscrowState::Funded,
                        new_state: EscrowState::Shipped,
                    })]
                },
            },
    {
        self.ensure_not_paused()?;
        let e = self.load_escrow(id)?;
        if !is_payee(&e.payees, &caller) {
            return Err(ContractError::NotAuthorized);
        }
        if e.state != EscrowState::Funded {
            return Err(ContractError::InvalidState);
        }
        if tracking_id.as_str().is_empty() {
            return Err(ContractError::InvalidTrackingId);
        }
        if tracking_id.as_str().len() > MAX_TRACKING_ID_LEN {
            return Err(ContractError::InputTooLong);
        }
        let seller = e.payees[0].address;
        let mut updated = e.duplicate();
        updated.state = EscrowState::Shipped;
        updated.shipped_at = now;
        updated.tracking_id = Some(crate::types::copy_string(&tracking_id));
        self.update_escrow(id, updated);
        Ok(Outcome::event(ContractEvent::EscrowShipped(EscrowShipped {
            escrow_id: id,
            seller,
            tracking_id,
            timestamp: now,
            prev_state: EscrowState::Funded,
            new_state: EscrowState::Shipped,
        })))
    }

    /// The admin records the delivery of a shipped escrow, which starts the
    /// delivery release window of `auto_release`.
    pub fn record_delivery(&mut self, caller: Address, id: u64, now: u64) -> (r: Result<Outcome, ContractError>)
        requires
            old(self)@.inv(),
        ensures
            final(self)@.inv(),
            match r {
                Err(e) => delivery_error(old(self)@, caller, id) == Some(e) && final(self)@ == old(self)@,
                Ok(o) => delivery_error(old(self)@, caller, id) is None
                    && final(self)@ == with_escrow(old(self)@, id, EscrowView { delivered_at: Some(now), ..old(self)@.escrow(id).unwrap() })
                    && only_event(o, ContractEvent::DeliveryRecorded(DeliveryRecorded { escrow_id: id, delivered_at: now })),
            },
    {
        self.require_admin_caller(&caller)?;
        let e = self.load_escrow(id)?;
        if e.state != EscrowState::Shipped {
            return Err(ContractError::InvalidState);
        }
        let mut updated = e.duplicate();
        updated.delivered_at = Some(now);
        self.update_escrow(id, updated);
        Ok(Outcome::event(ContractEvent::DeliveryRecorded(DeliveryRecorded { escrow_id: id, delivered_at: now })))
    }

    /// Cancels an escrow. The seller may cancel a pending or funded escrow
    /// (a seller cancellation refunds nothing); the buyer may cancel a
    /// funded escrow, getting the whole amount back, or one still being paid
    /// in tranches, getting the tranches back.
    pub fn cancel_escrow(&mut self, caller: Address, id: u64, now: u64) -> (r: Result<Outcome, ContractError>)
        requires
            old(self)@.inv(),
        ensures
            final(self)@.inv(),
            match r {
                Err(e) => cancel_error(old(self)@, caller, id) == Some(e) && final(self)@ == old(self)@,
                Ok(o) => cancel_error(old(self)@, caller, id) is None && {
                    let e = old(self)@.escrow(id).unwrap();
                    &&& final(self)@ == with_escrow(old(self)@, id, cancelled_record(e, caller))
                    &&& o.authorizers@.len() == 0
                    &&& o.transfers@ == cancel_transfers(e, caller)
                    &&& o.events@ == seq![ContractEvent::EscrowCancelled(EscrowCancelled {
                        escrow_id: id,
                        seller: caller,
                        timestamp: now,
                        prev_state: e.state,
                        new_state: cancelled_record(e, caller).state,
                    })]
                },
            },
    {
        self.ensure_not_paused()?;
        let e = self.load_escrow(id)?;
        let is_seller = caller == e.payees[0].address;
        let is_buyer = e.buyer == Some(caller);
        if !is_seller && !is_buyer {
            return Err(ContractError::NotAuthorized);
        }
        if is_buyer && e.state != EscrowState::Funded && e.state != EscrowState::Pending {
            return Err(ContractError::InvalidState);
        }
        if is_seller && !is_buyer && e.state != EscrowState::Pending && e.state != EscrowState::Funded {
            return Err(ContractError::InvalidState);
        }
        let prev_state = e.state;
        let mut o = Outcome::empty();
        let mut updated = e.duplicate();
        if is_buyer {
            let refund = if e.state == EscrowState::Funded { e.amount } else { e.funded_amount };
            if refund > 0 {
                o.transfers.push(Transfer::Payout { token: e.token, to: caller, amount: refund });
                updated.funded_amount = 0;
            }
            if refund > 0 && e.fee_bps > 0 {
                updated.state = EscrowState::Refunded;
            } else {
                updated.state = EscrowState::Canceled;
            }
        } else {
            updated.state = EscrowState::Canceled;
        }
        let new_state = updated.state;
        let ghost ev = e@;
        assert(updated@ == cancelled_record(ev, caller));
        self.update_escrow(id, updated);
        o.events.push(ContractEvent::EscrowCancelled(EscrowCancelled {
            escrow_id: id,
            seller: caller,
            timestamp: now,
            prev_state,
            new_state,
        }));
        Ok(o)
    }

    /// Cancels a funded, unshipped escrow by mutual agreement: the seller and
    /// the buyer must both authorize the call (returned in the outcome), and
    /// the buyer gets the whole amount back with no fee taken.
    pub fn mutual_cancel(&mut self, id: u64, now: u64) -> (r: Result<Outcome, ContractError>)
        requires
            old(self)@.inv(),
        ensures
            final(self)@.inv(),
            match r {
                Err(e) => mutual_cancel_error(old(self)@, id) == Some(e) && final(self)@ == old(self)@,
                Ok(o) => mutual_cancel_error(old(self)@, id) is None && {
                    let e = old(self)@.escrow(id).unwrap();
                    let buyer = e.buyer.unwrap();
                    &&& final(self)@ == with_escrow(old(self)@, id, EscrowView { state: EscrowState::Canceled, ..e })
                    &&& o.authorizers@ == seq![e.seller(), buyer]
                    &&& o.transfers@ == seq![Transfer::Payout { token: e.token, to: buyer, amount: e.amount }]
                    &&& o.events@ == seq![ContractEvent::EscrowCancelled(EscrowCancelled {
                        escrow_id: id,
                        seller: e.seller(),
                        timestamp: now,
                        prev_state: EscrowState::Funded,
                        new_state: EscrowState::Canceled,
                    })]
                },
            },
    {
        self.ensure_not_paused()?;
        let e = self.load_escrow(id)?;
        let buyer = match e.buyer {
            Some(b) => b,
            None => return Err(ContractError::EscrowHasNoBuyer),
        };
        if e.state != EscrowState::Funded {
            return Err(ContractError::InvalidState);
        }
        let seller = e.payees[0].address;
        let token = e.token;
        let amount = e.amount;
        let mut updated = e.duplicate();
        updated.state = EscrowState::Canceled;
        self.update_escrow(id, updated);
        let mut o = Outcome::event(ContractEvent::EscrowCancelled(EscrowCancelled {
            escrow_id: id,
            seller,
            timestamp: now,
            prev_state: EscrowState::Funded,
            new_state: EscrowState::Canceled,
        }));
        o.authorizers.push(seller);
        o.authorizers.push(buyer);
        o.transfers.push(Transfer::Payout { token, to: buyer, amount });
        Ok(o)
    }

    /// The buyer asks for a refund of a funded, unshipped escrow.
    pub fn request_refund(&mut self, caller: Address, id: u64, now: u64) -> (r: Result<Outcome, ContractError>)
        requires
            old(self)@.inv(),
        ensures
            final(self)@.inv(),
            match r {
                Err(e) => request_refund_error(old(self)@, caller, id) == Some(e) && final(self)@ == old(self)@,
                Ok(o) => request_refund_error(old(self)@, caller, id) is None
                    && final(self)@ == with_escrow(old(self)@, id, EscrowView { state: EscrowState::RefundRequested, ..old(self)@.escrow(id).unwrap() })
                    && only_event(o, ContractEvent::RefundRequested(RefundRequestedEvent {
                        escrow_id: id,
                        buyer: caller,
                        timestamp: now,
                        prev_state: EscrowState::Funded,
                        new_state: EscrowState::RefundRequested,
                    })),
            },
    {
        self.ensure_not_paused()?;
        let e = self.load_escrow(id)?;
        match e.buyer {
            Some(b) => if b != caller {
                return Err(ContractError::NotAuthorized);
            },
            None => return Err(ContractError::EscrowHasNoBuyer),
        }
        if e.state != EscrowState::Funded {
            return Err(ContractError::InvalidStateTransition);
        }
        let mut updated = e.duplicate();
        updated.state = EscrowState::RefundRequested;
        self.update_escrow(id, updated);
        Ok(Outcome::event(ContractEvent::RefundRequested(RefundRequestedEvent {
            escrow_id: id,
            buyer: caller,
            timestamp: now,
            prev_state: EscrowState::Funded,
            new_state: EscrowState::RefundRequested,
        })))
    }

    /// The seller approves a requested refund: the buyer gets the whole
    /// amount back.
    pub fn approve_refund(&mut self, caller: Address, id: u64, now: u64) -> (r: Result<Outcome, ContractError>)
        requires
            old(self)@.inv(),
        ensures
            final(self)@.inv(),
            match r {
                Err(e) => approve_refund_error(old(self)@, caller, id) == Some(e) && final(self)@ == old(self)@,
                Ok(o) => approve_refund_error(old(self)@, caller, id) is None && {
                    let e = old(self)@.escrow(id).unwrap();
                    &&& final(self)@ == ContractModel {
                        stats: ContractStats { total_refunded: (old(self)@.stats.total_refunded + 1) as u64, ..old(self)@.stats },
                        ..with_escrow(old(self)@, id, EscrowView { state: EscrowState::Refunded, ..e })
                    }
                    &&& o.authorizers@.len() == 0
                    &&& o.transfers@ == seq![Transfer::Payout { token: e.token, to: e.buyer.unwrap(), amount: e.amount }]
                    &&& o.events@ == seq![ContractEvent::RefundApproved(RefundApprovedEvent {
                        escrow_id: id,
                        seller: caller,
                        timestamp: now,
                        prev_state: EscrowState::RefundRequested,
                        new_state: EscrowState::Refunded,
                    })]
                },
            },
    {
        self.ensure_not_paused()?;
        let e = self.load_escrow(id)?;
        if caller != e.payees[0].address {
            return Err(ContractError::NotAuthorized);
        }
        if e.state != EscrowState::RefundRequested {
            return Err(ContractError::InvalidStateTransition);
        }
        let buyer = match e.buyer {
            Some(b) => b,
            None => return Err(ContractError::EscrowHasNoBuyer),
        };
        if self.stats.total_refunded == u64::MAX {
            return Err(ContractError::ArithmeticError);
        }
        let token = e.token;
        let amount = e.amount;
        let mut updated = e.duplicate();
        updated.state = EscrowState::Refunded;
        self.update_escrow(id, updated);
        self.stats.total_refunded = self.stats.total_refunded + 1;
        let mut o = Outcome::event(ContractEvent::RefundApproved(RefundApprovedEvent {
            escrow_id: id,
            seller: caller,
            timestamp: now,
            prev_state: EscrowState::RefundRequested,
            new_state: EscrowState::Refunded,
        }));
        o.transfers.push(Transfer::Payout { token, to: buyer, amount });
        Ok(o)
    }

    /// A payee or the admin replaces the resolver of an escrow that is not
    /// settled yet. The new resolver must differ from the current one, from
    /// every payee and from the buyer.
    pub fn rotate_resolver(&mut self, caller: Address, id: u64, new_resolver: Address, now: u64) -> (r: Result<Outcome, ContractError>)
        requires
            old(self)@.inv(),
        ensures
            final(self)@.inv(),
            match r {
                Err(e) => rotate_resolver_error(old(self)@, caller, id, new_resolver) == Some(e) && final(self)@ == old(self)@,
                Ok(o) => rotate_resolver_error(old(self)@, caller, id, new_resolver) is None && {
                    let e = old(self)@.escrow(id).unwrap();
                    &&& final(self)@ == with_escrow(old(self)@, id, EscrowView { resolver: new_resolver, ..e })
                    &&& only_event(o, ContractEvent::ResolverRotated(ResolverRotated {
                        escrow_id: id,
                        old_resolver: e.resolver,
                        new_resolver,
                        rotated_at: now,
                    }))
                },
            },
    {
        self.ensure_not_paused()?;
        let e = self.load_escrow(id)?;
        let admin = match self.admin {
            Some(a) => a,
            None => return Err(ContractError::NotAuthorized),
        };
        if !is_payee(&e.payees, &caller) && caller != admin {
            return Err(ContractError::NotAuthorized);
        }
        if e.state == EscrowState::Completed || e.state == EscrowState::Refunded || e.state == EscrowState::Canceled {
            return Err(ContractError::InvalidState);
        }
        if new_resolver == e.resolver {
            return Err(ContractError::SameAddress);
        }
        if is_payee(&e.payees, &new_resolver) || e.buyer == Some(new_resolver) {
            return Err(ContractError::InvalidAddress);
        }
        let old_resolver = e.resolver;
        let mut updated = e.duplicate();
        updated.resolver = new_resolver;
        self.update_escrow(id, updated);
        Ok(Outcome::event(ContractEvent::ResolverRotated(ResolverRotated {
            escrow_id: id,
            old_resolver,
            new_resolver,
            rotated_at: now,
        })))
    }
}

} // verus!
