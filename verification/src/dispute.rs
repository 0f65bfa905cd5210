use vstd::prelude::*;
use crate::contract::{record_ok, opt_dispute, ContractModel, EscrowContract, APPEAL_WINDOW, MAX_DESCRIPTION_LEN};
use crate::errors::ContractError;
use crate::events::{ContractEvent, DisputePendingFinalization, DisputeRaised, DisputeResolved, Outcome, Transfer};
use crate::fees::{calculate_fee, fee_result, lemma_fee_bounds};
use crate::flow::{buyer_gate, lookup_error, with_escrow};
use crate::types::{
    byte_len, copy_string, Address, ContractStats, DisputeData, DisputeStatus, DisputeView, EscrowState, EscrowView,
    Hash32, ResolutionType,
};

verus! {

/// Why `raise_dispute` is refused, if it is.
pub open spec fn raise_dispute_error(m: ContractModel, caller: Address, id: u64, description: Seq<char>, now: u64) -> Option<ContractError> {
    if buyer_gate(m, caller, id) is Some {
        buyer_gate(m, caller, id)
    } else {
        let e = m.escrow(id).unwrap();
        if e.state == EscrowState::Disputed {
            Some(ContractError::InvalidState)
        } else if e.state != EscrowState::Funded && e.state != EscrowState::Shipped {
            Some(ContractError::InvalidStateTransition)
        } else if now >= e.dispute_deadline {
            Some(ContractError::DisputeWindowClosed)
        } else if byte_len(description) > MAX_DESCRIPTION_LEN {
            Some(ContractError::InputTooLong)
        } else if m.stats.total_disputed == u64::MAX {
            Some(ContractError::ArithmeticError)
        } else {
            None
        }
    }
}

/// The contract after a dispute is opened on escrow `id`.
pub open spec fn with_dispute(m: ContractModel, id: u64, d: DisputeView) -> ContractModel {
    ContractModel {
        disputes: m.disputes.update(id - 1, Some(d)),
        stats: ContractStats { total_disputed: (m.stats.total_disputed + 1) as u64, ..m.stats },
        ..with_escrow(m, id, EscrowView { state: EscrowState::Disputed, ..m.escrow(id).unwrap() })
    }
}

/// The amounts a resolution deducts and pays, in order: the resolver fee at
/// the escrow's resolver rate, the arbitration fee at the global rate on what
/// remains, the escrow fee at the escrow's rate on what remains after that,
/// and the net paid to the winning party.
pub struct ResolutionAmounts {
    pub resolver_fee: i128,
    pub arbitration_fee: i128,
    pub escrow_fee: i128,
    pub remaining: i128,
    pub net: i128,
}

/// The amounts of resolving escrow `e` with arbitration rate `arb_bps`, when
/// they can all be computed.
pub open spec fn resolution_amounts(e: EscrowView, arb_bps: u32) -> Option<ResolutionAmounts> {
    match fee_result(e.amount, e.resolver_fee_bps) {
        Err(_) => None,
        Ok(rf) => {
            let a1 = e.amount - rf;
            if rf > e.amount || a1 > i128::MAX {
                None
            } else {
                match fee_result(a1 as i128, arb_bps) {
                    Err(_) => None,
                    Ok(af) => {
                        let a2 = a1 - af;
                        if af > a1 {
                            None
                        } else {
                            match fee_result(a2 as i128, e.fee_bps) {
                                Err(_) => None,
                                Ok(ef) => if a2 - ef < i128::MIN || a2 - ef > i128::MAX {
                                    None
                                } else {
                                    Some(ResolutionAmounts {
                                        resolver_fee: rf,
                                        arbitration_fee: af,
                                        escrow_fee: ef,
                                        remaining: a2 as i128,
                                        net: (a2 - ef) as i128,
                                    })
                                },
                            }
                        }
                    },
                }
            }
        },
    }
}

/// Why `resolve_dispute` is refused, if it is.
pub open spec fn resolve_dispute_error(m: ContractModel, caller: Address, id: u64, resolution: ResolutionType, now: u64) -> Option<ContractError> {
    if m.paused || m.action_paused("RESOLVE"@) {
        Some(ContractError::ContractPaused)
    } else if lookup_error(m, id) is Some {
        lookup_error(m, id)
    } else if m.admin is None {
        Some(ContractError::NotAuthorized)
    } else {
        let e = m.escrow(id).unwrap();
        let arb = m.fees().arbitration_fee_bps;
        if caller != e.resolver && Some(caller) != m.admin {
            Some(ContractError::NotAuthorized)
        } else if e.state != EscrowState::Disputed {
            Some(ContractError::InvalidState)
        } else if fee_result(e.amount, e.resolver_fee_bps) is Err {
            Some(fee_result(e.amount, e.resolver_fee_bps)->Err_0)
        } else if fee_result(e.amount, e.resolver_fee_bps)->Ok_0 > e.amount {
            Some(ContractError::InsufficientBalance)
        } else if e.amount - fee_result(e.amount, e.resolver_fee_bps)->Ok_0 > i128::MAX {
            Some(ContractError::ArithmeticError)
        } else {
            let a1 = (e.amount - fee_result(e.amount, e.resolver_fee_bps)->Ok_0) as i128;
            if fee_result(a1, arb) is Err {
                Some(fee_result(a1, arb)->Err_0)
            } else if fee_result(a1, arb)->Ok_0 > a1 {
                Some(ContractError::InsufficientBalance)
            } else {
                let af = fee_result(a1, arb)->Ok_0;
                let a2 = (a1 - af) as i128;
                if m.arbitration_total(e.token) + af > i128::MAX || m.arbitration_total(e.token) + af < i128::MIN {
                    Some(ContractError::ArithmeticError)
                } else if now + APPEAL_WINDOW > u64::MAX {
                    Some(ContractError::ArithmeticError)
                } else if resolution == ResolutionType::Refund && e.buyer is None {
                    Some(ContractError::EscrowHasNoBuyer)
                } else if fee_result(a2, e.fee_bps) is Err {
                    Some(fee_result(a2, e.fee_bps)->Err_0)
                } else if af + fee_result(a2, e.fee_bps)->Ok_0 > i128::MAX
                    || m.accumulated(e.token) + af + fee_result(a2, e.fee_bps)->Ok_0 > i128::MAX {
                    Some(ContractError::ArithmeticError)
                } else if m.dispute(id) is None {
                    Some(ContractError::DisputeNotFound)
                } else {
                    None
                }
            }
        }
    }
}

/// The party a resolution pays: the seller on `Release`, the buyer on `Refund`.
pub open spec fn resolution_recipient(e: EscrowView, resolution: ResolutionType) -> Address {
    match resolution {
        ResolutionType::Release => e.seller(),
        ResolutionType::Refund => e.buyer.unwrap(),
    }
}

/// The contract after escrow `id` is resolved with amounts `a`.
pub open spec fn with_resolution(m: ContractModel, id: u64, resolution: ResolutionType, a: ResolutionAmounts) -> ContractModel {
    let e = m.escrow(id).unwrap();
    let d = m.dispute(id).unwrap();
    ContractModel {
        disputes: m.disputes.update(id - 1, Some(DisputeView { status: DisputeStatus::Resolved, ..d })),
        arbitration_totals: m.arbitration_totals.insert(e.token, (m.arbitration_total(e.token) + a.arbitration_fee) as i128),
        accumulated_fees: m.accumulated_fees.insert(
            e.token,
            (m.accumulated(e.token) + a.arbitration_fee + a.escrow_fee) as i128,
        ),
        ..with_escrow(m, id, EscrowView {
            amount: a.remaining,
            state: match resolution {
                ResolutionType::Release => EscrowState::Completed,
                ResolutionType::Refund => EscrowState::Refunded,
            },
            ..e
        })
    }
}

/// The payouts of a resolution: the resolver fee (when not zero), then the
/// net to the winning party.
pub open spec fn resolution_transfers(e: EscrowView, resolution: ResolutionType, a: ResolutionAmounts) -> Seq<Transfer> {
    let rf = if a.resolver_fee > 0 {
        seq![Transfer::Payout { token: e.token, to: e.resolver, amount: a.resolver_fee }]
    } else {
        seq![]
    };
    rf.push(Transfer::Payout { token: e.token, to: resolution_recipient(e, resolution), amount: a.net })
}

impl EscrowContract {
    /// The buyer disputes a funded or shipped escrow while its dispute window
    /// is open, with a reason, a description of at most 256 bytes and an
    /// evidence hash. An escrow already in dispute is refused with
    /// `InvalidState`; one in any other state with `InvalidStateTransition`.
    pub fn raise_dispute(
        &mut self,
        caller: Address,
        id: u64,
        reason: String,
        description: String,
        evidence_hash: Hash32,
        now: u64,
    ) -> (r: Result<Outcome, ContractError>)
        requires
            old(self)@.inv(),
        ensures
            final(self)@.inv(),
            match r {
                Err(e) => raise_dispute_error(old(self)@, caller, id, description@, now) == Some(e) && final(self)@ == old(self)@,
                Ok(o) => raise_dispute_error(old(self)@, caller, id, description@, now) is None && {
                    let e = old(self)@.escrow(id).unwrap();
                    &&& final(self)@ == with_dispute(old(self)@, id, DisputeView {
                        escrow_id: id,
                        reason: reason@,
                        description: description@,
                        evidence_hash,
                        status: DisputeStatus::Active,
                        disputed_at: now,
                        tracking_id: e.tracking_id,
                    })
                    &&& o.authorizers@.len() == 0
                    &&& o.transfers@.len() == 0
                    &&& o.events@ == seq![ContractEvent::DisputeRaised(DisputeRaised {
                        escrow_id: id,
                        buyer: caller,
                        reason,
                        description,
                        evidence_hash,
                        timestamp: now,
                        prev_state: e.state,
                        new_state: EscrowState::Disputed,
                    })]
                },
            },
    {
        self.ensure_not_paused()?;
        let e = self.load_escrow(id)?;
        match e.buyer {
            Some(b) => if b != caller {
                return Err(ContractError::NotAuthorized);
            },
            None => return Err(ContractError::EscrowHasNoBuyer),
        }
        if e.state == EscrowState::Disputed {
            return Err(ContractError::InvalidState);
        }
        if e.state != EscrowState::Funded && e.state != EscrowState::Shipped {
            return Err(ContractError::InvalidStateTransition);
        }
        if now >= e.dispute_deadline {
            return Err(ContractError::DisputeWindowClosed);
        }
        if description.as_str().len() > MAX_DESCRIPTION_LEN {
            return Err(ContractError::InputTooLong);
        }
        if self.stats.total_disputed == u64::MAX {
            return Err(ContractError::ArithmeticError);
        }
        let prev_state = e.state;
        let dispute = DisputeData {
            escrow_id: id,
            reason: copy_string(&reason),
            description: copy_string(&description),
            evidence_hash,
            status: DisputeStatus::Active,
            disputed_at: now,
            tracking_id: crate::types::copy_opt_string(&e.tracking_id),
        };
        let mut updated = e.duplicate();
        updated.state = EscrowState::Disputed;
        let ghost dv = dispute@;
        self.update_escrow(id, updated);
        let ghost mid = self@;
        let n = self.disputes.len();
        assert(id - 1 < n);
        let idx = (id - 1) as usize;
        assert(idx == id - 1);
        let ghost old_disputes = self.disputes@;
        self.disputes.set(idx, Some(dispute));
        self.stats.total_disputed = self.stats.total_disputed + 1;
        proof {
            assert forall|j: int| 0 <= j < self.disputes@.len() implies #[trigger] self@.disputes[j] == mid.disputes.update(id - 1, Some(dv))[j] by {
                if j != id - 1 {
                    assert(self.disputes@[j] == old_disputes[j]);
                }
            }
            assert(self@.disputes =~= mid.disputes.update(id - 1, Some(dv)));
        }
        Ok(Outcome::event(ContractEvent::DisputeRaised(DisputeRaised {
            escrow_id: id,
            buyer: caller,
            reason,
            description,
            evidence_hash,
            timestamp: now,
            prev_state,
            new_state: EscrowState::Disputed,
        })))
    }
}

impl EscrowContract {
    /// The dispute record of escrow `id`, if any.
    fn dispute_at(&self, id: u64) -> (r: Option<&DisputeData>)
        requires
            self@.wf(),
        ensures
            opt_dispute(match r { Some(d) => Some(*d), None => None }) == self@.dispute(id),
    {
        if id >= 1 && id - 1 < self.disputes.len() as u64 {
            let idx = (id - 1) as usize;
            match &self.disputes[idx] {
                Some(d) => Some(d),
                None => None,
            }
        } else {
            None
        }
    }

    /// The escrow's resolver or the admin settles a dispute. The resolver fee
    /// (at the escrow's resolver rate) is paid to the resolver, the
    /// arbitration fee (at the global rate, on what remains) and the escrow
    /// fee (at the escrow's rate, on what remains after that) stay in the
    /// vault as accumulated fees, and the rest goes to the seller on
    /// `Release` or to the buyer on `Refund`. The escrow's amount becomes
    /// what remained after the resolver and arbitration fees, the dispute is
    /// marked resolved, an appeal window of 24 hours is announced and the
    /// resolution is published.
    pub fn resolve_dispute(&mut self, caller: Address, id: u64, resolution: ResolutionType, now: u64) -> (r: Result<Outcome, ContractError>)
        requires
            old(self)@.inv(),
        ensures
            final(self)@.inv(),
            match r {
                Err(e) => resolve_dispute_error(old(self)@, caller, id, resolution, now) == Some(e) && final(self)@ == old(self)@,
                Ok(o) => resolve_dispute_error(old(self)@, caller, id, resolution, now) is None && {
                    let e = old(self)@.escrow(id).unwrap();
                    let a = resolution_amounts(e, old(self)@.fees().arbitration_fee_bps).unwrap();
                    &&& resolution_amounts(e, old(self)@.fees().arbitration_fee_bps) is Some
                    &&& final(self)@ == with_resolution(old(self)@, id, resolution, a)
                    &&& o.authorizers@.len() == 0
                    &&& o.transfers@ == resolution_transfers(e, resolution, a)
                    &&& o.events@ == seq![
                        ContractEvent::DisputePendingFinalization(DisputePendingFinalization {
                            escrow_id: id,
                            resolver: e.resolver,
                            resolution,
                            amount: a.remaining,
                            appeal_deadline: (now + APPEAL_WINDOW) as u64,
                            pending_at: now,
                        }),
                        ContractEvent::DisputeResolved(DisputeResolved {
                            escrow_id: id,
                            resolver: e.resolver,
                            resolution,
                            recipient: resolution_recipient(e, resolution),
                            amount: a.net,
                            arbitration_fee: a.arbitration_fee,
                            resolver_fee: a.resolver_fee,
                            timestamp: now,
                            prev_state: EscrowState::Disputed,
                            new_state: with_resolution(old(self)@, id, resolution, a).escrows[id - 1].state,
                        }),
                    ]
                },
            },
    {
        let resolve_action = "RESOLVE".to_owned();
        self.ensure_action_not_paused(&resolve_action)?;
        let e = self.load_escrow(id)?;
        let admin = match self.admin {
            Some(a) => a,
            None => return Err(ContractError::NotAuthorized),
        };
        if caller != e.resolver && caller != admin {
            return Err(ContractError::NotAuthorized);
        }
        if e.state != EscrowState::Disputed {
            return Err(ContractError::InvalidState);
        }
        let resolver_fee = calculate_fee(e.amount, e.resolver_fee_bps)?;
        if resolver_fee > e.amount {
            return Err(ContractError::InsufficientBalance);
        }
        let after_resolver = match e.amount.checked_sub(resolver_fee) {
            Some(v) => v,
            None => return Err(ContractError::ArithmeticError),
        };
        let arbitration_fee_bps = self.read_fee_config().arbitration_fee_bps;
        let arbitration_fee = calculate_fee(after_resolver, arbitration_fee_bps)?;
        if arbitration_fee > after_resolver {
            return Err(ContractError::InsufficientBalance);
        }
        proof {
            lemma_fee_bounds(after_resolver as int, arbitration_fee_bps as int);
        }
        let remaining = after_resolver - arbitration_fee;
        let token = e.token;
        let arbitration_total = self.get_total_arbitration_fees(token);
        let new_arbitration_total = match arbitration_total.checked_add(arbitration_fee) {
            Some(v) => v,
            None => return Err(ContractError::ArithmeticError),
        };
        let appeal_deadline = match now.checked_add(APPEAL_WINDOW) {
            Some(t) => t,
            None => return Err(ContractError::ArithmeticError),
        };
        let recipient = match resolution {
            ResolutionType::Release => e.payees[0].address,
            ResolutionType::Refund => match e.buyer {
                Some(b) => b,
                None => return Err(ContractError::EscrowHasNoBuyer),
            },
        };
        let escrow_fee = calculate_fee(remaining, e.fee_bps)?;
        proof {
            lemma_fee_bounds(remaining as int, e.fee_bps as int);
        }
        let retained = match arbitration_fee.checked_add(escrow_fee) {
            Some(v) => v,
            None => return Err(ContractError::ArithmeticError),
        };
        let accumulated = self.get_accumulated_fees(token);
        let new_accumulated = match accumulated.checked_add(retained) {
            Some(v) => v,
            None => return Err(ContractError::ArithmeticError),
        };
        let net = remaining - escrow_fee;
        let dispute = match self.dispute_at(id) {
            Some(d) => d.duplicate(),
            None => return Err(ContractError::DisputeNotFound),
        };
        let ghost before = self@;
        let ghost ev = e@;
        let resolver = e.resolver;
        let final_state = match resolution {
            ResolutionType::Release => EscrowState::Completed,
            ResolutionType::Refund => EscrowState::Refunded,
        };
        let mut updated = e.duplicate();
        updated.amount = remaining;
        updated.state = final_state;
        let mut resolved = dispute;
        resolved.status = DisputeStatus::Resolved;
        let ghost dv = resolved@;
        self.update_escrow(id, updated);
        self.arbitration_totals.set(token, new_arbitration_total);
        self.accumulated_fees.set(token, new_accumulated);
        let n = self.disputes.len();
        assert(id - 1 < n);
        let idx = (id - 1) as usize;
        assert(idx == id - 1);
        let ghost old_disputes = self.disputes@;
        self.disputes.set(idx, Some(resolved));
        proof {
            assert forall|j: int| 0 <= j < self.disputes@.len() implies #[trigger] self@.disputes[j] == before.disputes.update(id - 1, Some(dv))[j] by {
                if j != id - 1 {
                    assert(self.disputes@[j] == old_disputes[j]);
                }
            }
            assert(self@.disputes =~= before.disputes.update(id - 1, Some(dv)));
            assert(self@ =~= with_resolution(before, id, resolution, resolution_amounts(ev, arbitration_fee_bps).unwrap()));
        }
        let mut o = Outcome::event(ContractEvent::DisputePendingFinalization(DisputePendingFinalization {
            escrow_id: id,
            resolver,
            resolution,
            amount: remaining,
            appeal_deadline,
            pending_at: now,
        }));
        o.events.push(ContractEvent::DisputeResolved(DisputeResolved {
            escrow_id: id,
            resolver,
            resolution,
            recipient,
            amount: net,
            arbitration_fee,
            resolver_fee,
            timestamp: now,
            prev_state: EscrowState::Disputed,
            new_state: final_state,
        }));
        if resolver_fee > 0 {
            o.transfers.push(Transfer::Payout { token, to: resolver, amount: resolver_fee });
        }
        o.transfers.push(Transfer::Payout { token, to: recipient, amount: net });
        proof {
            assert(o.transfers@ =~= resolution_transfers(ev, resolution, resolution_amounts(ev, arbitration_fee_bps).unwrap()));
        }
        Ok(o)
    }
}

} // verus!
