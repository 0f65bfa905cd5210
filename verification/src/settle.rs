use vstd::prelude::*;
use crate::contract::{record_ok, bps_total, unreleased_total, ContractModel, EscrowContract, DELIVERY_RELEASE_WINDOW};
use crate::errors::ContractError;
use crate::events::{AutoReleased, ContractEvent, EscrowCompleted, MilestoneReleased, Outcome, Transfer};
use crate::fees::{
    calculate_protocol_fee, distribute_to_payees, lemma_fee_bounds, protocol_fee_result, split_overflows,
    split_payouts,
};
use crate::flow::{buyer_gate, lookup_error, with_escrow};
use crate::types::{Address, ContractStats, EscrowData, EscrowState, EscrowView, Milestone, Payee};

verus! {

/// Why paying out `amount` with a `bps` fee split among the payees fails, if it does.
pub open spec fn settle_error(amount: i128, bps: u32, ps: Seq<Payee>) -> Option<ContractError> {
    match protocol_fee_result(amount, bps) {
        Err(e) => Some(e),
        Ok((fee, net)) => if split_overflows(net, ps) {
            Some(ContractError::ArithmeticError)
        } else {
            None
        },
    }
}

/// The payouts that settle `amount`: the fee to the fee collector (when it
/// is not zero), then the net split among the payees.
pub open spec fn settle_transfers(token: Address, fee_collector: Address, amount: i128, bps: u32, ps: Seq<Payee>) -> Seq<Transfer> {
    let (fee, net) = protocol_fee_result(amount, bps).unwrap();
    let fee_part = if fee > 0 {
        seq![Transfer::Payout { token, to: fee_collector, amount: fee }]
    } else {
        seq![]
    };
    fee_part + split_payouts(token, net, ps)
}

/// The contract after escrow `id` is paid out and completed.
pub open spec fn with_completion(m: ContractModel, id: u64, e: EscrowView) -> ContractModel {
    ContractModel {
        stats: ContractStats { total_completed: (m.stats.total_completed + 1) as u64, ..m.stats },
        ..with_escrow(m, id, e)
    }
}

/// Why `confirm_delivery` is refused, if it is.
pub open spec fn confirm_error(m: ContractModel, caller: Address, id: u64, now: u64) -> Option<ContractError> {
    if buyer_gate(m, caller, id) is Some {
        buyer_gate(m, caller, id)
    } else {
        let e = m.escrow(id).unwrap();
        if e.state != EscrowState::Shipped {
            Some(ContractError::InvalidStateTransition)
        } else if now < e.dispute_deadline {
            Some(ContractError::DeliveryBeforeDisputeWindow)
        } else if m.fee_collector is None {
            Some(ContractError::NotAuthorized)
        } else if settle_error(e.amount, e.fee_bps, e.payees) is Some {
            settle_error(e.amount, e.fee_bps, e.payees)
        } else if m.stats.total_completed == u64::MAX {
            Some(ContractError::ArithmeticError)
        } else {
            None
        }
    }
}

/// When a recorded delivery or the elapsed windows allow `auto_release`;
/// the reason it does not, if it does not.
pub open spec fn release_window_error(e: EscrowView, now: u64) -> Option<ContractError> {
    match e.delivered_at {
        Some(d) => if d + DELIVERY_RELEASE_WINDOW > u64::MAX {
            Some(ContractError::ArithmeticOverflow)
        } else if now < d + DELIVERY_RELEASE_WINDOW {
            Some(ContractError::ShippingWindowNotElapsed)
        } else {
            None
        },
        None => {
            let base = if e.shipped_at > 0 { e.shipped_at } else { e.funded_at };
            if now < e.dispute_deadline {
                Some(ContractError::DisputeWindowClosed)
            } else if base + e.shipping_window > u64::MAX {
                Some(ContractError::ArithmeticOverflow)
            } else if now < base + e.shipping_window {
                Some(ContractError::ShippingWindowNotElapsed)
            } else {
                None
            }
        },
    }
}

/// Why `auto_release` is refused, if it is.
pub open spec fn auto_release_error(m: ContractModel, id: u64, now: u64) -> Option<ContractError> {
    if m.paused {
        Some(ContractError::ContractPaused)
    } else if lookup_error(m, id) is Some {
        lookup_error(m, id)
    } else {
        let e = m.escrow(id).unwrap();
        if e.state != EscrowState::Funded && e.state != EscrowState::Shipped {
            Some(ContractError::InvalidState)
        } else if m.dispute(id) is Some {
            Some(ContractError::InvalidState)
        } else if release_window_error(e, now) is Some {
            release_window_error(e, now)
        } else if m.fee_collector is None {
            Some(ContractError::NotAuthorized)
        } else if settle_error(e.amount, e.fee_bps, e.payees) is Some {
            settle_error(e.amount, e.fee_bps, e.payees)
        } else if m.stats.total_completed == u64::MAX {
            Some(ContractError::ArithmeticError)
        } else {
            None
        }
    }
}

/// A record's fee split succeeds whenever the net share products fit.
proof fn lemma_settle_inputs(amount: i128, bps: u32)
    requires
        amount >= 0,
        bps <= 10_000,
    ensures
        protocol_fee_result(amount, bps) matches Ok((fee, net)) && 0 <= fee && 0 <= net && fee + net == amount,
{
    lemma_fee_bounds(amount as int, bps as int);
}

impl EscrowContract {
    /// Computes the payouts that settle `amount` of escrow `e`: the fee at
    /// `bps` to `fee_collector`, the rest split among the payees.
    fn settlement(e: &EscrowData, fee_collector: Address, amount: i128, bps: u32) -> (r: Result<Vec<Transfer>, ContractError>)
        requires
            record_ok(e@),
            0 <= amount,
            bps <= 10_000,
        ensures
            match r {
                Ok(ts) => settle_error(amount, bps, e@.payees) is None
                    && ts@ == settle_transfers(e@.token, fee_collector, amount, bps, e@.payees),
                Err(err) => settle_error(amount, bps, e@.payees) == Some(err),
            },
    {
        proof {
            lemma_settle_inputs(amount, bps);
        }
        let (fee, net) = calculate_protocol_fee(amount, bps)?;
        let split = distribute_to_payees(e.token, &e.payees, net)?;
        let mut out: Vec<Transfer> = Vec::new();
        if fee > 0 {
            out.push(Transfer::Payout { token: e.token, to: fee_collector, amount: fee });
        }
        let ghost head = out@;
        let mut i: usize = 0;
        while i < split.len()
            invariant
                i <= split@.len(),
                out@ == head + split@.subrange(0, i as int),
            decreases split.len() - i,
        {
            out.push(split[i]);
            assert(out@ =~= head + split@.subrange(0, i + 1));
            i = i + 1;
        }
        assert(split@.subrange(0, split@.len() as int) =~= split@);
        Ok(out)
    }

    /// The buyer confirms delivery of a shipped escrow once its dispute
    /// window has closed: the escrow's fee goes to the fee collector, the
    /// rest is split among the payees, and the escrow completes.
    pub fn confirm_delivery(&mut self, caller: Address, id: u64, now: u64) -> (r: Result<Outcome, ContractError>)
        requires
            old(self)@.inv(),
        ensures
            final(self)@.inv(),
            match r {
                Err(e) => confirm_error(old(self)@, caller, id, now) == Some(e) && final(self)@ == old(self)@,
                Ok(o) => confirm_error(old(self)@, caller, id, now) is None && {
                    let e = old(self)@.escrow(id).unwrap();
                    &&& final(self)@ == with_completion(old(self)@, id, EscrowView { state: EscrowState::Completed, ..e })
                    &&& o.authorizers@.len() == 0
                    &&& o.transfers@ == settle_transfers(e.token, old(self)@.fee_collector.unwrap(), e.amount, e.fee_bps, e.payees)
                    &&& o.events@ == seq![ContractEvent::EscrowCompleted(EscrowCompleted {
                        escrow_id: id,
                        recipient: e.seller(),
                        amount: e.amount,
                        fee_bps: e.fee_bps,
                        timestamp: now,
                        prev_state: EscrowState::Shipped,
                        new_state: EscrowState::Completed,
                    })]
                },
            },
    {
        self.ensure_not_paused()?;
        let e = self.load_escrow(id)?;
        match e.buyer {
            Some(b) => if b != caller {
                return Err(ContractError::NotAuthorized);
            },
            None => return Err(ContractError::EscrowHasNoBuyer),
        }
        if e.state != EscrowState::Shipped {
            return Err(ContractError::InvalidStateTransition);
        }
        if now < e.dispute_deadline {
            return Err(ContractError::DeliveryBeforeDisputeWindow);
        }
        let fee_collector = self.read_fee_collector()?;
        proof {
            assert(record_ok(self@.escrows[id - 1]));
        }
        let transfers = Self::settlement(e, fee_collector, e.amount, e.fee_bps)?;
        if self.stats.total_completed == u64::MAX {
            return Err(ContractError::ArithmeticError);
        }
        let seller = e.payees[0].address;
        let amount = e.amount;
        let fee_bps = e.fee_bps;
        let mut updated = e.duplicate();
        updated.state = EscrowState::Completed;
        self.update_escrow(id, updated);
        self.stats.total_completed = self.stats.total_completed + 1;
        let mut o = Outcome::event(ContractEvent::EscrowCompleted(EscrowCompleted {
            escrow_id: id,
            recipient: seller,
            amount,
            fee_bps,
            timestamp: now,
            prev_state: EscrowState::Shipped,
            new_state: EscrowState::Completed,
        }));
        o.transfers = transfers;
        Ok(o)
    }

    /// Whether escrow `id` has a dispute record.
    pub fn has_dispute(&self, id: u64) -> (b: bool)
        requires
            self@.wf(),
        ensures
            b == self@.dispute(id) is Some,
    {
        if id >= 1 && id - 1 < self.disputes.len() as u64 {
            let idx = (id - 1) as usize;
            self.disputes[idx].is_some()
        } else {
            false
        }
    }

    /// Releases a funded or shipped escrow to its payees without a buyer
    /// confirmation: either the admin recorded its delivery at least 48 hours
    /// ago, or its dispute window has closed and its shipping window (from
    /// shipment, or from funding if never shipped) has elapsed. The fee fixed on
    /// the escrow when it was created goes to the fee collector and the rest is
    /// split among the payees.
    pub fn auto_release(&mut self, id: u64, now: u64) -> (r: Result<Outcome, ContractError>)
        requires
            old(self)@.inv(),
        ensures
            final(self)@.inv(),
            match r {
                Err(e) => auto_release_error(old(self)@, id, now) == Some(e) && final(self)@ == old(self)@,
                Ok(o) => auto_release_error(old(self)@, id, now) is None && {
                    let e = old(self)@.escrow(id).unwrap();
                    &&& final(self)@ == with_completion(old(self)@, id, EscrowView { state: EscrowState::Completed, ..e })
                    &&& o.authorizers@.len() == 0
                    &&& o.transfers@ == settle_transfers(e.token, old(self)@.fee_collector.unwrap(), e.amount, e.fee_bps, e.payees)
                    &&& o.events@ == seq![ContractEvent::AutoReleased(AutoReleased {
                        escrow_id: id,
                        seller: e.seller(),
                        amount: e.amount,
                        fee_bps: e.fee_bps,
                        timestamp: now,
                        prev_state: e.state,
                        new_state: EscrowState::Completed,
                    })]
                },
            },
    {
        self.ensure_not_paused()?;
        let e = self.load_escrow(id)?;
        if e.state != EscrowState::Funded && e.state != EscrowState::Shipped {
            return Err(ContractError::InvalidState);
        }
        if self.has_dispute(id) {
            return Err(ContractError::InvalidState);
        }
        match e.delivered_at {
            Some(delivered_at) => {
                let eligible_at = match delivered_at.checked_add(DELIVERY_RELEASE_WINDOW) {
                    Some(t) => t,
                    None => return Err(ContractError::ArithmeticOverflow),
                };
                if now < eligible_at {
                    return Err(ContractError::ShippingWindowNotElapsed);
                }
            },
            None => {
                if now < e.dispute_deadline {
                    return Err(ContractError::DisputeWindowClosed);
                }
                let base = if e.shipped_at > 0 { e.shipped_at } else { e.funded_at };
                let window_elapsed_at = match base.checked_add(e.shipping_window) {
                    Some(t) => t,
                    None => return Err(ContractError::ArithmeticOverflow),
                };
                if now < window_elapsed_at {
                    return Err(ContractError::ShippingWindowNotElapsed);
                }
            },
        }
        let fee_collector = self.read_fee_collector()?;
        proof {
            assert(record_ok(self@.escrows[id - 1]));
        }
        let transfers = Self::settlement(e, fee_collector, e.amount, e.fee_bps)?;
        if self.stats.total_completed == u64::MAX {
            return Err(ContractError::ArithmeticError);
        }
        let seller = e.payees[0].address;
        let amount = e.amount;
        let fee_bps = e.fee_bps;
        let prev_state = e.state;
        let mut updated = e.duplicate();
        updated.state = EscrowState::Completed;
        self.update_escrow(id, updated);
        self.stats.total_completed = self.stats.total_completed + 1;
        let mut o = Outcome::event(ContractEvent::AutoReleased(AutoReleased {
            escrow_id: id,
            seller,
            amount,
            fee_bps,
            timestamp: now,
            prev_state,
            new_state: EscrowState::Completed,
        }));
        o.transfers = transfers;
        Ok(o)
    }
}

/// Number of stages not yet released.
pub open spec fn unreleased_count(ms: Seq<Milestone>) -> int
    decreases ms.len(),
{
    if ms.len() == 0 {
        0
    } else {
        unreleased_count(ms.drop_last()) + if ms.last().released { 0int } else { 1int }
    }
}

/// Releasing one unreleased stage takes its amount off the unreleased total
/// and one off the unreleased count.
pub proof fn lemma_release_stage(ms: Seq<Milestone>, k: int)
    requires
        0 <= k < ms.len(),
        !ms[k].released,
    ensures
        unreleased_total(ms.update(k, Milestone { amount: ms[k].amount, released: true })) == unreleased_total(ms) - ms[k].amount,
        unreleased_count(ms.update(k, Milestone { amount: ms[k].amount, released: true })) == unreleased_count(ms) - 1,
    decreases ms.len(),
{
    let u = ms.update(k, Milestone { amount: ms[k].amount, released: true });
    if k == ms.len() - 1 {
        assert(u.drop_last() =~= ms.drop_last());
    } else {
        lemma_release_stage(ms.drop_last(), k);
        assert(u.drop_last() =~= ms.drop_last().update(k, Milestone { amount: ms[k].amount, released: true }));
    }
}

/// With positive stage amounts, something is still unreleased exactly when
/// the unreleased total is positive; neither is ever negative.
pub proof fn lemma_unreleased_positive(ms: Seq<Milestone>)
    requires
        forall|j: int| 0 <= j < ms.len() ==> #[trigger] ms[j].amount > 0,
    ensures
        unreleased_count(ms) >= 0,
        unreleased_total(ms) >= 0,
        unreleased_count(ms) > 0 <==> unreleased_total(ms) > 0,
    decreases ms.len(),
{
    if ms.len() > 0 {
        assert forall|j: int| 0 <= j < ms.drop_last().len() implies #[trigger] ms.drop_last()[j].amount > 0 by {
            assert(ms.drop_last()[j] == ms[j]);
        }
        lemma_unreleased_positive(ms.drop_last());
        assert(ms.last().amount > 0);
    }
}

/// Why `release_milestone` is refused, if it is.
pub open spec fn release_milestone_error(m: ContractModel, caller: Address, id: u64, index: u32, now: u64) -> Option<ContractError> {
    if buyer_gate(m, caller, id) is Some {
        buyer_gate(m, caller, id)
    } else {
        let e = m.escrow(id).unwrap();
        if e.state != EscrowState::Funded && e.state != EscrowState::Shipped {
            Some(ContractError::InvalidState)
        } else if now < e.dispute_deadline {
            Some(ContractError::DeliveryBeforeDisputeWindow)
        } else if e.milestones is None {
            Some(ContractError::NotMilestoneEscrow)
        } else if index >= e.milestones.unwrap().len() {
            Some(ContractError::MilestoneNotFound)
        } else if e.milestones.unwrap()[index as int].released {
            Some(ContractError::MilestoneAlreadyReleased)
        } else if m.fee_collector is None {
            Some(ContractError::NotAuthorized)
        } else if protocol_fee_result(e.milestones.unwrap()[index as int].amount, m.fees().protocol_fee_bps) is Err {
            Some(protocol_fee_result(e.milestones.unwrap()[index as int].amount, m.fees().protocol_fee_bps)->Err_0)
        } else if e.amount - e.milestones.unwrap()[index as int].amount < i128::MIN {
            Some(ContractError::ArithmeticError)
        } else if unreleased_count(released_stages(e.milestones.unwrap(), index as int)) == 0
            && m.stats.total_completed == u64::MAX {
            Some(ContractError::ArithmeticError)
        } else {
            None
        }
    }
}

/// The stages after stage `k` is released.
pub open spec fn released_stages(ms: Seq<Milestone>, k: int) -> Seq<Milestone> {
    ms.update(k, Milestone { amount: ms[k].amount, released: true })
}

/// The record after stage `index` of escrow `e` is released.
pub open spec fn milestone_released_record(e: EscrowView, index: int) -> EscrowView {
    let ms = released_stages(e.milestones.unwrap(), index);
    EscrowView {
        milestones: Some(ms),
        amount: (e.amount - e.milestones.unwrap()[index].amount) as i128,
        state: if unreleased_count(ms) == 0 { EscrowState::Completed } else { e.state },
        ..e
    }
}

/// The payouts of releasing `amount` to the seller: the net to the seller
/// and the protocol fee to the fee collector, each only when not zero.
pub open spec fn stage_transfers(token: Address, seller: Address, fee_collector: Address, amount: i128, bps: u32) -> Seq<Transfer> {
    let (fee, net) = protocol_fee_result(amount, bps).unwrap();
    let net_part = if net > 0 { seq![Transfer::Payout { token, to: seller, amount: net }] } else { seq![] };
    let fee_part = if fee > 0 { seq![Transfer::Payout { token, to: fee_collector, amount: fee }] } else { seq![] };
    net_part + fee_part
}

impl EscrowContract {
    /// The buyer releases one stage of a funded or shipped milestone escrow
    /// once its dispute window has closed: the stage's amount, less the
    /// protocol fee, goes to the seller and the fee to the fee collector.
    /// The stage's amount is taken off the escrow's amount, so the amount
    /// always equals what is still unreleased; releasing the last stage
    /// completes the escrow. A stage cannot be released twice.
    pub fn release_milestone(&mut self, caller: Address, id: u64, milestone_index: u32, now: u64) -> (r: Result<Outcome, ContractError>)
        requires
            old(self)@.inv(),
        ensures
            final(self)@.inv(),
            match r {
                Err(e) => release_milestone_error(old(self)@, caller, id, milestone_index, now) == Some(e) && final(self)@ == old(self)@,
                Ok(o) => release_milestone_error(old(self)@, caller, id, milestone_index, now) is None && {
                    let e = old(self)@.escrow(id).unwrap();
                    let ne = milestone_released_record(e, milestone_index as int);
                    let stage = e.milestones.unwrap()[milestone_index as int].amount;
                    let bps = old(self)@.fees().protocol_fee_bps;
                    let remaining = unreleased_count(ne.milestones.unwrap());
                    let released = ContractEvent::MilestoneReleased(MilestoneReleased {
                        escrow_id: id,
                        milestone_index,
                        seller: e.seller(),
                        amount: stage,
                        remaining: remaining as u32,
                        timestamp: now,
                    });
                    &&& final(self)@ == (if remaining == 0 {
                        with_completion(old(self)@, id, ne)
                    } else {
                        with_escrow(old(self)@, id, ne)
                    })
                    &&& o.authorizers@.len() == 0
                    &&& o.transfers@ == stage_transfers(e.token, e.seller(), old(self)@.fee_collector.unwrap(), stage, bps)
                    &&& o.events@ == (if remaining == 0 {
                        seq![ContractEvent::EscrowCompleted(EscrowCompleted {
                            escrow_id: id,
                            recipient: e.seller(),
                            amount: stage,
                            fee_bps: bps,
                            timestamp: now,
                            prev_state: e.state,
                            new_state: EscrowState::Completed,
                        }), released]
                    } else {
                        seq![released]
                    })
                },
            },
    {
        self.ensure_not_paused()?;
        let e = self.load_escrow(id)?;
        match e.buyer {
            Some(b) => if b != caller {
                return Err(ContractError::NotAuthorized);
            },
            None => return Err(ContractError::EscrowHasNoBuyer),
        }
        if e.state != EscrowState::Funded && e.state != EscrowState::Shipped {
            return Err(ContractError::InvalidState);
        }
        if now < e.dispute_deadline {
            return Err(ContractError::DeliveryBeforeDisputeWindow);
        }
        let stages = match &e.milestones {
            Some(ms) => ms,
            None => return Err(ContractError::NotMilestoneEscrow),
        };
        if milestone_index as usize >= stages.len() {
            return Err(ContractError::MilestoneNotFound);
        }
        let k = milestone_index as usize;
        let stage = stages[k];
        if stage.released {
            return Err(ContractError::MilestoneAlreadyReleased);
        }
        let fee_collector = self.read_fee_collector()?;
        let bps = self.read_fee_config().protocol_fee_bps;
        let (fee, net) = calculate_protocol_fee(stage.amount, bps)?;
        let new_amount = match e.amount.checked_sub(stage.amount) {
            Some(a) => a,
            None => return Err(ContractError::ArithmeticError),
        };
        let ghost ev = e@;
        let ghost before = self@;
        let mut new_stages = crate::types::copy_milestones(stages);
        new_stages.set(k, Milestone { amount: stage.amount, released: true });
        let mut remaining: usize = 0;
        let mut j: usize = 0;
        assert(new_stages@.subrange(0, 0) =~= Seq::<Milestone>::empty());
        while j < new_stages.len()
            invariant
                j <= new_stages@.len(),
                remaining == unreleased_count(new_stages@.subrange(0, j as int)),
                remaining <= j,
            decreases new_stages.len() - j,
        {
            assert(new_stages@.subrange(0, j + 1).drop_last() =~= new_stages@.subrange(0, j as int));
            if !new_stages[j].released {
                remaining = remaining + 1;
            }
            j = j + 1;
        }
        assert(new_stages@.subrange(0, new_stages@.len() as int) =~= new_stages@);
        assert(new_stages@ == released_stages(ev.milestones.unwrap(), k as int));
        if remaining == 0 && self.stats.total_completed == u64::MAX {
            return Err(ContractError::ArithmeticError);
        }
        let seller = e.payees[0].address;
        let token = e.token;
        let prev_state = e.state;
        let mut updated = e.duplicate();
        updated.milestones = Some(new_stages);
        updated.amount = new_amount;
        if remaining == 0 {
            updated.state = EscrowState::Completed;
        }
        proof {
            let ms = ev.milestones.unwrap();
            assert(record_ok(before.escrows[id - 1]));
            lemma_release_stage(ms, k as int);
            lemma_unreleased_positive(ms);
            let ns = released_stages(ms, k as int);
            assert forall|q: int| 0 <= q < ns.len() implies #[trigger] ns[q].amount > 0 by {
                assert(ms[q].amount > 0);
            }
            lemma_unreleased_positive(ns);
            assert(updated@ == milestone_released_record(ev, k as int));
        }
        self.update_escrow(id, updated);
        if remaining == 0 {
            self.stats.total_completed = self.stats.total_completed + 1;
        }
        let mut o = Outcome::empty();
        if net > 0 {
            o.transfers.push(Transfer::Payout { token, to: seller, amount: net });
        }
        if fee > 0 {
            o.transfers.push(Transfer::Payout { token, to: fee_collector, amount: fee });
        }
        if remaining == 0 {
            o.events.push(ContractEvent::EscrowCompleted(EscrowCompleted {
                escrow_id: id,
                recipient: seller,
                amount: stage.amount,
                fee_bps: bps,
                timestamp: now,
                prev_state,
                new_state: EscrowState::Completed,
            }));
        }
        o.events.push(ContractEvent::MilestoneReleased(MilestoneReleased {
            escrow_id: id,
            milestone_index,
            seller,
            amount: stage.amount,
            remaining: remaining as u32,
            timestamp: now,
        }));
        proof {
            assert(o.transfers@ =~= stage_transfers(ev.token, ev.seller(), fee_collector, stage.amount, bps));
        }
        Ok(o)
    }
}

} // verus!
