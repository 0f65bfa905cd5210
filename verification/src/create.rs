use vstd::prelude::*;
use crate::contract::{
    bps_total, index_push, is_payee, record_ok, unreleased_total, ContractModel, EscrowContract,
    MAX_ESCROW_FEE_BPS, MAX_MILESTONES, MAX_NOTES_LEN, MAX_ESCROW_AMOUNT, MIN_ESCROW_AMOUNT,
};
use crate::errors::ContractError;
use crate::events::{ContractEvent, EscrowCreated, MilestoneEscrowCreated, Outcome};
use crate::types::{
    byte_len, zero_address, Address, ContractStats, EscrowData, EscrowInput, EscrowState, EscrowView, Milestone, Payee,
};

verus! {

/// Sum of the shares of the first `n` payees.
pub open spec fn prefix_bps(ps: Seq<Payee>, n: int) -> int {
    bps_total(ps.subrange(0, n))
}

/// The first problem found scanning payees from position `i` on: a running
/// share total that overflows `u32`, or a zero payee address.
pub open spec fn payee_scan_error(ps: Seq<Payee>, i: int) -> Option<ContractError>
    decreases ps.len() - i,
{
    if i < 0 || i >= ps.len() {
        None
    } else if prefix_bps(ps, i + 1) > u32::MAX {
        Some(ContractError::ArithmeticError)
    } else if ps[i].address == zero_address() {
        Some(ContractError::InvalidAddress)
    } else {
        payee_scan_error(ps, i + 1)
    }
}

/// Why a payee list is refused, if it is: it must be non-empty, hold no
/// zero address, and its shares must add up to exactly 10_000 bps.
pub open spec fn payees_error(ps: Seq<Payee>) -> Option<ContractError> {
    if ps.len() == 0 {
        Some(ContractError::InvalidAddress)
    } else if payee_scan_error(ps, 0) is Some {
        payee_scan_error(ps, 0)
    } else if bps_total(ps) != 10_000 {
        Some(ContractError::InvalidAmount)
    } else {
        None
    }
}

/// Whether `a` is one of the payees.
pub open spec fn seq_has_payee(ps: Seq<Payee>, a: Address) -> bool {
    exists|i: int| 0 <= i < ps.len() && #[trigger] ps[i].address == a
}

/// Why an escrow amount is refused under the contract's limits, if it is.
pub open spec fn amount_error(m: ContractModel, amount: i128) -> Option<ContractError> {
    if amount <= 0 {
        Some(ContractError::InvalidAmount)
    } else if amount > m.max_limit() {
        Some(ContractError::AmountExceedsMaximum)
    } else if amount < m.min_limit() {
        Some(ContractError::AmountBelowMinimum)
    } else {
        None
    }
}

/// Why the token is refused by the token allowlist, if it is.
pub open spec fn token_error(m: ContractModel, token: Address) -> Option<ContractError> {
    if m.allowlist_enabled && !m.allowlist.contains(token) {
        Some(ContractError::TokenNotAllowed)
    } else {
        None
    }
}

/// `ArithmeticError` when `k` more escrows would overflow the id counter or
/// the creation count.
pub open spec fn counter_error(m: ContractModel, k: int) -> Option<ContractError> {
    if m.escrow_counter.unwrap() + k >= u64::MAX {
        Some(ContractError::ArithmeticError)
    } else if m.stats.total_created + k >= u64::MAX {
        Some(ContractError::ArithmeticError)
    } else {
        None
    }
}

/// Why the input of `create_escrow` is refused, if it is, before the id
/// counter is read.
pub open spec fn create_input_error(
    m: ContractModel,
    payees: Seq<Payee>,
    buyer: Option<Address>,
    resolver: Address,
    token: Address,
    amount: i128,
    fee_bps: u32,
    resolver_fee_bps: u32,
) -> Option<ContractError> {
    if payees.len() == 0 {
        Some(ContractError::InvalidAddress)
    } else if m.paused {
        Some(ContractError::ContractPaused)
    } else if amount_error(m, amount) is Some {
        amount_error(m, amount)
    } else if fee_bps > MAX_ESCROW_FEE_BPS || resolver_fee_bps > MAX_ESCROW_FEE_BPS {
        Some(ContractError::FeeExceedsMax)
    } else if payees_error(payees) is Some {
        payees_error(payees)
    } else if seq_has_payee(payees, resolver) || (buyer matches Some(b) && (seq_has_payee(payees, b) || b == resolver)) {
        Some(ContractError::ConflictingRoles)
    } else {
        token_error(m, token)
    }
}

/// Why `create_escrow` is refused, if it is: its input checks first, then
/// the id counter.
pub open spec fn create_escrow_error(
    m: ContractModel,
    payees: Seq<Payee>,
    buyer: Option<Address>,
    resolver: Address,
    token: Address,
    amount: i128,
    fee_bps: u32,
    resolver_fee_bps: u32,
) -> Option<ContractError> {
    if create_input_error(m, payees, buyer, resolver, token, amount, fee_bps, resolver_fee_bps) is Some {
        create_input_error(m, payees, buyer, resolver, token, amount, fee_bps, resolver_fee_bps)
    } else {
        counter_error(m, 0)
    }
}

/// The record of a newly created escrow.
pub open spec fn new_record(
    payees: Seq<Payee>,
    buyer: Option<Address>,
    resolver: Address,
    token: Address,
    amount: i128,
    fee_bps: u32,
    resolver_fee_bps: u32,
    shipping_window: u64,
    milestones: Option<Seq<Milestone>>,
) -> EscrowView {
    EscrowView {
        payees,
        buyer,
        resolver,
        token,
        amount,
        fee_bps,
        resolver_fee_bps,
        shipping_window,
        funded_at: 0,
        dispute_deadline: 0,
        shipped_at: 0,
        delivered_at: None,
        tracking_id: None,
        state: EscrowState::Pending,
        milestones,
        funded_amount: 0,
    }
}

/// The contract after a new escrow `rec` is stored under the next id and
/// listed for its seller.
pub open spec fn with_new_escrow(m: ContractModel, rec: EscrowView) -> ContractModel {
    let id = m.escrow_counter.unwrap();
    ContractModel {
        escrow_counter: Some((id + 1) as u64),
        escrows: m.escrows.push(rec),
        disputes: m.disputes.push(None),
        messages: m.messages.push(seq![]),
        vendor_index: m.vendor_index.insert(rec.seller(), m.vendor_ids(rec.seller()).push(id)),
        stats: ContractStats { total_created: (m.stats.total_created + 1) as u64, ..m.stats },
        ..m
    }
}

/// The creation event of escrow `id`.
pub open spec fn created_event(id: u64, rec: EscrowView, now: u64) -> ContractEvent {
    ContractEvent::EscrowCreated(EscrowCreated {
        escrow_id: id,
        seller: rec.seller(),
        resolver: rec.resolver,
        token: rec.token,
        amount: rec.amount,
        fee_bps: rec.fee_bps,
        resolver_fee_bps: rec.resolver_fee_bps,
        shipping_window: rec.shipping_window,
        timestamp: now,
        prev_state: EscrowState::Pending,
        new_state: EscrowState::Pending,
    })
}

impl EscrowContract {
    /// Checks a payee list: non-empty, no zero address, shares adding up to
    /// exactly 10_000 bps.
    pub fn validate_payees(payees: &Vec<Payee>) -> (r: Result<(), ContractError>)
        ensures
            match r {
                Ok(_) => payees_error(payees@) is None,
                Err(e) => payees_error(payees@) == Some(e),
            },
    {
        if payees.len() == 0 {
            return Err(ContractError::InvalidAddress);
        }
        let ghost ps = payees@;
        let mut total: u32 = 0;
        let mut i: usize = 0;
        assert(ps.subrange(0, 0) =~= Seq::<Payee>::empty());
        while i < payees.len()
            invariant
                i <= ps.len(),
                ps == payees@,
                total == prefix_bps(ps, i as int),
                payee_scan_error(ps, 0) == payee_scan_error(ps, i as int),
            decreases payees.len() - i,
        {
            let p = payees[i];
            assert(ps.subrange(0, i + 1).drop_last() =~= ps.subrange(0, i as int));
            total = match total.checked_add(p.bps) {
                Some(t) => t,
                None => return Err(ContractError::ArithmeticError),
            };
            if p.address.is_zero() {
                return Err(ContractError::InvalidAddress);
            }
            i = i + 1;
        }
        assert(ps.subrange(0, ps.len() as int) =~= ps);
        if total != 10_000 {
            return Err(ContractError::InvalidAmount);
        }
        Ok(())
    }

    /// `AmountExceedsMaximum` / `AmountBelowMinimum` / `InvalidAmount` when
    /// `amount` falls outside the contract's limits.
    pub fn check_amount(&self, amount: i128) -> (r: Result<(), ContractError>)
        ensures
            match r {
                Ok(_) => amount_error(self@, amount) is None,
                Err(e) => amount_error(self@, amount) == Some(e),
            },
    {
        if amount <= 0 {
            return Err(ContractError::InvalidAmount);
        }
        let max_amount = match self.max_amount {
            Some(m) => m,
            None => MAX_ESCROW_AMOUNT,
        };
        if amount > max_amount {
            return Err(ContractError::AmountExceedsMaximum);
        }
        let min_amount = match self.min_amount {
            Some(m) => m,
            None => MIN_ESCROW_AMOUNT,
        };
        if amount < min_amount {
            return Err(ContractError::AmountBelowMinimum);
        }
        Ok(())
    }

    /// `TokenNotAllowed` when the allowlist is enabled and lacks `token`.
    pub fn check_token_allowed(&self, token: &Address) -> (r: Result<(), ContractError>)
        ensures
            match r {
                Ok(_) => token_error(self@, *token) is None,
                Err(e) => token_error(self@, *token) == Some(e),
            },
    {
        if !self.allowlist_enabled {
            return Ok(());
        }
        let mut i: usize = 0;
        while i < self.allowlist.len()
            invariant
                i <= self.allowlist@.len(),
                forall|j: int| 0 <= j < i ==> self.allowlist@[j] != *token,
            decreases self.allowlist.len() - i,
        {
            if self.allowlist[i] == *token {
                assert(self@.allowlist.contains(*token));
                return Ok(());
            }
            i = i + 1;
        }
        Err(ContractError::TokenNotAllowed)
    }

    /// `ArithmeticError` when one more escrow would overflow a counter.
    pub fn check_counters(&self) -> (r: Result<(), ContractError>)
        requires
            self@.escrow_counter is Some,
        ensures
            match r {
                Ok(_) => counter_error(self@, 0) is None,
                Err(e) => counter_error(self@, 0) == Some(e),
            },
    {
        let counter = match self.escrow_counter {
            Some(c) => c,
            None => 0,
        };
        if counter == u64::MAX || self.stats.total_created == u64::MAX {
            return Err(ContractError::ArithmeticError);
        }
        Ok(())
    }

    /// Stores a new escrow under the next id, lists it for its seller and
    /// counts it; returns its id.
    pub(crate) fn add_escrow(&mut self, rec: EscrowData) -> (id: u64)
        requires
            old(self)@.inv(),
            old(self)@.escrow_counter is Some,
            counter_error(old(self)@, 0) is None,
            record_ok(rec@),
        ensures
            id == old(self)@.escrow_counter.unwrap(),
            final(self)@ == with_new_escrow(old(self)@, rec@),
            final(self)@.inv(),
    {
        let ghost before = self@;
        let ghost rv = rec@;
        let id = match self.escrow_counter {
            Some(c) => c,
            None => 0,
        };
        let seller = rec.payees[0].address;
        let ghost old_escrows = self.escrows@;
        let ghost old_disputes = self.disputes@;
        let ghost old_messages = self.messages@;
        self.escrows.push(rec);
        self.disputes.push(None);
        self.messages.push(Vec::new());
        self.escrow_counter = Some(id + 1);
        index_push(&mut self.vendor_index, seller, id);
        self.stats.total_created = self.stats.total_created + 1;
        proof {
            assert(self@.escrows =~= before.escrows.push(rv)) by {
                assert forall|j: int| 0 <= j < old_escrows.len() implies #[trigger] self.escrows@[j] == old_escrows[j] by {}
            }
            assert(self@.disputes =~= before.disputes.push(None)) by {
                assert forall|j: int| 0 <= j < old_disputes.len() implies #[trigger] self.disputes@[j] == old_disputes[j] by {}
            }
            assert(self@.messages =~= before.messages.push(seq![])) by {
                assert forall|j: int| 0 <= j < old_messages.len() implies #[trigger] self.messages@[j] == old_messages[j] by {}
                assert(crate::contract::message_views(self.messages@[old_messages.len() as int]) =~= Seq::<crate::types::MessageView>::empty());
            }
            assert(self@ =~= with_new_escrow(before, rv));
            let s = rv.seller();
            assert(self@.vendor_ids(s) == before.vendor_ids(s).push(id));
            assert forall|i: int| 0 <= i < self@.escrows.len()
                implies self@.vendor_ids(#[trigger] self@.escrows[i].seller()).contains((i + 1) as u64) by {
                if i < before.escrows.len() {
                    assert(self@.escrows[i] == before.escrows[i]);
                    let si = before.escrows[i].seller();
                    assert(before.vendor_ids(si).contains((i + 1) as u64));
                    if si == s {
                        let w = choose|w: int| 0 <= w < before.vendor_ids(si).len() && before.vendor_ids(si)[w] == (i + 1) as u64;
                        assert(self@.vendor_ids(si)[w] == (i + 1) as u64);
                    } else {
                        assert(self@.vendor_ids(si) == before.vendor_ids(si));
                    }
                } else {
                    assert(self@.escrows[i] == rv);
                    assert(self@.vendor_ids(s)[before.vendor_ids(s).len() as int] == id);
                }
            }
            assert forall|i: int| 0 <= i < self@.escrows.len() implies record_ok(#[trigger] self@.escrows[i]) by {
                if i < before.escrows.len() {
                    assert(self@.escrows[i] == before.escrows[i]);
                }
            }
        }
        id
    }

    /// The checks `create_escrow` makes on its input, in order, before it
    /// reads the id counter.
    pub fn check_create_input(
        &self,
        payees: &Vec<Payee>,
        buyer: Option<Address>,
        resolver: Address,
        token: Address,
        amount: i128,
        fee_bps: u32,
        resolver_fee_bps: u32,
    ) -> (r: Result<(), ContractError>)
        ensures
            match r {
                Ok(_) => create_input_error(self@, payees@, buyer, resolver, token, amount, fee_bps, resolver_fee_bps) is None,
                Err(e) => create_input_error(self@, payees@, buyer, resolver, token, amount, fee_bps, resolver_fee_bps) == Some(e),
            },
    {
        if payees.len() == 0 {
            return Err(ContractError::InvalidAddress);
        }
        self.ensure_not_paused()?;
        self.check_amount(amount)?;
        if fee_bps > MAX_ESCROW_FEE_BPS || resolver_fee_bps > MAX_ESCROW_FEE_BPS {
            return Err(ContractError::FeeExceedsMax);
        }
        Self::validate_payees(payees)?;
        let conflict = is_payee(payees, &resolver) || match buyer {
            Some(b) => is_payee(payees, &b) || b == resolver,
            None => false,
        };
        if conflict {
            return Err(ContractError::ConflictingRoles);
        }
        self.check_token_allowed(&token)
    }

    /// Creates an escrow paying `payees` (the first acts as the seller and
    /// must authorize the call), funded later by `buyer` (pre-assigned or
    /// locked in on first funding) and arbitrated by `resolver`. Returns the
    /// new escrow's id.
    ///
    /// The amount must be within the contract's limits, both fees at most
    /// 3%, the payees valid, and the resolver, the payees and the buyer must
    /// be distinct parties.
    pub fn create_escrow(
        &mut self,
        payees: Vec<Payee>,
        buyer: Option<Address>,
        resolver: Address,
        token: Address,
        amount: i128,
        fee_bps: u32,
        resolver_fee_bps: u32,
        shipping_window: u64,
        now: u64,
    ) -> (r: Result<(u64, Outcome), ContractError>)
        requires
            old(self)@.inv(),
            old(self)@.initialized()
                || create_input_error(old(self)@, payees@, buyer, resolver, token, amount, fee_bps, resolver_fee_bps) is Some,
        ensures
            final(self)@.inv(),
            match r {
                Err(e) => create_escrow_error(old(self)@, payees@, buyer, resolver, token, amount, fee_bps, resolver_fee_bps) == Some(e)
                    && final(self)@ == old(self)@,
                Ok((id, o)) => create_escrow_error(old(self)@, payees@, buyer, resolver, token, amount, fee_bps, resolver_fee_bps) is None
                    && id == old(self)@.escrow_counter.unwrap()
                    && final(self)@ == with_new_escrow(old(self)@, new_record(payees@, buyer, resolver, token, amount, fee_bps, resolver_fee_bps, shipping_window, None))
                    && o.authorizers@.len() == 0
                    && o.transfers@.len() == 0
                    && o.events@ == seq![created_event(id, new_record(payees@, buyer, resolver, token, amount, fee_bps, resolver_fee_bps, shipping_window, None), now)],
            },
    {
        self.check_create_input(&payees, buyer, resolver, token, amount, fee_bps, resolver_fee_bps)?;
        self.check_counters()?;
        let seller = payees[0].address;
        let rec = EscrowData {
            payees,
            buyer,
            resolver,
            token,
            amount,
            fee_bps,
            resolver_fee_bps,
            shipping_window,
            funded_at: 0,
            dispute_deadline: 0,
            shipped_at: 0,
            delivered_at: None,
            tracking_id: None,
            state: EscrowState::Pending,
            milestones: None,
            funded_amount: 0,
        };
        let ghost rv = rec@;
        assert(rv == new_record(rv.payees, buyer, resolver, token, amount, fee_bps, resolver_fee_bps, shipping_window, None));
        let id = self.add_escrow(rec);
        Ok((id, Outcome::event(ContractEvent::EscrowCreated(EscrowCreated {
            escrow_id: id,
            seller,
            resolver,
            token,
            amount,
            fee_bps,
            resolver_fee_bps,
            shipping_window,
            timestamp: now,
            prev_state: EscrowState::Pending,
            new_state: EscrowState::Pending,
        }))))
    }
}

/// Sum of a list of amounts.
pub open spec fn amounts_total(a: Seq<i128>) -> int
    decreases a.len(),
{
    if a.len() == 0 {
        0
    } else {
        amounts_total(a.drop_last()) + a.last()
    }
}

/// The first problem found scanning stage amounts from position `i` on: a
/// non-positive stage, or a running total that overflows `i128`.
pub open spec fn milestone_scan_error(a: Seq<i128>, i: int) -> Option<ContractError>
    decreases a.len() - i,
{
    if i < 0 || i >= a.len() {
        None
    } else if a[i] <= 0 {
        Some(ContractError::InvalidAmount)
    } else if amounts_total(a.subrange(0, i + 1)) > i128::MAX {
        Some(ContractError::ArithmeticError)
    } else {
        milestone_scan_error(a, i + 1)
    }
}

/// The stages of a new milestone escrow, none released.
pub open spec fn fresh_milestones(a: Seq<i128>) -> Seq<Milestone> {
    a.map_values(|x: i128| Milestone { amount: x, released: false })
}

/// The single-payee list of an escrow paying `seller` in full.
pub open spec fn sole_payee(seller: Address) -> Seq<Payee> {
    seq![Payee { address: seller, bps: 10_000 }]
}

/// Why the input of `create_milestone_escrow` is refused, if it is, before
/// the id counter is read. The total is held to the fixed amount bounds.
pub open spec fn milestone_input_error(
    m: ContractModel,
    seller: Address,
    buyer: Option<Address>,
    resolver: Address,
    amounts: Seq<i128>,
    fee_bps: u32,
) -> Option<ContractError> {
    if m.paused {
        Some(ContractError::ContractPaused)
    } else if amounts.len() == 0 {
        Some(ContractError::EmptyMilestones)
    } else if amounts.len() > MAX_MILESTONES {
        Some(ContractError::TooManyMilestones)
    } else if milestone_scan_error(amounts, 0) is Some {
        milestone_scan_error(amounts, 0)
    } else if amounts_total(amounts) > MAX_ESCROW_AMOUNT {
        Some(ContractError::AmountExceedsMaximum)
    } else if amounts_total(amounts) < MIN_ESCROW_AMOUNT {
        Some(ContractError::InvalidAmount)
    } else if fee_bps > MAX_ESCROW_FEE_BPS {
        Some(ContractError::FeeExceedsMax)
    } else if resolver == seller || (buyer matches Some(b) && (b == seller || b == resolver)) {
        Some(ContractError::ConflictingRoles)
    } else {
        None
    }
}

/// Why `create_milestone_escrow` is refused, if it is: its input checks
/// first, then the id counter.
pub open spec fn create_milestone_escrow_error(
    m: ContractModel,
    seller: Address,
    buyer: Option<Address>,
    resolver: Address,
    amounts: Seq<i128>,
    fee_bps: u32,
) -> Option<ContractError> {
    if milestone_input_error(m, seller, buyer, resolver, amounts, fee_bps) is Some {
        milestone_input_error(m, seller, buyer, resolver, amounts, fee_bps)
    } else {
        counter_error(m, 0)
    }
}

/// The record of a new milestone escrow.
pub open spec fn milestone_record(
    seller: Address,
    buyer: Option<Address>,
    resolver: Address,
    token: Address,
    amounts: Seq<i128>,
    fee_bps: u32,
    shipping_window: u64,
) -> EscrowView {
    new_record(
        sole_payee(seller),
        buyer,
        resolver,
        token,
        amounts_total(amounts) as i128,
        fee_bps,
        0,
        shipping_window,
        Some(fresh_milestones(amounts)),
    )
}

/// The stages of a fresh milestone escrow hold the whole total unreleased.
pub proof fn lemma_fresh_milestones_total(a: Seq<i128>)
    ensures
        unreleased_total(fresh_milestones(a)) == amounts_total(a),
    decreases a.len(),
{
    if a.len() > 0 {
        lemma_fresh_milestones_total(a.drop_last());
        assert(fresh_milestones(a).drop_last() =~= fresh_milestones(a.drop_last()));
    }
}

/// A single full-share payee adds up to 10_000 bps.
pub proof fn lemma_sole_payee(seller: Address)
    ensures
        bps_total(sole_payee(seller)) == 10_000,
        sole_payee(seller).len() == 1,
        sole_payee(seller)[0].address == seller,
{
    reveal_with_fuel(bps_total, 2);
    assert(sole_payee(seller).drop_last() =~= Seq::<Payee>::empty());
}

/// Why one request of a batch creation by `seller` is refused, if it is,
/// before the id counter is read.
pub open spec fn batch_request_error(m: ContractModel, seller: Address, input: EscrowInput) -> Option<ContractError> {
    if m.paused || m.action_paused("CREATE"@) {
        Some(ContractError::ContractPaused)
    } else if amount_error(m, input.amount) is Some {
        amount_error(m, input.amount)
    } else if input.fee_bps > MAX_ESCROW_FEE_BPS {
        Some(ContractError::FeeExceedsMax)
    } else if input.notes matches Some(n) && byte_len(n@) > MAX_NOTES_LEN {
        Some(ContractError::InputTooLong)
    } else if input.resolver == seller || (input.buyer matches Some(b) && (b == seller || b == input.resolver)) {
        Some(ContractError::ConflictingRoles)
    } else {
        None
    }
}

/// Why one request of a batch creation by `seller` is refused, if it is;
/// `k` is its position in the batch: its checks first, then the id counter.
pub open spec fn batch_input_error(m: ContractModel, seller: Address, input: EscrowInput, k: int) -> Option<ContractError> {
    if batch_request_error(m, seller, input) is Some {
        batch_request_error(m, seller, input)
    } else {
        counter_error(m, k)
    }
}

/// The first refused request of a batch from position `k` on.
pub open spec fn batch_scan_error(m: ContractModel, seller: Address, inputs: Seq<EscrowInput>, k: int) -> Option<ContractError>
    decreases inputs.len() - k,
{
    if k < 0 || k >= inputs.len() {
        None
    } else if batch_input_error(m, seller, inputs[k], k) is Some {
        batch_input_error(m, seller, inputs[k], k)
    } else {
        batch_scan_error(m, seller, inputs, k + 1)
    }
}

/// Why `batch_create_escrow` is refused, if it is.
pub open spec fn batch_error(m: ContractModel, seller: Address, inputs: Seq<EscrowInput>) -> Option<ContractError> {
    if m.paused {
        Some(ContractError::ContractPaused)
    } else {
        batch_scan_error(m, seller, inputs, 0)
    }
}

/// The record created for one batch request.
pub open spec fn batch_record(seller: Address, input: EscrowInput) -> EscrowView {
    new_record(sole_payee(seller), input.buyer, input.resolver, input.token, input.amount, input.fee_bps, 0, input.shipping_window, None)
}

/// The contract after every request of a batch is created in order.
pub open spec fn with_batch(m: ContractModel, seller: Address, inputs: Seq<EscrowInput>) -> ContractModel
    decreases inputs.len(),
{
    if inputs.len() == 0 {
        m
    } else {
        with_new_escrow(with_batch(m, seller, inputs.drop_last()), batch_record(seller, inputs.last()))
    }
}

impl EscrowContract {
    /// The checks `create_milestone_escrow` makes on its input, in order,
    /// before it reads the id counter; the escrow total on success.
    pub fn check_milestone_input(
        &self,
        seller: Address,
        buyer: Option<Address>,
        resolver: Address,
        milestone_amounts: &Vec<i128>,
        fee_bps: u32,
    ) -> (r: Result<i128, ContractError>)
        ensures
            match r {
                Ok(total) => milestone_input_error(self@, seller, buyer, resolver, milestone_amounts@, fee_bps) is None
                    && total == amounts_total(milestone_amounts@)
                    && forall|j: int| 0 <= j < milestone_amounts@.len() ==> #[trigger] milestone_amounts@[j] > 0,
                Err(e) => milestone_input_error(self@, seller, buyer, resolver, milestone_amounts@, fee_bps) == Some(e),
            },
    {
        self.ensure_not_paused()?;
        let n = milestone_amounts.len();
        if n == 0 {
            return Err(ContractError::EmptyMilestones);
        }
        if n > MAX_MILESTONES {
            return Err(ContractError::TooManyMilestones);
        }
        let ghost a = milestone_amounts@;
        let mut total: i128 = 0;
        let mut i: usize = 0;
        assert(a.subrange(0, 0) =~= Seq::<i128>::empty());
        while i < n
            invariant
                n == a.len(),
                1 <= n <= MAX_MILESTONES,
                !self@.paused,
                a == milestone_amounts@,
                i <= n,
                total == amounts_total(a.subrange(0, i as int)),
                milestone_scan_error(a, 0) == milestone_scan_error(a, i as int),
                forall|j: int| 0 <= j < i ==> #[trigger] a[j] > 0,
            decreases n - i,
        {
            let stage = milestone_amounts[i];
            if stage <= 0 {
                return Err(ContractError::InvalidAmount);
            }
            assert(a.subrange(0, i + 1).drop_last() =~= a.subrange(0, i as int));
            total = match total.checked_add(stage) {
                Some(t) => t,
                None => return Err(ContractError::ArithmeticError),
            };
            i = i + 1;
        }
        assert(a.subrange(0, n as int) =~= a);
        if total > MAX_ESCROW_AMOUNT {
            return Err(ContractError::AmountExceedsMaximum);
        }
        if total < MIN_ESCROW_AMOUNT {
            return Err(ContractError::InvalidAmount);
        }
        if fee_bps > MAX_ESCROW_FEE_BPS {
            return Err(ContractError::FeeExceedsMax);
        }
        let conflict = resolver == seller || match buyer {
            Some(b) => b == seller || b == resolver,
            None => false,
        };
        if conflict {
            return Err(ContractError::ConflictingRoles);
        }
        Ok(total)
    }

    /// Creates a milestone escrow: the total is staged across sequential
    /// payouts instead of one lump sum. Every stage must be positive, there
    /// must be between 1 and 20 stages, and the escrow amount is their sum,
    /// held to the fixed bounds on an escrow amount rather than to the limits
    /// the admin sets. The seller must authorize the call.
    pub fn create_milestone_escrow(
        &mut self,
        seller: Address,
        buyer: Option<Address>,
        resolver: Address,
        token: Address,
        milestone_amounts: &Vec<i128>,
        fee_bps: u32,
        shipping_window: u64,
        now: u64,
    ) -> (r: Result<(u64, Outcome), ContractError>)
        requires
            old(self)@.inv(),
            old(self)@.initialized()
                || milestone_input_error(old(self)@, seller, buyer, resolver, milestone_amounts@, fee_bps) is Some,
        ensures
            final(self)@.inv(),
            match r {
                Err(e) => create_milestone_escrow_error(old(self)@, seller, buyer, resolver, milestone_amounts@, fee_bps) == Some(e)
                    && final(self)@ == old(self)@,
                Ok((id, o)) => create_milestone_escrow_error(old(self)@, seller, buyer, resolver, milestone_amounts@, fee_bps) is None
                    && id == old(self)@.escrow_counter.unwrap()
                    && final(self)@ == with_new_escrow(old(self)@, milestone_record(seller, buyer, resolver, token, milestone_amounts@, fee_bps, shipping_window))
                    && o.authorizers@.len() == 0
                    && o.transfers@.len() == 0
                    && o.events@ == seq![
                        created_event(id, milestone_record(seller, buyer, resolver, token, milestone_amounts@, fee_bps, shipping_window), now),
                        ContractEvent::MilestoneEscrowCreated(MilestoneEscrowCreated {
                            escrow_id: id,
                            milestone_count: milestone_amounts@.len() as u32,
                            total_amount: amounts_total(milestone_amounts@) as i128,
                            timestamp: now,
                        }),
                    ],
            },
    {
        let total = self.check_milestone_input(seller, buyer, resolver, milestone_amounts, fee_bps)?;
        self.check_counters()?;
        let n = milestone_amounts.len();
        let ghost a = milestone_amounts@;
        let mut milestones: Vec<Milestone> = Vec::new();
        let mut i: usize = 0;
        while i < n
            invariant
                n == a.len(),
                a == milestone_amounts@,
                i <= n,
                milestones@ == fresh_milestones(a.subrange(0, i as int)),
            decreases n - i,
        {
            milestones.push(Milestone { amount: milestone_amounts[i], released: false });
            assert(milestones@ =~= fresh_milestones(a.subrange(0, i + 1)));
            i = i + 1;
        }
        assert(a.subrange(0, n as int) =~= a);
        self.check_counters()?;
        let mut payees: Vec<Payee> = Vec::new();
        payees.push(Payee { address: seller, bps: 10_000 });
        let rec = EscrowData {
            payees,
            buyer,
            resolver,
            token,
            amount: total,
            fee_bps,
            resolver_fee_bps: 0,
            shipping_window,
            funded_at: 0,
            dispute_deadline: 0,
            shipped_at: 0,
            delivered_at: None,
            tracking_id: None,
            state: EscrowState::Pending,
            milestones: Some(milestones),
            funded_amount: 0,
        };
        proof {
            lemma_sole_payee(seller);
            lemma_fresh_milestones_total(a);
            assert(rec@.payees =~= sole_payee(seller));
            assert(rec@ == milestone_record(seller, buyer, resolver, token, a, fee_bps, shipping_window));
            assert forall|j: int| 0 <= j < fresh_milestones(a).len() implies #[trigger] fresh_milestones(a)[j].amount > 0 by {
                assert(a[j] > 0);
            }
            assert(!rec@.has_payee(resolver)) by {
                if rec@.has_payee(resolver) {
                    let j = choose|j: int| 0 <= j < rec@.payees.len() && #[trigger] rec@.payees[j].address == resolver;
                    assert(j == 0);
                }
            }
            if let Some(b) = buyer {
                assert(!rec@.has_payee(b)) by {
                    if rec@.has_payee(b) {
                        let j = choose|j: int| 0 <= j < rec@.payees.len() && #[trigger] rec@.payees[j].address == b;
                        assert(j == 0);
                    }
                }
            }
        }
        let id = self.add_escrow(rec);
        let mut o = Outcome::event(ContractEvent::EscrowCreated(EscrowCreated {
            escrow_id: id,
            seller,
            resolver,
            token,
            amount: total,
            fee_bps,
            resolver_fee_bps: 0,
            shipping_window,
            timestamp: now,
            prev_state: EscrowState::Pending,
            new_state: EscrowState::Pending,
        }));
        o.events.push(ContractEvent::MilestoneEscrowCreated(MilestoneEscrowCreated {
            escrow_id: id,
            milestone_count: n as u32,
            total_amount: total,
            timestamp: now,
        }));
        Ok((id, o))
    }
}

impl EscrowContract {
    /// The checks one request of a batch creation by `seller` must pass, in
    /// order, before the id counter is read.
    pub fn check_batch_request(&self, seller: Address, input: &EscrowInput) -> (r: Result<(), ContractError>)
        ensures
            match r {
                Ok(_) => batch_request_error(self@, seller, *input) is None,
                Err(e) => batch_request_error(self@, seller, *input) == Some(e),
            },
    {
        let create_action = "CREATE".to_owned();
        self.ensure_action_not_paused(&create_action)?;
        self.check_amount(input.amount)?;
        if input.fee_bps > MAX_ESCROW_FEE_BPS {
            return Err(ContractError::FeeExceedsMax);
        }
        match &input.notes {
            Some(notes) => {
                if notes.as_str().len() > MAX_NOTES_LEN {
                    return Err(ContractError::InputTooLong);
                }
            },
            None => {},
        }
        let conflict = input.resolver == seller || match input.buyer {
            Some(b) => b == seller || b == input.resolver,
            None => false,
        };
        if conflict {
            return Err(ContractError::ConflictingRoles);
        }
        Ok(())
    }

    /// Creates one escrow per request, all sold by `seller` (who must
    /// authorize the call), and returns their ids in order. Each request is
    /// checked as a single-payee escrow: the `CREATE` action must not be
    /// paused, the amount within limits, the fee at most 3%, the notes at most
    /// 500 bytes, and seller, buyer and resolver distinct. If any request is
    /// refused, no escrow is created.
    pub fn batch_create_escrow(&mut self, seller: Address, escrows: &Vec<EscrowInput>, now: u64) -> (r: Result<(Vec<u64>, Outcome), ContractError>)
        requires
            old(self)@.inv(),
            old(self)@.initialized() || old(self)@.paused || escrows@.len() == 0
                || batch_request_error(old(self)@, seller, escrows@[0]) is Some,
        ensures
            final(self)@.inv(),
            match r {
                Err(e) => batch_error(old(self)@, seller, escrows@) == Some(e) && final(self)@ == old(self)@,
                Ok((ids, o)) => batch_error(old(self)@, seller, escrows@) is None
                    && final(self)@ == with_batch(old(self)@, seller, escrows@)
                    && ids@ == Seq::new(escrows@.len(), |k: int| (old(self)@.escrow_counter.unwrap() + k) as u64)
                    && o.authorizers@.len() == 0
                    && o.transfers@.len() == 0
                    && o.events@ == Seq::new(
                        escrows@.len(),
                        |k: int| created_event((old(self)@.escrow_counter.unwrap() + k) as u64, batch_record(seller, escrows@[k]), now),
                    ),
            },
    {
        self.ensure_not_paused()?;
        let ghost m = self@;
        let ghost inputs = escrows@;
        let n = escrows.len();
        if n == 0 {
            let ids: Vec<u64> = Vec::new();
            let o = Outcome::empty();
            assert(ids@ =~= Seq::new(0, |k: int| (m.escrow_counter.unwrap() + k) as u64));
            assert(o.events@ =~= Seq::new(
                0,
                |k: int| created_event((m.escrow_counter.unwrap() + k) as u64, batch_record(seller, inputs[k]), now),
            ));
            return Ok((ids, o));
        }
        let counter = match self.escrow_counter {
            Some(c) => c,
            None => 0,
        };
        let created = self.stats.total_created;
        let mut k: usize = 0;
        while k < n
            invariant
                n == inputs.len(),
                inputs == escrows@,
                k <= n,
                self@ == m,
                m == old(self)@,
                m.inv(),
                n > 0,
                m.initialized() || k == 0,
                m.initialized() || batch_request_error(m, seller, inputs[0]) is Some,
                !m.paused,
                m.initialized() ==> m.escrow_counter == Some(counter),
                m.stats.total_created == created,
                batch_scan_error(m, seller, inputs, 0) == batch_scan_error(m, seller, inputs, k as int),
                forall|j: int| 0 <= j < k ==> #[trigger] batch_input_error(m, seller, inputs[j], j) is None,
            decreases n - k,
        {
            let inp = &escrows[k];
            self.check_batch_request(seller, inp)?;
            let kk = k as u64;
            if kk >= u64::MAX - counter || kk >= u64::MAX - created {
                return Err(ContractError::ArithmeticError);
            }
            assert(batch_request_error(m, seller, inputs[k as int]) is None);
            assert(m.initialized());
            assert(batch_input_error(m, seller, inputs[k as int], k as int) is None);
            k = k + 1;
        }
        assert(m.initialized());
        let mut ids: Vec<u64> = Vec::new();
        let mut o = Outcome::empty();
        let mut k: usize = 0;
        assert(inputs.subrange(0, 0) =~= Seq::<EscrowInput>::empty());
        while k < n
            invariant
                n == inputs.len(),
                inputs == escrows@,
                k <= n,
                m == old(self)@,
                m.inv(),
                !m.paused,
                m.escrow_counter == Some(counter),
                m.stats.total_created == created,
                forall|j: int| 0 <= j < n ==> #[trigger] batch_input_error(m, seller, inputs[j], j) is None,
                self@ == with_batch(m, seller, inputs.subrange(0, k as int)),
                self@.inv(),
                self@.escrow_counter == Some((counter + k) as u64),
                self@.stats.total_created == created + k,
                ids@ == Seq::new(k as nat, |j: int| (counter + j) as u64),
                o.authorizers@.len() == 0,
                o.transfers@.len() == 0,
                o.events@ == Seq::new(k as nat, |j: int| created_event((counter + j) as u64, batch_record(seller, inputs[j]), now)),
            decreases n - k,
        {
            let inp = &escrows[k];
            assert(batch_input_error(m, seller, inputs[k as int], k as int) is None);
            let mut payees: Vec<Payee> = Vec::new();
            payees.push(Payee { address: seller, bps: 10_000 });
            let rec = EscrowData {
                payees,
                buyer: inp.buyer,
                resolver: inp.resolver,
                token: inp.token,
                amount: inp.amount,
                fee_bps: inp.fee_bps,
                resolver_fee_bps: 0,
                shipping_window: inp.shipping_window,
                funded_at: 0,
                dispute_deadline: 0,
                shipped_at: 0,
                delivered_at: None,
                tracking_id: None,
                state: EscrowState::Pending,
                milestones: None,
                funded_amount: 0,
            };
            proof {
                lemma_sole_payee(seller);
                assert(rec@.payees =~= sole_payee(seller));
                assert(rec@ == batch_record(seller, inputs[k as int]));
                assert(!rec@.has_payee(inp.resolver)) by {
                    if rec@.has_payee(inp.resolver) {
                        let j = choose|j: int| 0 <= j < rec@.payees.len() && #[trigger] rec@.payees[j].address == inp.resolver;
                        assert(j == 0);
                    }
                }
                if let Some(b) = inp.buyer {
                    assert(!rec@.has_payee(b)) by {
                        if rec@.has_payee(b) {
                            let j = choose|j: int| 0 <= j < rec@.payees.len() && #[trigger] rec@.payees[j].address == b;
                            assert(j == 0);
                        }
                    }
                }
            }
            let ghost prev = self@;
            let id = self.add_escrow(rec);
            ids.push(id);
            o.events.push(ContractEvent::EscrowCreated(EscrowCreated {
                escrow_id: id,
                seller,
                resolver: inp.resolver,
                token: inp.token,
                amount: inp.amount,
                fee_bps: inp.fee_bps,
                resolver_fee_bps: 0,
                shipping_window: inp.shipping_window,
                timestamp: now,
                prev_state: EscrowState::Pending,
                new_state: EscrowState::Pending,
            }));
            proof {
                let sub = inputs.subrange(0, k + 1);
                assert(sub.drop_last() =~= inputs.subrange(0, k as int));
                assert(sub.last() == inputs[k as int]);
                assert(ids@ =~= Seq::new((k + 1) as nat, |j: int| (counter + j) as u64));
                assert(o.events@ =~= Seq::new((k + 1) as nat, |j: int| created_event((counter + j) as u64, batch_record(seller, inputs[j]), now)));
            }
            k = k + 1;
        }
        assert(inputs.subrange(0, n as int) =~= inputs);
        Ok((ids, o))
    }
}

} // verus!
