use vstd::prelude::*;
use crate::admin::{amount_limits_error, arbitration_fee_error, protocol_fee_error, withdraw_fees_error};
use crate::errors::ContractError;
use crate::contract::{record_ok, bps_total, unreleased_total, ContractModel, DELIVERY_RELEASE_WINDOW, MAX_MESSAGE_PAGE};
use crate::dispute::{
    raise_dispute_error, resolution_amounts, resolution_transfers, resolve_dispute_error,
};
use crate::events::{total_paid_out, paid_out_to, Transfer};
use crate::fees::{fee_of, lemma_fee_bounds, lemma_split_pays_amount, protocol_fee_result, split_overflows};
use crate::flow::{
    approve_refund_error, cancel_error, cancel_refund, cancel_transfers, delivery_error, fund_error, funded_record, with_funding,
    mutual_cancel_error, request_refund_error, rotate_resolver_error, ship_error,
};
use crate::create::{create_escrow_error, with_new_escrow};
use crate::lifecycle::is_terminal;
use crate::queries::{buyer_listing, buyer_scan, message_page, post_message_error};
use crate::settle::{
    auto_release_error, confirm_error, lemma_release_stage, milestone_released_record, release_milestone_error,
    settle_error, settle_transfers, stage_transfers,
};
use crate::types::{Address, EscrowState, EscrowView, FeeConfig, MessageView, Payee, ResolutionType};

verus! {

/// What a sequence of transfers pays out is the sum over its two halves.
pub proof fn lemma_paid_out_concat(a: Seq<Transfer>, b: Seq<Transfer>)
    ensures
        total_paid_out(a + b) == total_paid_out(a) + total_paid_out(b),
    decreases b.len(),
{
    if b.len() == 0 {
        assert(a + b =~= a);
    } else {
        lemma_paid_out_concat(a, b.drop_last());
        assert((a + b).drop_last() =~= a + b.drop_last());
        assert((a + b).last() == b.last());
    }
}

/// A single payout pays out its amount, to its recipient.
pub proof fn lemma_paid_out_single(token: Address, to: Address, amount: i128)
    ensures
        total_paid_out(seq![Transfer::Payout { token, to, amount }]) == amount,
        paid_out_to(seq![Transfer::Payout { token, to, amount }], to) == amount,
{
    let s = seq![Transfer::Payout { token, to, amount }];
    assert(s.drop_last() =~= Seq::<Transfer>::empty());
    reveal_with_fuel(total_paid_out, 2);
    reveal_with_fuel(paid_out_to, 2);
}

/// Fee split: for a non-negative amount and a rate of at most 100%, the fee
/// is the amount times the rate over 10_000 rounded down, the fee and the
/// net add up to the amount with no rounding loss, both are non-negative,
/// and a zero rate charges nothing.
pub proof fn law_fee_split_is_exact(amount: i128, bps: u32)
    requires
        amount >= 0,
        bps <= 10_000,
    ensures
        protocol_fee_result(amount, bps) matches Ok((fee, net)) && {
            &&& fee == fee_of(amount as int, bps as int)
            &&& fee + net == amount
            &&& 0 <= fee <= amount
            &&& 0 <= net <= amount
            &&& (bps == 0 ==> fee == 0 && net == amount)
        },
{
    lemma_fee_bounds(amount as int, bps as int);
}

/// Settlement pays out exactly the escrow amount: the fee to the fee
/// collector and the rest split among the payees, whenever the settlement
/// goes through.
pub proof fn law_settlement_pays_exact_amount(
    token: Address,
    fee_collector: Address,
    amount: i128,
    bps: u32,
    payees: Seq<Payee>,
)
    requires
        amount >= 0,
        bps <= 10_000,
        payees.len() >= 1,
        bps_total(payees) == 10_000,
        settle_error(amount, bps, payees) is None,
    ensures
        total_paid_out(settle_transfers(token, fee_collector, amount, bps, payees)) == amount,
{
    lemma_fee_bounds(amount as int, bps as int);
    let (fee, net) = protocol_fee_result(amount, bps).unwrap();
    assert(!split_overflows(net, payees));
    lemma_split_pays_amount(token, net, payees);
    let fee_part = if fee > 0 {
        seq![Transfer::Payout { token, to: fee_collector, amount: fee }]
    } else {
        seq![]
    };
    let split = crate::fees::split_payouts(token, net, payees);
    lemma_paid_out_concat(fee_part, split);
    if fee > 0 {
        lemma_paid_out_single(token, fee_collector, fee);
    }
}

/// Releasing a milestone stage pays out exactly the stage amount (net to the
/// seller, fee to the fee collector), takes exactly that amount off the
/// escrow's held amount and off the unreleased stages, so the held amount
/// keeps equal to what is still unreleased.
pub proof fn law_stage_release_conserves(
    e: EscrowView,
    index: int,
    fee_collector: Address,
    bps: u32,
)
    requires
        e.milestones is Some,
        0 <= index < e.milestones.unwrap().len(),
        !e.milestones.unwrap()[index].released,
        e.milestones.unwrap()[index].amount >= 0,
        e.amount == unreleased_total(e.milestones.unwrap()),
        e.amount - e.milestones.unwrap()[index].amount >= i128::MIN,
        bps <= 10_000,
    ensures
        total_paid_out(stage_transfers(e.token, e.seller(), fee_collector, e.milestones.unwrap()[index].amount, bps))
            == e.milestones.unwrap()[index].amount,
        milestone_released_record(e, index).amount == e.amount - e.milestones.unwrap()[index].amount,
        milestone_released_record(e, index).amount == unreleased_total(milestone_released_record(e, index).milestones.unwrap()),
{
    let ms = e.milestones.unwrap();
    let amount = ms[index].amount;
    lemma_fee_bounds(amount as int, bps as int);
    lemma_release_stage(ms, index);
    let (fee, net) = protocol_fee_result(amount, bps).unwrap();
    let net_part = if net > 0 { seq![Transfer::Payout { token: e.token, to: e.seller(), amount: net }] } else { seq![] };
    let fee_part = if fee > 0 { seq![Transfer::Payout { token: e.token, to: fee_collector, amount: fee }] } else { seq![] };
    lemma_paid_out_concat(net_part, fee_part);
    if net > 0 {
        lemma_paid_out_single(e.token, e.seller(), net);
    }
    if fee > 0 {
        lemma_paid_out_single(e.token, fee_collector, fee);
    }
}

/// Dispute resolution conserves the escrow amount: the resolver fee, the
/// arbitration fee, the escrow fee and the net paid to the winner add up to
/// it, none of them negative. What the resolution pays out plus the fees
/// kept in the vault is exactly the amount.
pub proof fn law_resolution_conserves_amount(e: EscrowView, arb_bps: u32, resolution: ResolutionType)
    requires
        e.amount >= 0,
        e.resolver_fee_bps <= 10_000,
        e.fee_bps <= 10_000,
        arb_bps <= 10_000,
    ensures
        resolution_amounts(e, arb_bps) matches Some(a) && {
            &&& a.resolver_fee + a.arbitration_fee + a.escrow_fee + a.net == e.amount
            &&& a.remaining == a.escrow_fee + a.net
            &&& 0 <= a.resolver_fee && 0 <= a.arbitration_fee && 0 <= a.escrow_fee && 0 <= a.net
            &&& total_paid_out(resolution_transfers(e, resolution, a)) + a.arbitration_fee + a.escrow_fee == e.amount
        },
{
    lemma_fee_bounds(e.amount as int, e.resolver_fee_bps as int);
    let rf = fee_of(e.amount as int, e.resolver_fee_bps as int);
    let a1 = e.amount - rf;
    lemma_fee_bounds(a1, arb_bps as int);
    let af = fee_of(a1, arb_bps as int);
    let a2 = a1 - af;
    lemma_fee_bounds(a2, e.fee_bps as int);
    let a = resolution_amounts(e, arb_bps).unwrap();
    let rf_part = if a.resolver_fee > 0 {
        seq![Transfer::Payout { token: e.token, to: e.resolver, amount: a.resolver_fee }]
    } else {
        seq![]
    };
    assert(a.resolver_fee == rf && a.arbitration_fee == af);
    assert(a.remaining == a2);
    let ts = resolution_transfers(e, resolution, a);
    assert(ts.drop_last() =~= rf_part);
    assert(total_paid_out(ts) == total_paid_out(rf_part) + a.net);
    if a.resolver_fee > 0 {
        lemma_paid_out_single(e.token, e.resolver, a.resolver_fee);
    } else {
        assert(total_paid_out(rf_part) == 0);
    }
}

/// A buyer's cancellation hands back to the buyer everything held for the
/// escrow: the whole amount of a funded escrow, or the tranches paid so far
/// of a pending one, and pays nobody else.
pub proof fn law_buyer_cancel_refunds_holdings(e: EscrowView, buyer: Address)
    requires
        record_ok(e),
        e.buyer == Some(buyer),
        e.state == EscrowState::Pending || e.state == EscrowState::Funded,
    ensures
        paid_out_to(cancel_transfers(e, buyer), buyer) == cancel_refund(e),
        total_paid_out(cancel_transfers(e, buyer)) == cancel_refund(e),
        cancel_refund(e) == (if e.state == EscrowState::Funded { e.amount } else { e.funded_amount }),
{
    let ts = cancel_transfers(e, buyer);
    let r = cancel_refund(e);
    assert(r >= 0);
    if r > 0 {
        let t = Transfer::Payout { token: e.token, to: buyer, amount: r };
        assert(ts == seq![t]);
        lemma_paid_out_single(e.token, buyer, r);
    } else {
        assert(ts =~= Seq::<Transfer>::empty());
    }
}

/// Funding in tranches: an escrow becomes `Funded`, with its buyer locked in
/// and its dispute window opening, exactly when the paid total reaches the
/// agreed amount; before that it stays `Pending` with the running total.
pub proof fn law_funding_completes_at_amount(e: EscrowView, buyer: Address, tranche: i128, now: u64)
    requires
        e.state == EscrowState::Pending,
        tranche > 0,
        e.funded_amount + tranche <= e.amount,
    ensures
        funded_record(e, buyer, tranche, now).state == EscrowState::Funded <==> e.funded_amount + tranche == e.amount,
        funded_record(e, buyer, tranche, now).funded_amount == e.funded_amount + tranche,
        funded_record(e, buyer, tranche, now).buyer == Some(buyer),
        funded_record(e, buyer, tranche, now).amount == e.amount,
{
}

/// Settled escrows are final: once an escrow is `Completed`, `Refunded` or
/// `Canceled`, every operation that could move it or its funds refuses it.
pub proof fn law_settled_escrows_are_final(
    m: ContractModel,
    caller: Address,
    id: u64,
    tranche: i128,
    tracking_id: Seq<char>,
    description: Seq<char>,
    resolution: ResolutionType,
    index: u32,
    new_resolver: Address,
    now: u64,
)
    requires
        m.inv(),
        m.escrow(id) is Some,
        is_terminal(m.escrow(id).unwrap().state),
    ensures
        fund_error(m, id, caller, tranche) is Some,
        ship_error(m, caller, id, tracking_id) is Some,
        delivery_error(m, caller, id) is Some,
        confirm_error(m, caller, id, now) is Some,
        auto_release_error(m, id, now) is Some,
        release_milestone_error(m, caller, id, index, now) is Some,
        raise_dispute_error(m, caller, id, description, now) is Some,
        resolve_dispute_error(m, caller, id, resolution, now) is Some,
        cancel_error(m, caller, id) is Some,
        mutual_cancel_error(m, id) is Some,
        request_refund_error(m, caller, id) is Some,
        approve_refund_error(m, caller, id) is Some,
        rotate_resolver_error(m, caller, id, new_resolver) is Some,
{
}

/// Escrow ids are handed out in sequence: a new escrow gets the next id,
/// becomes readable under it, and leaves every earlier escrow unchanged.
pub proof fn law_new_escrow_takes_next_id(m: ContractModel, rec: EscrowView)
    requires
        m.inv(),
        m.initialized(),
        m.escrow_counter.unwrap() < u64::MAX,
    ensures
        m.escrow_counter.unwrap() == m.escrows.len() + 1,
        with_new_escrow(m, rec).escrow(m.escrow_counter.unwrap()) == Some(rec),
        with_new_escrow(m, rec).escrow_counter == Some((m.escrow_counter.unwrap() + 1) as u64),
        forall|j: u64| 1 <= j < m.escrow_counter.unwrap() ==> #[trigger] with_new_escrow(m, rec).escrow(j) == m.escrow(j),
        with_new_escrow(m, rec).escrow((m.escrow_counter.unwrap() + 1) as u64) is None,
{
}

/// Listing by vendor: creating an escrow appends its id to its seller's
/// listing and leaves every other vendor's listing unchanged.
pub proof fn law_vendor_listing_grows_by_new_id(m: ContractModel, rec: EscrowView, vendor: Address)
    requires
        m.inv(),
        m.initialized(),
    ensures
        with_new_escrow(m, rec).vendor_ids(vendor) == (if vendor == rec.seller() {
            m.vendor_ids(vendor).push(m.escrow_counter.unwrap())
        } else {
            m.vendor_ids(vendor)
        }),
{
}

/// Listing by buyer: a buyer's first payment into an escrow appends the
/// escrow's id to the buyer's listing; later tranches and other buyers'
/// listings are left unchanged.
pub proof fn law_buyer_listing_on_first_payment(
    m: ContractModel,
    id: u64,
    buyer: Address,
    tranche: i128,
    now: u64,
    other: Address,
)
    requires
        m.inv(),
        m.escrow(id) is Some,
    ensures
        with_funding(m, id, buyer, tranche, now).buyer_ids(buyer) == (if m.escrow(id).unwrap().funded_amount == 0 {
            m.buyer_ids(buyer).push(id)
        } else {
            m.buyer_ids(buyer)
        }),
        other != buyer ==> with_funding(m, id, buyer, tranche, now).buyer_ids(other) == m.buyer_ids(other),
{
}

/// A page of messages never holds more than 50 messages, nor more than asked
/// for, and lists the thread's messages from the requested position on, in
/// order.
pub proof fn law_message_page_bounded(msgs: Seq<MessageView>, start: u64, limit: u64)
    ensures
        message_page(msgs, start, limit).len() <= MAX_MESSAGE_PAGE,
        message_page(msgs, start, limit).len() <= limit,
        forall|j: int| 0 <= j < message_page(msgs, start, limit).len()
            ==> #[trigger] message_page(msgs, start, limit)[j] == msgs[start + j],
{
}

/// A fee withdrawal is accepted only for a positive amount within what the
/// vault has accumulated for the token, so the vault never goes negative.
pub proof fn law_withdrawal_within_vault(m: ContractModel, caller: Address, token: Address, amount: i128)
    requires
        m.inv(),
        withdraw_fees_error(m, caller, token, amount) is None,
    ensures
        0 < amount <= m.accumulated(token),
        m.accumulated(token) - amount >= 0,
{
}

/// The contract with its live fee configuration replaced.
pub open spec fn with_fee_config(m: ContractModel, fees: FeeConfig) -> ContractModel {
    ContractModel { fee_config: Some(fees), ..m }
}

/// The fee an escrow is settled with is the one fixed when it was created:
/// changing the live fee configuration changes neither whether a buyer
/// confirmation or an automatic release is accepted, nor the escrow whose
/// amount and fee the payouts are computed from.
pub proof fn law_settlement_ignores_live_fees(m: ContractModel, fees: FeeConfig, caller: Address, id: u64, now: u64)
    ensures
        confirm_error(with_fee_config(m, fees), caller, id, now) == confirm_error(m, caller, id, now),
        auto_release_error(with_fee_config(m, fees), id, now) == auto_release_error(m, id, now),
        with_fee_config(m, fees).escrow(id) == m.escrow(id),
{
}

/// While the contract is paused every operation that moves funds or changes
/// an escrow is refused with `ContractPaused`, before anything else is
/// checked (for a creation, once there is a payee to name).
pub proof fn law_paused_contract_refuses_changes(
    m: ContractModel,
    caller: Address,
    id: u64,
    payees: Seq<Payee>,
    buyer: Option<Address>,
    resolver: Address,
    token: Address,
    amount: i128,
    fee_bps: u32,
    resolver_fee_bps: u32,
    resolution: ResolutionType,
    index: u32,
    description: Seq<char>,
    tracking_id: Seq<char>,
    now: u64,
)
    requires
        m.paused,
    ensures
        payees.len() > 0 ==> create_escrow_error(m, payees, buyer, resolver, token, amount, fee_bps, resolver_fee_bps)
            == Some(ContractError::ContractPaused),
        fund_error(m, id, caller, amount) == Some(ContractError::ContractPaused),
        ship_error(m, caller, id, tracking_id) == Some(ContractError::ContractPaused),
        confirm_error(m, caller, id, now) == Some(ContractError::ContractPaused),
        raise_dispute_error(m, caller, id, description, now) == Some(ContractError::ContractPaused),
        resolve_dispute_error(m, caller, id, resolution, now) == Some(ContractError::ContractPaused),
        auto_release_error(m, id, now) == Some(ContractError::ContractPaused),
        release_milestone_error(m, caller, id, index, now) == Some(ContractError::ContractPaused),
        cancel_error(m, caller, id) == Some(ContractError::ContractPaused),
        mutual_cancel_error(m, id) == Some(ContractError::ContractPaused),
        request_refund_error(m, caller, id) == Some(ContractError::ContractPaused),
        approve_refund_error(m, caller, id) == Some(ContractError::ContractPaused),
        rotate_resolver_error(m, caller, id, resolver) == Some(ContractError::ContractPaused),
        withdraw_fees_error(m, caller, token, amount) == Some(ContractError::ContractPaused),
        post_message_error(m, id) == Some(ContractError::ContractPaused),
{
}

/// Every operation is accepted only from the role it belongs to: a payee
/// ships, the seller approves refunds, the buyer confirms, disputes, asks for
/// refunds and releases stages, the escrow's resolver or the admin resolves a
/// dispute, the seller or the buyer cancels, a payee or the admin rotates the
/// resolver, and only the admin records deliveries, sets fees and limits and
/// withdraws fees.
pub proof fn law_only_parties_act(
    m: ContractModel,
    caller: Address,
    id: u64,
    token: Address,
    amount: i128,
    fee_bps: u32,
    cap: u32,
    min_amount: i128,
    resolution: ResolutionType,
    index: u32,
    description: Seq<char>,
    tracking_id: Seq<char>,
    new_resolver: Address,
    now: u64,
)
    ensures
        ship_error(m, caller, id, tracking_id) is None ==> m.escrow(id).unwrap().has_payee(caller),
        confirm_error(m, caller, id, now) is None ==> m.escrow(id).unwrap().buyer == Some(caller),
        raise_dispute_error(m, caller, id, description, now) is None ==> m.escrow(id).unwrap().buyer == Some(caller),
        request_refund_error(m, caller, id) is None ==> m.escrow(id).unwrap().buyer == Some(caller),
        release_milestone_error(m, caller, id, index, now) is None ==> m.escrow(id).unwrap().buyer == Some(caller),
        approve_refund_error(m, caller, id) is None ==> caller == m.escrow(id).unwrap().seller(),
        resolve_dispute_error(m, caller, id, resolution, now) is None
            ==> caller == m.escrow(id).unwrap().resolver || m.admin == Some(caller),
        cancel_error(m, caller, id) is None
            ==> caller == m.escrow(id).unwrap().seller() || m.escrow(id).unwrap().buyer == Some(caller),
        rotate_resolver_error(m, caller, id, new_resolver) is None
            ==> m.escrow(id).unwrap().has_payee(caller) || m.admin == Some(caller),
        delivery_error(m, caller, id) is None ==> m.admin == Some(caller),
        protocol_fee_error(m, caller, fee_bps, cap) is None ==> m.admin == Some(caller),
        arbitration_fee_error(m, caller, fee_bps) is None ==> m.admin == Some(caller),
        amount_limits_error(m, caller, min_amount, amount) is None ==> m.admin == Some(caller),
        withdraw_fees_error(m, caller, token, amount) is None ==> m.admin == Some(caller),
{
}

/// An automatic release never comes early. With a delivery recorded it waits
/// 48 hours from the delivery. Without one it waits until the dispute window
/// has closed and the shipping window has elapsed, counted from shipment
/// when the escrow was shipped and from funding otherwise; so a shipped
/// escrow is never released before `shipped_at + shipping_window`. Only a
/// funded or shipped escrow without a dispute record is released.
pub proof fn law_auto_release_waits_for_its_windows(m: ContractModel, id: u64, e: EscrowView, now: u64)
    requires
        m.escrow(id) == Some(e),
        auto_release_error(m, id, now) is None,
    ensures
        e.state == EscrowState::Funded || e.state == EscrowState::Shipped,
        m.dispute(id) is None,
        e.delivered_at matches Some(d) ==> now >= d + DELIVERY_RELEASE_WINDOW,
        e.delivered_at is None ==> now >= e.dispute_deadline,
        e.delivered_at is None && e.shipped_at > 0 ==> now >= e.shipped_at + e.shipping_window,
        e.delivered_at is None && e.shipped_at == 0 ==> now >= e.funded_at + e.shipping_window,
{
}

/// The fallback scan lists, in increasing order, exactly the ids `1 ..= n`
/// of the escrows whose buyer is `buyer`.
proof fn lemma_buyer_scan(escrows: Seq<EscrowView>, buyer: Address, n: int)
    requires
        0 <= n <= escrows.len(),
        n < u64::MAX,
    ensures
        forall|j: int| 0 <= j < buyer_scan(escrows, buyer, n).len() ==> {
            &&& 1 <= #[trigger] buyer_scan(escrows, buyer, n)[j] <= n
            &&& escrows[buyer_scan(escrows, buyer, n)[j] - 1].buyer == Some(buyer)
        },
        forall|i: int, j: int| 0 <= i < j < buyer_scan(escrows, buyer, n).len()
            ==> buyer_scan(escrows, buyer, n)[i] < buyer_scan(escrows, buyer, n)[j],
        forall|k: int| 0 <= k < n && #[trigger] escrows[k].buyer == Some(buyer)
            ==> buyer_scan(escrows, buyer, n).contains((k + 1) as u64),
    decreases n,
{
    if n > 0 {
        lemma_buyer_scan(escrows, buyer, n - 1);
        let prev = buyer_scan(escrows, buyer, n - 1);
        let cur = buyer_scan(escrows, buyer, n);
        if escrows[n - 1].buyer == Some(buyer) {
            assert(cur == prev.push(n as u64));
            assert forall|k: int| 0 <= k < n && #[trigger] escrows[k].buyer == Some(buyer) implies cur.contains((k + 1) as u64) by {
                if k < n - 1 {
                    let w = choose|w: int| 0 <= w < prev.len() && prev[w] == (k + 1) as u64;
                    assert(cur[w] == prev[w]);
                } else {
                    assert(cur[prev.len() as int] == n as u64);
                }
            }
        }
    }
}

/// Listing by buyer: every id listed for a buyer names an existing escrow
/// whose buyer it is, and without an index entry the listing holds exactly
/// the escrows whose buyer it is, in increasing id order.
pub proof fn law_buyer_listing_names_the_buyers_escrows(m: ContractModel, buyer: Address)
    requires
        m.inv(),
    ensures
        forall|j: int| 0 <= j < buyer_listing(m, buyer).len() ==> {
            &&& m.escrow(#[trigger] buyer_listing(m, buyer)[j]) is Some
            &&& m.escrow(buyer_listing(m, buyer)[j]).unwrap().buyer == Some(buyer)
        },
        !m.buyer_index.contains_key(buyer) ==> forall|id: u64|
            #[trigger] m.escrow(id) matches Some(e) && e.buyer == Some(buyer) ==> buyer_listing(m, buyer).contains(id),
        !m.buyer_index.contains_key(buyer) ==> forall|i: int, j: int| 0 <= i < j < buyer_listing(m, buyer).len()
            ==> buyer_listing(m, buyer)[i] < buyer_listing(m, buyer)[j],
{
    let n = m.escrows.len() as int;
    lemma_buyer_scan(m.escrows, buyer, n);
    let l = buyer_listing(m, buyer);
    if m.buyer_index.contains_key(buyer) {
        assert forall|j: int| 0 <= j < l.len() implies {
            &&& m.escrow(#[trigger] l[j]) is Some
            &&& m.escrow(l[j]).unwrap().buyer == Some(buyer)
        } by {
            assert(m.buyer_index[buyer][j] == l[j]);
        }
    } else {
        assert forall|id: u64| #[trigger] m.escrow(id) matches Some(e) && e.buyer == Some(buyer) implies l.contains(id) by {
            let k = id - 1;
            assert(m.escrows[k].buyer == Some(buyer));
            assert((k + 1) as u64 == id);
        }
    }
}

/// A page of messages holds exactly `min(limit, 50, len - start)` messages
/// when it starts inside the thread, and none past its end.
pub proof fn law_message_page_size(msgs: Seq<MessageView>, start: u64, limit: u64)
    ensures
        start >= msgs.len() ==> message_page(msgs, start, limit).len() == 0,
        start < msgs.len() ==> {
            &&& message_page(msgs, start, limit).len() <= limit
            &&& message_page(msgs, start, limit).len() <= MAX_MESSAGE_PAGE
            &&& message_page(msgs, start, limit).len() <= msgs.len() - start
            &&& (message_page(msgs, start, limit).len() == limit
                || message_page(msgs, start, limit).len() == MAX_MESSAGE_PAGE
                || message_page(msgs, start, limit).len() == msgs.len() - start)
        },
{
}

/// Listing by vendor: the ids listed for a vendor are exactly the ids of the
/// escrows it sells (the first payee of each).
pub proof fn law_vendor_listing_names_the_vendors_escrows(m: ContractModel, vendor: Address)
    requires
        m.inv(),
    ensures
        forall|j: int| 0 <= j < m.vendor_ids(vendor).len() ==> {
            &&& m.escrow(#[trigger] m.vendor_ids(vendor)[j]) is Some
            &&& m.escrow(m.vendor_ids(vendor)[j]).unwrap().seller() == vendor
        },
        forall|id: u64| #[trigger] m.escrow(id) matches Some(e) && e.seller() == vendor ==> m.vendor_ids(vendor).contains(id),
{
    assert forall|j: int| 0 <= j < m.vendor_ids(vendor).len() implies {
        &&& m.escrow(#[trigger] m.vendor_ids(vendor)[j]) is Some
        &&& m.escrow(m.vendor_ids(vendor)[j]).unwrap().seller() == vendor
    } by {
        assert(m.vendor_index.contains_key(vendor));
        assert(m.vendor_index[vendor][j] == m.vendor_ids(vendor)[j]);
    }
    assert forall|id: u64| #[trigger] m.escrow(id) matches Some(e) && e.seller() == vendor implies m.vendor_ids(vendor).contains(id) by {
        let k = id - 1;
        assert(m.escrows[k] == m.escrow(id).unwrap());
        assert((k + 1) as u64 == id);
    }
}

} // verus!
