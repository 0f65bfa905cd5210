use vstd::prelude::*;
use crate::admin::withdraw_fees_error;
use crate::contract::{record_ok, ContractModel, DISPUTE_WINDOW};
use crate::create::{batch_record, with_batch, with_new_escrow};
use crate::dispute::{
    raise_dispute_error, resolution_amounts, resolution_transfers, resolve_dispute_error, with_dispute,
    with_resolution,
};
use crate::events::{total_paid_out, Transfer};
use crate::fees::{others_payouts, split_payouts};
use crate::flow::{
    approve_refund_error, cancel_error, cancel_refund, cancel_transfers, cancelled_record, delivery_error,
    fund_error, funded_record, mutual_cancel_error, request_refund_error, rotate_resolver_error, ship_error,
    with_escrow, with_funding,
};
use crate::laws::{law_resolution_conserves_amount, law_settlement_pays_exact_amount, law_stage_release_conserves};
use crate::settle::{
    lemma_unreleased_positive, milestone_released_record, release_milestone_error, settle_error, settle_transfers,
    stage_transfers, unreleased_count, with_completion,
};
use crate::types::{Address, DisputeView, EscrowInput, EscrowState, EscrowView, ResolutionType};

verus! {

/// What the vault holds for escrow `e`: the tranches paid into a pending
/// escrow, the amount of an escrow that is funded and not yet settled, and
/// nothing once it is settled.
pub open spec fn held(e: EscrowView) -> int {
    match e.state {
        EscrowState::Pending => e.funded_amount as int,
        EscrowState::Funded => e.amount as int,
        EscrowState::Shipped => e.amount as int,
        EscrowState::Disputed => e.amount as int,
        EscrowState::RefundRequested => e.amount as int,
        _ => 0,
    }
}

/// What the vault holds for `e` in token `t`.
pub open spec fn held_in(e: EscrowView, t: Address) -> int {
    if e.token == t { held(e) } else { 0 }
}

/// What the vault holds in token `t` for all the escrows.
pub open spec fn held_total(es: Seq<EscrowView>, t: Address) -> int
    decreases es.len(),
{
    if es.len() == 0 {
        0
    } else {
        held_total(es.drop_last(), t) + held_in(es.last(), t)
    }
}

/// Everything the contract is accountable for in token `t`: the escrows'
/// holdings and the fees accumulated in the vault.
pub open spec fn custody(m: ContractModel, t: Address) -> int {
    held_total(m.escrows, t) + m.accumulated(t)
}

/// The net amount of token `t` that a sequence of transfers moves into the
/// vault: deposits in, payouts out.
pub open spec fn vault_flow(ts: Seq<Transfer>, t: Address) -> int
    decreases ts.len(),
{
    if ts.len() == 0 {
        0
    } else {
        vault_flow(ts.drop_last(), t) + match ts.last() {
            Transfer::Deposit { token, amount, .. } => if token == t { amount as int } else { 0int },
            Transfer::Payout { token, amount, .. } => if token == t { -(amount as int) } else { 0int },
        }
    }
}

/// Whether every transfer is a payout in token `tok`.
pub open spec fn payouts_in(ts: Seq<Transfer>, tok: Address) -> bool {
    forall|i: int| 0 <= i < ts.len() ==> (#[trigger] ts[i] matches Transfer::Payout { token, .. } && token == tok)
}

/// Replacing one escrow changes the holdings by the difference of its own.
pub proof fn lemma_held_total_update(es: Seq<EscrowView>, k: int, e: EscrowView, t: Address)
    requires
        0 <= k < es.len(),
    ensures
        held_total(es.update(k, e), t) == held_total(es, t) - held_in(es[k], t) + held_in(e, t),
    decreases es.len(),
{
    let u = es.update(k, e);
    if k == es.len() - 1 {
        assert(u.drop_last() =~= es.drop_last());
    } else {
        lemma_held_total_update(es.drop_last(), k, e, t);
        assert(u.drop_last() =~= es.drop_last().update(k, e));
    }
}

/// Appending an escrow adds its holdings.
pub proof fn lemma_held_total_push(es: Seq<EscrowView>, e: EscrowView, t: Address)
    ensures
        held_total(es.push(e), t) == held_total(es, t) + held_in(e, t),
{
    assert(es.push(e).drop_last() =~= es);
}

/// The flow of two sequences of transfers is the sum of their flows.
pub proof fn lemma_flow_concat(a: Seq<Transfer>, b: Seq<Transfer>, t: Address)
    ensures
        vault_flow(a + b, t) == vault_flow(a, t) + vault_flow(b, t),
    decreases b.len(),
{
    if b.len() == 0 {
        assert(a + b =~= a);
    } else {
        lemma_flow_concat(a, b.drop_last(), t);
        assert((a + b).drop_last() =~= a + b.drop_last());
    }
}

/// The flow of one transfer.
pub proof fn lemma_flow_single(tr: Transfer, t: Address)
    ensures
        vault_flow(seq![tr], t) == match tr {
            Transfer::Deposit { token, amount, .. } => if token == t { amount as int } else { 0int },
            Transfer::Payout { token, amount, .. } => if token == t { -(amount as int) } else { 0int },
        },
{
    assert(seq![tr].drop_last() =~= Seq::<Transfer>::empty());
    assert(seq![tr].last() == tr);
    reveal_with_fuel(vault_flow, 2);
}

/// Payouts in one token take exactly what they pay out of that token, and
/// nothing of any other.
pub proof fn lemma_flow_of_payouts(ts: Seq<Transfer>, tok: Address, t: Address)
    requires
        payouts_in(ts, tok),
    ensures
        vault_flow(ts, t) == (if t == tok { -total_paid_out(ts) } else { 0 }),
    decreases ts.len(),
{
    if ts.len() > 0 {
        assert forall|i: int| 0 <= i < ts.drop_last().len() implies (#[trigger] ts.drop_last()[i] matches Transfer::Payout { token, .. } && token == tok) by {
            assert(ts.drop_last()[i] == ts[i]);
        }
        lemma_flow_of_payouts(ts.drop_last(), tok, t);
        assert(ts[ts.len() - 1] == ts.last());
    }
}

/// Concatenated payouts in one token are payouts in that token.
pub proof fn lemma_payouts_in_concat(a: Seq<Transfer>, b: Seq<Transfer>, tok: Address)
    requires
        payouts_in(a, tok),
        payouts_in(b, tok),
    ensures
        payouts_in(a + b, tok),
{
    assert forall|i: int| 0 <= i < (a + b).len() implies (#[trigger] (a + b)[i] matches Transfer::Payout { token, .. } && token == tok) by {
        if i < a.len() {
            assert((a + b)[i] == a[i]);
        } else {
            assert((a + b)[i] == b[i - a.len()]);
        }
    }
}

/// The split of an amount among payees pays out in the escrow's token only.
pub proof fn lemma_split_payouts_in(token: Address, amount: int, ps: Seq<crate::types::Payee>, i: int)
    ensures
        payouts_in(others_payouts(token, amount, ps, i), token),
    decreases i,
{
    if i > 1 {
        lemma_split_payouts_in(token, amount, ps, i - 1);
        let prev = others_payouts(token, amount, ps, i - 1);
        let cur = others_payouts(token, amount, ps, i);
        assert forall|j: int| 0 <= j < cur.len() implies (#[trigger] cur[j] matches Transfer::Payout { token: tk, .. } && tk == token) by {
            if j < prev.len() {
                assert(cur[j] == prev[j]);
            }
        }
    }
}

/// A settlement pays out in the escrow's token only.
pub proof fn lemma_settle_payouts_in(token: Address, fee_collector: Address, amount: i128, bps: u32, ps: Seq<crate::types::Payee>)
    ensures
        payouts_in(settle_transfers(token, fee_collector, amount, bps, ps), token),
{
    let (fee, net) = crate::fees::protocol_fee_result(amount, bps).unwrap();
    let fee_part = if fee > 0 {
        seq![Transfer::Payout { token, to: fee_collector, amount: fee }]
    } else {
        seq![]
    };
    lemma_split_payouts_in(token, net as int, ps, ps.len() as int);
    let others = others_payouts(token, net as int, ps, ps.len() as int);
    let split = split_payouts(token, net, ps);
    assert forall|j: int| 0 <= j < split.len() implies (#[trigger] split[j] matches Transfer::Payout { token: tk, .. } && tk == token) by {
        if j < others.len() {
            assert(split[j] == others[j]);
        }
    }
    assert(payouts_in(fee_part, token));
    lemma_payouts_in_concat(fee_part, split, token);
}

/// Custody under funding: a tranche paid in raises the escrow's holdings by
/// exactly what the deposit brings into the vault.
pub proof fn law_custody_funding(m: ContractModel, id: u64, buyer: Address, tranche: i128, now: u64, t: Address)
    requires
        m.inv(),
        fund_error(m, id, buyer, tranche) is None,
        now <= u64::MAX - DISPUTE_WINDOW,
    ensures
        custody(with_funding(m, id, buyer, tranche, now), t) == custody(m, t)
            + vault_flow(seq![Transfer::Deposit { token: m.escrow(id).unwrap().token, from: buyer, amount: tranche }], t),
{
    let e = m.escrow(id).unwrap();
    lemma_held_total_update(m.escrows, id - 1, funded_record(e, buyer, tranche, now), t);
    lemma_flow_single(Transfer::Deposit { token: e.token, from: buyer, amount: tranche }, t);
    assert(with_funding(m, id, buyer, tranche, now).escrows == m.escrows.update(id - 1, funded_record(e, buyer, tranche, now)));
}

/// Custody under shipping, delivery records, refund requests and resolver
/// rotation: none of them moves funds, and none changes what the vault
/// holds.
pub proof fn law_custody_bookkeeping(
    m: ContractModel,
    caller: Address,
    id: u64,
    tracking_id: Seq<char>,
    new_resolver: Address,
    now: u64,
    t: Address,
)
    requires
        m.inv(),
        m.escrow(id) is Some,
    ensures
        ship_error(m, caller, id, tracking_id) is None ==> custody(with_escrow(m, id, EscrowView {
            state: EscrowState::Shipped,
            shipped_at: now,
            tracking_id: Some(tracking_id),
            ..m.escrow(id).unwrap()
        }), t) == custody(m, t),
        delivery_error(m, caller, id) is None ==> custody(
            with_escrow(m, id, EscrowView { delivered_at: Some(now), ..m.escrow(id).unwrap() }),
            t,
        ) == custody(m, t),
        request_refund_error(m, caller, id) is None ==> custody(
            with_escrow(m, id, EscrowView { state: EscrowState::RefundRequested, ..m.escrow(id).unwrap() }),
            t,
        ) == custody(m, t),
        rotate_resolver_error(m, caller, id, new_resolver) is None ==> custody(
            with_escrow(m, id, EscrowView { resolver: new_resolver, ..m.escrow(id).unwrap() }),
            t,
        ) == custody(m, t),
{
    let e = m.escrow(id).unwrap();
    lemma_held_total_update(m.escrows, id - 1, EscrowView { state: EscrowState::Shipped, shipped_at: now, tracking_id: Some(tracking_id), ..e }, t);
    lemma_held_total_update(m.escrows, id - 1, EscrowView { delivered_at: Some(now), ..e }, t);
    lemma_held_total_update(m.escrows, id - 1, EscrowView { state: EscrowState::RefundRequested, ..e }, t);
    lemma_held_total_update(m.escrows, id - 1, EscrowView { resolver: new_resolver, ..e }, t);
}

/// Custody under a dispute: opening it moves no funds and keeps the amount
/// held.
pub proof fn law_custody_dispute_raised(
    m: ContractModel,
    caller: Address,
    id: u64,
    d: DisputeView,
    now: u64,
    t: Address,
)
    requires
        m.inv(),
        raise_dispute_error(m, caller, id, d.description, now) is None,
    ensures
        custody(with_dispute(m, id, d), t) == custody(m, t),
{
    let e = m.escrow(id).unwrap();
    lemma_held_total_update(m.escrows, id - 1, EscrowView { state: EscrowState::Disputed, ..e }, t);
}

/// Custody under settlement: completing a funded or shipped escrow pays out
/// exactly what the vault held for it.
pub proof fn law_custody_settlement(m: ContractModel, id: u64, fee_collector: Address, bps: u32, t: Address)
    requires
        m.inv(),
        m.escrow(id) is Some,
        m.escrow(id).unwrap().state == EscrowState::Funded || m.escrow(id).unwrap().state == EscrowState::Shipped,
        bps <= 10_000,
        settle_error(m.escrow(id).unwrap().amount, bps, m.escrow(id).unwrap().payees) is None,
    ensures
        custody(with_completion(m, id, EscrowView { state: EscrowState::Completed, ..m.escrow(id).unwrap() }), t)
            == custody(m, t) + vault_flow(settle_transfers(
                m.escrow(id).unwrap().token,
                fee_collector,
                m.escrow(id).unwrap().amount,
                bps,
                m.escrow(id).unwrap().payees,
            ), t),
{
    let e = m.escrow(id).unwrap();
    assert(record_ok(m.escrows[id - 1]));
    lemma_held_total_update(m.escrows, id - 1, EscrowView { state: EscrowState::Completed, ..e }, t);
    law_settlement_pays_exact_amount(e.token, fee_collector, e.amount, bps, e.payees);
    lemma_settle_payouts_in(e.token, fee_collector, e.amount, bps, e.payees);
    lemma_flow_of_payouts(settle_transfers(e.token, fee_collector, e.amount, bps, e.payees), e.token, t);
}

/// Custody under a milestone release: the escrow's holdings drop by exactly
/// the stage amount that is paid out (net to the seller, fee to the fee
/// collector), and to nothing when the last stage completes it.
pub proof fn law_custody_milestone_release(
    m: ContractModel,
    caller: Address,
    id: u64,
    index: u32,
    now: u64,
    t: Address,
)
    requires
        m.inv(),
        release_milestone_error(m, caller, id, index, now) is None,
    ensures
        ({
            let e = m.escrow(id).unwrap();
            let ne = milestone_released_record(e, index as int);
            let stage = e.milestones.unwrap()[index as int].amount;
            let after = if unreleased_count(ne.milestones.unwrap()) == 0 {
                with_completion(m, id, ne)
            } else {
                with_escrow(m, id, ne)
            };
            custody(after, t) == custody(m, t) + vault_flow(
                stage_transfers(e.token, e.seller(), m.fee_collector.unwrap(), stage, m.fees().protocol_fee_bps),
                t,
            )
        }),
{
    let e = m.escrow(id).unwrap();
    assert(record_ok(m.escrows[id - 1]));
    let ms = e.milestones.unwrap();
    let k = index as int;
    let ne = milestone_released_record(e, k);
    let stage = ms[k].amount;
    let bps = m.fees().protocol_fee_bps;
    let fc = m.fee_collector.unwrap();
    assert(ms[k].amount > 0);
    law_stage_release_conserves(e, k, fc, bps);
    let nms = ne.milestones.unwrap();
    assert forall|j: int| 0 <= j < nms.len() implies #[trigger] nms[j].amount > 0 by {
        assert(ms[j].amount > 0);
    }
    lemma_unreleased_positive(nms);
    lemma_held_total_update(m.escrows, id - 1, ne, t);
    let ts = stage_transfers(e.token, e.seller(), fc, stage, bps);
    let (fee, net) = crate::fees::protocol_fee_result(stage, bps).unwrap();
    let net_part = if net > 0 { seq![Transfer::Payout { token: e.token, to: e.seller(), amount: net }] } else { seq![] };
    let fee_part = if fee > 0 { seq![Transfer::Payout { token: e.token, to: fc, amount: fee }] } else { seq![] };
    assert(payouts_in(net_part, e.token));
    assert(payouts_in(fee_part, e.token));
    lemma_payouts_in_concat(net_part, fee_part, e.token);
    lemma_flow_of_payouts(ts, e.token, t);
}

/// Custody under dispute resolution: what leaves the vault (the resolver fee
/// and the winner's net) plus what moves into the accumulated fees (the
/// arbitration and escrow fees) is exactly what the vault held for the
/// escrow.
pub proof fn law_custody_resolution(m: ContractModel, caller: Address, id: u64, resolution: ResolutionType, now: u64, t: Address)
    requires
        m.inv(),
        resolve_dispute_error(m, caller, id, resolution, now) is None,
    ensures
        ({
            let e = m.escrow(id).unwrap();
            let a = resolution_amounts(e, m.fees().arbitration_fee_bps).unwrap();
            custody(with_resolution(m, id, resolution, a), t) == custody(m, t) + vault_flow(resolution_transfers(e, resolution, a), t)
        }),
{
    let e = m.escrow(id).unwrap();
    assert(record_ok(m.escrows[id - 1]));
    let arb = m.fees().arbitration_fee_bps;
    law_resolution_conserves_amount(e, arb, resolution);
    let a = resolution_amounts(e, arb).unwrap();
    let ne = EscrowView {
        amount: a.remaining,
        state: match resolution {
            ResolutionType::Release => EscrowState::Completed,
            ResolutionType::Refund => EscrowState::Refunded,
        },
        ..e
    };
    lemma_held_total_update(m.escrows, id - 1, ne, t);
    let ts = resolution_transfers(e, resolution, a);
    let rf = if a.resolver_fee > 0 {
        seq![Transfer::Payout { token: e.token, to: e.resolver, amount: a.resolver_fee }]
    } else {
        seq![]
    };
    assert(payouts_in(rf, e.token));
    assert(ts == rf.push(Transfer::Payout { token: e.token, to: crate::dispute::resolution_recipient(e, resolution), amount: a.net }));
    assert forall|i: int| 0 <= i < ts.len() implies (#[trigger] ts[i] matches Transfer::Payout { token, .. } && token == e.token) by {
        if i < rf.len() {
            assert(ts[i] == rf[i]);
        }
    }
    lemma_flow_of_payouts(ts, e.token, t);
    let after = with_resolution(m, id, resolution, a);
    assert(after.escrows == m.escrows.update(id - 1, ne));
    assert(after.accumulated(t) == m.accumulated(t) + (if e.token == t { a.arbitration_fee + a.escrow_fee } else { 0 }));
}

/// Custody under cancellation: a buyer's cancellation refunds exactly what
/// the vault held for the escrow. (A seller's cancellation of an escrow
/// that holds funds refunds nothing, so it is left out.)
pub proof fn law_custody_cancel(m: ContractModel, caller: Address, id: u64, t: Address)
    requires
        m.inv(),
        cancel_error(m, caller, id) is None,
        m.escrow(id).unwrap().buyer == Some(caller) || held(m.escrow(id).unwrap()) == 0,
    ensures
        custody(with_escrow(m, id, cancelled_record(m.escrow(id).unwrap(), caller)), t)
            == custody(m, t) + vault_flow(cancel_transfers(m.escrow(id).unwrap(), caller), t),
{
    let e = m.escrow(id).unwrap();
    assert(record_ok(m.escrows[id - 1]));
    lemma_held_total_update(m.escrows, id - 1, cancelled_record(e, caller), t);
    if e.buyer == Some(caller) && cancel_refund(e) > 0 {
        lemma_flow_single(Transfer::Payout { token: e.token, to: caller, amount: cancel_refund(e) }, t);
    } else {
        assert(cancel_transfers(e, caller) =~= Seq::<Transfer>::empty());
    }
}

/// Custody under a mutual cancellation or an approved refund: the buyer gets
/// back exactly what the vault held for the escrow.
pub proof fn law_custody_refund(m: ContractModel, caller: Address, id: u64, t: Address)
    requires
        m.inv(),
        mutual_cancel_error(m, id) is None || approve_refund_error(m, caller, id) is None,
    ensures
        ({
            let e = m.escrow(id).unwrap();
            let ts = seq![Transfer::Payout { token: e.token, to: e.buyer.unwrap(), amount: e.amount }];
            &&& mutual_cancel_error(m, id) is None ==> custody(with_escrow(m, id, EscrowView { state: EscrowState::Canceled, ..e }), t)
                == custody(m, t) + vault_flow(ts, t)
            &&& approve_refund_error(m, caller, id) is None ==> custody(with_escrow(m, id, EscrowView { state: EscrowState::Refunded, ..e }), t)
                == custody(m, t) + vault_flow(ts, t)
        }),
{
    let e = m.escrow(id).unwrap();
    lemma_held_total_update(m.escrows, id - 1, EscrowView { state: EscrowState::Canceled, ..e }, t);
    lemma_held_total_update(m.escrows, id - 1, EscrowView { state: EscrowState::Refunded, ..e }, t);
    lemma_flow_single(Transfer::Payout { token: e.token, to: e.buyer.unwrap(), amount: e.amount }, t);
}

/// Custody under a fee withdrawal: the accumulated fees drop by exactly what
/// is paid out.
pub proof fn law_custody_withdrawal(m: ContractModel, caller: Address, token: Address, to: Address, amount: i128, t: Address)
    requires
        m.inv(),
        withdraw_fees_error(m, caller, token, amount) is None,
    ensures
        custody(ContractModel {
            accumulated_fees: m.accumulated_fees.insert(token, (m.accumulated(token) - amount) as i128),
            ..m
        }, t) == custody(m, t) + vault_flow(seq![Transfer::Payout { token, to, amount }], t),
{
    lemma_flow_single(Transfer::Payout { token, to, amount }, t);
}

/// Custody under creation: a new escrow, single or in a batch, holds nothing
/// until it is funded.
pub proof fn law_custody_creation(m: ContractModel, rec: EscrowView, seller: Address, inputs: Seq<EscrowInput>, t: Address)
    requires
        rec.state == EscrowState::Pending,
        rec.funded_amount == 0,
    ensures
        custody(with_new_escrow(m, rec), t) == custody(m, t),
        custody(with_batch(m, seller, inputs), t) == custody(m, t),
    decreases inputs.len(),
{
    lemma_held_total_push(m.escrows, rec, t);
    if inputs.len() > 0 {
        law_custody_creation(m, rec, seller, inputs.drop_last(), t);
        let prev = with_batch(m, seller, inputs.drop_last());
        lemma_held_total_push(prev.escrows, batch_record(seller, inputs.last()), t);
    }
}

} // verus!
