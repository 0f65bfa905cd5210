use vstd::prelude::*;
use crate::contract::bps_total;
use crate::events::{paid_out_to, total_paid_out, Transfer};
use crate::fees::{
    lemma_fee_bounds, lemma_others_bounded, lemma_split_pays_amount, others_payouts, others_total,
    protocol_fee_result, split_overflows, split_payouts,
};
use crate::settle::{settle_error, settle_transfers, stage_transfers};
use crate::types::{Address, Payee};

verus! {

/// No address appears twice among the payees.
pub open spec fn distinct_payees(ps: Seq<Payee>) -> bool {
    forall|i: int, j: int| 0 <= i < ps.len() && 0 <= j < ps.len() && i != j ==> ps[i].address != ps[j].address
}

/// Whether `a` is one of the payees.
pub open spec fn is_payee_of(ps: Seq<Payee>, a: Address) -> bool {
    exists|i: int| 0 <= i < ps.len() && #[trigger] ps[i].address == a
}

/// Appending a transfer adds its amount to what its recipient is paid and
/// nothing to anyone else.
pub proof fn lemma_paid_out_to_push(s: Seq<Transfer>, t: Transfer, a: Address)
    ensures
        paid_out_to(s.push(t), a) == paid_out_to(s, a) + match t {
            Transfer::Payout { to, amount, .. } => if to == a { amount as int } else { 0int },
            Transfer::Deposit { .. } => 0int,
        },
{
    assert(s.push(t).drop_last() =~= s);
}

/// What two sequences of transfers pay `a` adds up.
pub proof fn lemma_paid_out_to_concat(s: Seq<Transfer>, u: Seq<Transfer>, a: Address)
    ensures
        paid_out_to(s + u, a) == paid_out_to(s, a) + paid_out_to(u, a),
    decreases u.len(),
{
    if u.len() == 0 {
        assert(s + u =~= s);
    } else {
        lemma_paid_out_to_concat(s, u.drop_last(), a);
        assert((s + u).drop_last() =~= s + u.drop_last());
    }
}

/// What a single payout pays each address.
pub proof fn lemma_paid_out_to_single(token: Address, to: Address, amount: i128, a: Address)
    ensures
        paid_out_to(seq![Transfer::Payout { token, to, amount }], a) == if to == a { amount as int } else { 0int },
{
    lemma_paid_out_to_push(Seq::<Transfer>::empty(), Transfer::Payout { token, to, amount }, a);
    assert(Seq::<Transfer>::empty().push(Transfer::Payout { token, to, amount }) =~= seq![Transfer::Payout { token, to, amount }]);
}

/// The payouts to payees `1 .. i` pay payee `k` its own rounded-down share
/// if `1 <= k < i`, and nothing otherwise.
proof fn lemma_others_pay_payee(token: Address, amount: int, ps: Seq<Payee>, i: int, k: int)
    requires
        amount >= 0,
        distinct_payees(ps),
        0 <= k < ps.len(),
        i <= ps.len(),
        forall|j: int| 1 <= j < i ==> #[trigger] ps[j].bps * amount <= i128::MAX,
    ensures
        paid_out_to(others_payouts(token, amount, ps, i), ps[k].address)
            == if 1 <= k < i { amount * ps[k].bps / 10_000 } else { 0int },
    decreases i,
{
    if i > 1 {
        lemma_others_pay_payee(token, amount, ps, i - 1, k);
        let prev = others_payouts(token, amount, ps, i - 1);
        let b = ps[i - 1].bps as int;
        let s = amount * b / 10_000;
        assert(ps[i - 1].bps * amount <= i128::MAX);
        assert(0 <= s <= i128::MAX) by (nonlinear_arith)
            requires s == amount * b / 10_000, amount >= 0, b >= 0, b * amount <= i128::MAX;
        if s > 0 {
            lemma_paid_out_to_push(prev, Transfer::Payout { token, to: ps[i - 1].address, amount: s as i128 }, ps[k].address);
        }
        if k != i - 1 {
            assert(ps[i - 1].address != ps[k].address);
        }
    }
}

/// The payouts to payees `1 .. i` pay nothing to an address that is not a payee.
proof fn lemma_others_pay_outsider(token: Address, amount: int, ps: Seq<Payee>, i: int, a: Address)
    requires
        !is_payee_of(ps, a),
        i <= ps.len(),
    ensures
        paid_out_to(others_payouts(token, amount, ps, i), a) == 0,
    decreases i,
{
    if i > 1 {
        lemma_others_pay_outsider(token, amount, ps, i - 1, a);
        let prev = others_payouts(token, amount, ps, i - 1);
        let s = amount * ps[i - 1].bps / 10_000;
        assert(ps[i - 1].address != a) by {
            if ps[i - 1].address == a {
                assert(is_payee_of(ps, a));
            }
        }
        if s > 0 {
            lemma_paid_out_to_push(prev, Transfer::Payout { token, to: ps[i - 1].address, amount: s as i128 }, a);
        }
    }
}

/// Splitting among payees: every payee but the first receives exactly its own
/// rounded-down share `amount * bps / 10_000`, the first receives the rest,
/// which is never less than its own rounded-down share, nobody outside the
/// payees receives anything, and the whole amount is paid out.
pub proof fn law_split_pays_each_payee(token: Address, amount: i128, ps: Seq<Payee>)
    requires
        amount >= 0,
        ps.len() >= 1,
        bps_total(ps) == 10_000,
        !split_overflows(amount, ps),
        distinct_payees(ps),
    ensures
        forall|k: int| 1 <= k < ps.len()
            ==> #[trigger] paid_out_to(split_payouts(token, amount, ps), ps[k].address) == amount * ps[k].bps / 10_000,
        paid_out_to(split_payouts(token, amount, ps), ps[0].address)
            == amount - others_total(amount as int, ps, ps.len() as int),
        paid_out_to(split_payouts(token, amount, ps), ps[0].address) >= amount * ps[0].bps / 10_000,
        forall|a: Address| !is_payee_of(ps, a) ==> #[trigger] paid_out_to(split_payouts(token, amount, ps), a) == 0,
        total_paid_out(split_payouts(token, amount, ps)) == amount,
{
    let n = ps.len() as int;
    lemma_split_pays_amount(token, amount, ps);
    assert forall|j: int| 1 <= j < n implies #[trigger] ps[j].bps * amount <= i128::MAX by {
        if ps[j].bps * amount > i128::MAX {
            assert(split_overflows(amount, ps));
        }
    }
    let others = others_payouts(token, amount as int, ps, n);
    let rest = amount - others_total(amount as int, ps, n);
    let split = split_payouts(token, amount, ps);
    assert forall|k: int| 1 <= k < n implies #[trigger] paid_out_to(split, ps[k].address) == amount * ps[k].bps / 10_000 by {
        lemma_others_pay_payee(token, amount as int, ps, n, k);
        if rest > 0 {
            assert(ps[0].address != ps[k].address);
            lemma_paid_out_to_push(others, Transfer::Payout { token, to: ps[0].address, amount: rest as i128 }, ps[k].address);
        }
    }
    lemma_others_pay_payee(token, amount as int, ps, n, 0);
    if rest > 0 {
        lemma_paid_out_to_push(others, Transfer::Payout { token, to: ps[0].address, amount: rest as i128 }, ps[0].address);
    }
    assert forall|a: Address| !is_payee_of(ps, a) implies #[trigger] paid_out_to(split, a) == 0 by {
        lemma_others_pay_outsider(token, amount as int, ps, n, a);
        if rest > 0 {
            assert(ps[0].address != a) by {
                if ps[0].address == a {
                    assert(is_payee_of(ps, a));
                }
            }
            lemma_paid_out_to_push(others, Transfer::Payout { token, to: ps[0].address, amount: rest as i128 }, a);
        }
    }
    lemma_others_bounded(amount as int, ps, n);
    assert(ps.subrange(0, n) =~= ps);
    let o = others_total(amount as int, ps, n);
    let b0 = ps[0].bps as int;
    assert(o * 10_000 <= amount * (10_000 - b0));
    assert(rest >= amount * b0 / 10_000) by (nonlinear_arith)
        requires rest == amount - o, o * 10_000 <= amount * (10_000 - b0), amount >= 0, b0 >= 0;
}

/// Settling `amount` (on confirmation or automatic release): the fee
/// collector receives exactly the fee `amount * bps / 10_000`, every payee
/// but the first exactly its rounded-down share of the net, the first payee
/// the rest of the net, and nobody else anything.
pub proof fn law_settlement_pays_each_party(
    token: Address,
    fee_collector: Address,
    amount: i128,
    bps: u32,
    ps: Seq<Payee>,
)
    requires
        amount >= 0,
        bps <= 10_000,
        ps.len() >= 1,
        bps_total(ps) == 10_000,
        settle_error(amount, bps, ps) is None,
        distinct_payees(ps),
        !is_payee_of(ps, fee_collector),
    ensures
        paid_out_to(settle_transfers(token, fee_collector, amount, bps, ps), fee_collector) == amount * bps / 10_000,
        forall|k: int| 1 <= k < ps.len() ==> #[trigger] paid_out_to(settle_transfers(token, fee_collector, amount, bps, ps), ps[k].address)
            == (amount - amount * bps / 10_000) * ps[k].bps / 10_000,
        paid_out_to(settle_transfers(token, fee_collector, amount, bps, ps), ps[0].address)
            == (amount - amount * bps / 10_000) - others_total(amount - amount * bps / 10_000, ps, ps.len() as int),
        forall|a: Address| a != fee_collector && !is_payee_of(ps, a)
            ==> #[trigger] paid_out_to(settle_transfers(token, fee_collector, amount, bps, ps), a) == 0,
{
    lemma_fee_bounds(amount as int, bps as int);
    let (fee, net) = protocol_fee_result(amount, bps).unwrap();
    assert(fee == amount * bps / 10_000);
    assert(net == amount - amount * bps / 10_000);
    assert(!split_overflows(net, ps));
    law_split_pays_each_payee(token, net, ps);
    let fee_part = if fee > 0 { seq![Transfer::Payout { token, to: fee_collector, amount: fee }] } else { seq![] };
    let split = split_payouts(token, net, ps);
    let all = settle_transfers(token, fee_collector, amount, bps, ps);
    assert(all == fee_part + split);
    assert forall|a: Address| #[trigger] paid_out_to(all, a) == paid_out_to(fee_part, a) + paid_out_to(split, a) by {
        lemma_paid_out_to_concat(fee_part, split, a);
    }
    assert forall|a: Address| #[trigger] paid_out_to(fee_part, a) == if a == fee_collector { fee as int } else { 0int } by {
        if fee > 0 {
            lemma_paid_out_to_single(token, fee_collector, fee, a);
        }
    }
    assert(paid_out_to(split, fee_collector) == 0);
    assert forall|k: int| 1 <= k < ps.len() implies #[trigger] paid_out_to(all, ps[k].address)
        == (amount - amount * bps / 10_000) * ps[k].bps / 10_000 by {
        assert(ps[k].address != fee_collector) by {
            if ps[k].address == fee_collector {
                assert(is_payee_of(ps, fee_collector));
            }
        }
        assert(paid_out_to(split, ps[k].address) == net * ps[k].bps / 10_000);
    }
    assert(ps[0].address != fee_collector) by {
        if ps[0].address == fee_collector {
            assert(is_payee_of(ps, fee_collector));
        }
    }
    assert(paid_out_to(all, ps[0].address) == paid_out_to(split, ps[0].address));
}

/// Releasing a milestone stage: the fee collector receives exactly the
/// protocol fee `amount * bps / 10_000` on the stage and the seller exactly
/// the rest of the stage; nobody else receives anything. When the seller is
/// also the fee collector, it receives the whole stage.
pub proof fn law_stage_release_pays_each_party(
    token: Address,
    seller: Address,
    fee_collector: Address,
    amount: i128,
    bps: u32,
    other: Address,
)
    requires
        amount >= 0,
        bps <= 10_000,
    ensures
        seller != fee_collector ==> paid_out_to(stage_transfers(token, seller, fee_collector, amount, bps), fee_collector)
            == amount * bps / 10_000,
        seller != fee_collector ==> paid_out_to(stage_transfers(token, seller, fee_collector, amount, bps), seller)
            == amount - amount * bps / 10_000,
        seller == fee_collector ==> paid_out_to(stage_transfers(token, seller, fee_collector, amount, bps), seller) == amount,
        other != seller && other != fee_collector
            ==> paid_out_to(stage_transfers(token, seller, fee_collector, amount, bps), other) == 0,
        total_paid_out(stage_transfers(token, seller, fee_collector, amount, bps)) == amount,
{
    lemma_fee_bounds(amount as int, bps as int);
    let (fee, net) = protocol_fee_result(amount, bps).unwrap();
    let net_part = if net > 0 { seq![Transfer::Payout { token, to: seller, amount: net }] } else { seq![] };
    let fee_part = if fee > 0 { seq![Transfer::Payout { token, to: fee_collector, amount: fee }] } else { seq![] };
    let all = stage_transfers(token, seller, fee_collector, amount, bps);
    assert(all == net_part + fee_part);
    assert forall|a: Address| #[trigger] paid_out_to(all, a) == paid_out_to(net_part, a) + paid_out_to(fee_part, a) by {
        lemma_paid_out_to_concat(net_part, fee_part, a);
    }
    assert forall|a: Address| #[trigger] paid_out_to(net_part, a) == if a == seller { net as int } else { 0int } by {
        if net > 0 {
            lemma_paid_out_to_single(token, seller, net, a);
        }
    }
    assert forall|a: Address| #[trigger] paid_out_to(fee_part, a) == if a == fee_collector { fee as int } else { 0int } by {
        if fee > 0 {
            lemma_paid_out_to_single(token, fee_collector, fee, a);
        }
    }
    crate::laws::law_fee_split_is_exact(amount, bps);
    crate::laws::lemma_paid_out_concat(net_part, fee_part);
    if net > 0 {
        crate::laws::lemma_paid_out_single(token, seller, net);
    }
    if fee > 0 {
        crate::laws::lemma_paid_out_single(token, fee_collector, fee);
    }
}

} // verus!
