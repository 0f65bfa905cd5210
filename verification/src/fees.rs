use vstd::prelude::*;
use crate::errors::ContractError;
use crate::events::{Transfer, total_paid_out};
use crate::types::{Address, EscrowData, EscrowView, Payee, ResolutionType};
use crate::contract::bps_total;

verus! {

/// Basis points in one whole: 10_000 bps == 100%.
pub const BPS_DENOMINATOR: i128 = 10_000;

/// The fee on `amount` at `bps` basis points, rounded down.
pub open spec fn fee_of(amount: int, bps: int) -> int {
    amount * bps / 10_000
}

/// The outcome of [`calculate_fee`] on given inputs.
pub open spec fn fee_result(amount: i128, bps: u32) -> Result<i128, ContractError> {
    if amount < 0 {
        Err(ContractError::InvalidAmount)
    } else if fee_of(amount as int, bps as int) > i128::MAX {
        Err(ContractError::ArithmeticOverflow)
    } else {
        Ok(fee_of(amount as int, bps as int) as i128)
    }
}

/// Splitting `amount` into whole ten-thousandths and a remainder computes the
/// same rounded-down fee as the direct formula.
pub proof fn lemma_fee_split(amount: int, bps: int)
    requires
        amount >= 0,
        bps >= 0,
    ensures
        (amount / 10_000) * bps + ((amount % 10_000) * bps) / 10_000 == fee_of(amount, bps),
        (amount / 10_000) * bps <= fee_of(amount, bps),
        0 <= ((amount % 10_000) * bps) / 10_000,
{
    let q = amount / 10_000;
    let r = amount % 10_000;
    assert(amount == 10_000 * q + r) by (nonlinear_arith)
        requires q == amount / 10_000, r == amount % 10_000;
    assert(0 <= r < 10_000);
    assert(amount * bps == 10_000 * (q * bps) + r * bps) by (nonlinear_arith)
        requires amount == 10_000 * q + r;
    assert(r * bps >= 0) by (nonlinear_arith) requires r >= 0, bps >= 0;
    assert((10_000 * (q * bps) + r * bps) / 10_000 == q * bps + (r * bps) / 10_000) by (nonlinear_arith)
        requires r * bps >= 0;
}

/// The rounded-down fee is never negative and, for at most 100%, never more
/// than the amount.
pub proof fn lemma_fee_bounds(amount: int, bps: int)
    requires
        amount >= 0,
        0 <= bps,
    ensures
        0 <= fee_of(amount, bps),
        bps <= 10_000 ==> fee_of(amount, bps) <= amount,
        fee_of(amount, bps) * 10_000 <= amount * bps,
        bps == 0 ==> fee_of(amount, bps) == 0,
{
    assert(amount * bps >= 0) by (nonlinear_arith) requires amount >= 0, bps >= 0;
    if bps <= 10_000 {
        assert(amount * bps <= amount * 10_000) by (nonlinear_arith)
            requires amount >= 0, bps <= 10_000;
        assert((amount * bps) / 10_000 <= (amount * 10_000) / 10_000) by (nonlinear_arith)
            requires amount * bps <= amount * 10_000, amount * bps >= 0;
    }
    assert(((amount * bps) / 10_000) * 10_000 <= amount * bps) by (nonlinear_arith)
        requires amount * bps >= 0;
}

/// Computes the fee on `amount` at `fee_bps` basis points.
///
/// Rounding policy: floor. The fee is `floor(amount * fee_bps / 10_000)`;
/// callers derive the payout as `amount - fee`, so the remainder dropped from
/// the fee stays with the recipient and nothing is stranded in the vault.
/// The product is split into whole ten-thousandths and a remainder so that
/// large amounts do not overflow.
///
/// Returns `InvalidAmount` for a negative amount and `ArithmeticOverflow`
/// when the fee does not fit in an `i128`.
pub fn calculate_fee(amount: i128, fee_bps: u32) -> (r: Result<i128, ContractError>)
    ensures
        r == fee_result(amount, fee_bps),
{
    if amount < 0 {
        return Err(ContractError::InvalidAmount);
    }
    proof {
        lemma_fee_split(amount as int, fee_bps as int);
        lemma_fee_bounds(amount as int, fee_bps as int);
    }
    let bps = fee_bps as i128;
    let part1 = match (amount / BPS_DENOMINATOR).checked_mul(bps) {
        Some(p) => p,
        None => return Err(ContractError::ArithmeticOverflow),
    };
    let rem = amount % BPS_DENOMINATOR;
    assert(0 <= rem < 10_000);
    assert(rem * bps <= 10_000 * 0x1_0000_0000) by (nonlinear_arith)
        requires 0 <= rem < 10_000, 0 <= bps <= 0xffff_ffff;
    assert(rem * bps >= 0) by (nonlinear_arith)
        requires 0 <= rem, 0 <= bps;
    let part2 = (rem * bps) / BPS_DENOMINATOR;
    match part1.checked_add(part2) {
        Some(fee) => Ok(fee),
        None => Err(ContractError::ArithmeticOverflow),
    }
}

/// The outcome of [`calculate_protocol_fee`] on given inputs.
pub open spec fn protocol_fee_result(amount: i128, bps: u32) -> Result<(i128, i128), ContractError> {
    match fee_result(amount, bps) {
        Err(e) => Err(e),
        Ok(fee) => if amount - fee < i128::MIN {
            Err(ContractError::ArithmeticOverflow)
        } else {
            Ok((fee, (amount - fee) as i128))
        },
    }
}

/// Splits `amount` into `(fee, net)` with `fee = floor(amount * fee_bps /
/// 10_000)` and `net = amount - fee`, so `fee + net == amount` always holds.
pub fn calculate_protocol_fee(amount: i128, fee_bps: u32) -> (r: Result<(i128, i128), ContractError>)
    ensures
        r == protocol_fee_result(amount, fee_bps),
        r matches Ok((fee, net)) ==> fee + net == amount,
{
    let fee = calculate_fee(amount, fee_bps)?;
    match amount.checked_sub(fee) {
        Some(net) => Ok((fee, net)),
        None => Err(ContractError::ArithmeticOverflow),
    }
}

/// One payout of a dispute settlement.
#[derive(Clone, Copy, Debug, PartialEq, Eq, Structural)]
pub struct TransferInstruction {
    pub recipient: Address,
    pub amount: i128,
}

/// The outcome of [`calculate_dispute_allocations`].
pub open spec fn dispute_allocations(
    escrow: EscrowView,
    resolution: ResolutionType,
    arbitration_fee: i128,
    fee_collector: Address,
) -> Result<Seq<TransferInstruction>, ContractError> {
    if escrow.amount < arbitration_fee {
        Err(ContractError::InsufficientBalance)
    } else if escrow.amount - arbitration_fee > i128::MAX {
        Err(ContractError::ArithmeticOverflow)
    } else {
        let remaining = (escrow.amount - arbitration_fee) as i128;
        match protocol_fee_result(remaining, escrow.fee_bps) {
            Err(e) => Err(e),
            Ok((fee, net)) => {
                if resolution == ResolutionType::Refund && escrow.buyer.is_none() {
                    Err(ContractError::EscrowHasNoBuyer)
                } else {
                    let recipient = match resolution {
                        ResolutionType::Release => escrow.seller(),
                        ResolutionType::Refund => escrow.buyer.unwrap(),
                    };
                    let first = seq![TransferInstruction { recipient, amount: net }];
                    if fee > 0 {
                        Ok(first.push(TransferInstruction { recipient: fee_collector, amount: fee }))
                    } else {
                        Ok(first)
                    }
                }
            },
        }
    }
}

/// Plans the payouts of a dispute settlement: the arbitration fee is taken
/// off the escrowed amount, the protocol fee at the escrow's rate is taken off
/// the rest, the net goes to the winning party (the seller on `Release`, the
/// buyer on `Refund`) and a non-zero protocol fee goes to `fee_collector`.
pub fn calculate_dispute_allocations(
    escrow: &EscrowData,
    resolution: ResolutionType,
    arbitration_fee: i128,
    fee_collector: Address,
) -> (r: Result<Vec<TransferInstruction>, ContractError>)
    requires
        escrow.payees@.len() > 0,
    ensures
        match (r, dispute_allocations(escrow@, resolution, arbitration_fee, fee_collector)) {
            (Ok(v), Ok(s)) => v@ == s,
            (Err(e1), Err(e2)) => e1 == e2,
            _ => false,
        },
{
    if escrow.amount < arbitration_fee {
        return Err(ContractError::InsufficientBalance);
    }
    let remaining = match escrow.amount.checked_sub(arbitration_fee) {
        Some(v) => v,
        None => return Err(ContractError::ArithmeticOverflow),
    };
    let (fee, net) = calculate_protocol_fee(remaining, escrow.fee_bps)?;
    let recipient = match resolution {
        ResolutionType::Release => escrow.payees[0].address,
        ResolutionType::Refund => match escrow.buyer {
            Some(b) => b,
            None => return Err(ContractError::EscrowHasNoBuyer),
        },
    };
    let mut transfers: Vec<TransferInstruction> = Vec::new();
    transfers.push(TransferInstruction { recipient, amount: net });
    if fee > 0 {
        transfers.push(TransferInstruction { recipient: fee_collector, amount: fee });
    }
    Ok(transfers)
}

/// The payouts of `instructions` in `token`, leaving out those that move
/// nothing.
pub open spec fn positive_payouts(token: Address, instructions: Seq<TransferInstruction>) -> Seq<Transfer>
    decreases instructions.len(),
{
    if instructions.len() == 0 {
        seq![]
    } else {
        let prev = positive_payouts(token, instructions.drop_last());
        let last = instructions.last();
        if last.amount > 0 {
            prev.push(Transfer::Payout { token, to: last.recipient, amount: last.amount })
        } else {
            prev
        }
    }
}

/// Executes transfer instructions by handing the host the vault payouts to
/// perform: every instruction with a positive amount, in order; those that
/// move nothing are skipped.
pub fn execute_payout_transfers(token: Address, instructions: &Vec<TransferInstruction>) -> (r: Vec<Transfer>)
    ensures
        r@ == positive_payouts(token, instructions@),
{
    let mut out: Vec<Transfer> = Vec::new();
    let mut i: usize = 0;
    while i < instructions.len()
        invariant
            i <= instructions.len(),
            out@ == positive_payouts(token, instructions@.subrange(0, i as int)),
        decreases instructions.len() - i,
    {
        let ins = instructions[i];
        proof {
            let s = instructions@.subrange(0, i + 1);
            assert(s.drop_last() =~= instructions@.subrange(0, i as int));
            assert(s.last() == ins);
        }
        if ins.amount > 0 {
            out.push(Transfer::Payout { token, to: ins.recipient, amount: ins.amount });
        }
        i = i + 1;
    }
    assert(instructions@.subrange(0, instructions@.len() as int) =~= instructions@);
    out
}

/// The rounded-down share of `amount` owed to a payee holding `bps`.
pub open spec fn share_of(amount: int, bps: u32) -> int {
    amount * bps / 10_000
}

/// Total of the shares of payees `1 .. i` (every payee but the first, up to `i`).
pub open spec fn others_total(amount: int, ps: Seq<Payee>, i: int) -> int
    decreases i,
{
    if i <= 1 {
        0
    } else {
        others_total(amount, ps, i - 1) + share_of(amount, ps[i - 1].bps)
    }
}

/// Payouts to payees `1 .. i`, leaving out shares that round to zero.
pub open spec fn others_payouts(token: Address, amount: int, ps: Seq<Payee>, i: int) -> Seq<Transfer>
    decreases i,
{
    if i <= 1 {
        seq![]
    } else {
        let prev = others_payouts(token, amount, ps, i - 1);
        let s = share_of(amount, ps[i - 1].bps);
        if s > 0 {
            prev.push(Transfer::Payout { token, to: ps[i - 1].address, amount: s as i128 })
        } else {
            prev
        }
    }
}

/// The payouts splitting `amount` among payees: every payee but the first
/// gets its rounded-down share, and the first gets the rest, so rounding
/// always favours the first payee and the shares add up to `amount`.
pub open spec fn split_payouts(token: Address, amount: i128, ps: Seq<Payee>) -> Seq<Transfer> {
    let others = others_payouts(token, amount as int, ps, ps.len() as int);
    let rest = amount - others_total(amount as int, ps, ps.len() as int);
    if rest > 0 {
        others.push(Transfer::Payout { token, to: ps[0].address, amount: rest as i128 })
    } else {
        others
    }
}

/// Whether computing some payee's share of `amount` overflows `i128`.
pub open spec fn split_overflows(amount: i128, ps: Seq<Payee>) -> bool {
    exists|i: int| 1 <= i < ps.len() && #[trigger] ps[i].bps * amount > i128::MAX
}

/// Prefix sums of shares in basis points grow payee by payee.
pub proof fn lemma_bps_prefix_step(ps: Seq<Payee>, i: int)
    requires
        0 <= i < ps.len(),
    ensures
        bps_total(ps.subrange(0, i + 1)) == bps_total(ps.subrange(0, i)) + ps[i].bps,
        bps_total(ps.subrange(0, i)) >= 0,
{
    assert(ps.subrange(0, i + 1).drop_last() =~= ps.subrange(0, i));
    lemma_bps_total_nonneg(ps.subrange(0, i));
}

/// Share totals are never negative.
pub proof fn lemma_bps_total_nonneg(ps: Seq<Payee>)
    ensures
        bps_total(ps) >= 0,
    decreases ps.len(),
{
    if ps.len() > 0 {
        lemma_bps_total_nonneg(ps.drop_last());
    }
}

/// The shares of payees `1 .. i` never exceed `amount` scaled by their bps.
pub proof fn lemma_others_bounded(amount: int, ps: Seq<Payee>, i: int)
    requires
        amount >= 0,
        1 <= i <= ps.len(),
    ensures
        0 <= others_total(amount, ps, i),
        others_total(amount, ps, i) * 10_000 <= amount * (bps_total(ps.subrange(0, i)) - ps[0].bps),
        bps_total(ps.subrange(0, i)) >= ps[0].bps,
    decreases i,
{
    if i == 1 {
        reveal_with_fuel(bps_total, 2);
        assert(ps.subrange(0, 1).drop_last() =~= Seq::<Payee>::empty());
        assert(ps.subrange(0, 1).last() == ps[0]);
    } else {
        lemma_others_bounded(amount, ps, i - 1);
        lemma_bps_prefix_step(ps, i - 1);
        let b = ps[i - 1].bps as int;
        let sh = share_of(amount, ps[i - 1].bps);
        assert(amount * b >= 0) by (nonlinear_arith) requires amount >= 0, b >= 0;
        assert(sh * 10_000 <= amount * b && sh >= 0) by (nonlinear_arith)
            requires sh == amount * b / 10_000, amount * b >= 0;
        let p = bps_total(ps.subrange(0, i - 1)) - ps[0].bps;
        assert(amount * (p + b) == amount * p + amount * b) by (nonlinear_arith);
    }
}

/// Payouts to payees `1 .. i` add up to their shares.
pub proof fn lemma_others_paid(token: Address, amount: int, ps: Seq<Payee>, i: int)
    requires
        amount >= 0,
        i <= ps.len(),
        forall|j: int| 1 <= j < i ==> #[trigger] ps[j].bps * amount <= i128::MAX,
    ensures
        total_paid_out(others_payouts(token, amount, ps, i)) == others_total(amount, ps, i),
    decreases i,
{
    if i > 1 {
        lemma_others_paid(token, amount, ps, i - 1);
        let prev = others_payouts(token, amount, ps, i - 1);
        let s = share_of(amount, ps[i - 1].bps);
        let b = ps[i - 1].bps as int;
        assert(ps[i - 1].bps * amount <= i128::MAX);
        assert(0 <= s <= i128::MAX) by (nonlinear_arith)
            requires s == amount * b / 10_000, amount >= 0, b >= 0, b * amount <= i128::MAX;
        if s > 0 {
            let t = prev.push(Transfer::Payout { token, to: ps[i - 1].address, amount: s as i128 });
            assert(t.drop_last() =~= prev);
            assert(t.last() == Transfer::Payout { token, to: ps[i - 1].address, amount: s as i128 });
            assert(total_paid_out(t) == total_paid_out(prev) + s);
        }
    }
}

/// Splitting a non-negative amount among valid payees pays out exactly the
/// amount, and no payout is negative.
pub proof fn lemma_split_pays_amount(token: Address, amount: i128, ps: Seq<Payee>)
    requires
        amount >= 0,
        ps.len() >= 1,
        bps_total(ps) == 10_000,
        !split_overflows(amount, ps),
    ensures
        total_paid_out(split_payouts(token, amount, ps)) == amount,
        0 <= others_total(amount as int, ps, ps.len() as int) <= amount,
{
    lemma_others_bounded(amount as int, ps, ps.len() as int);
    assert(ps.subrange(0, ps.len() as int) =~= ps);
    let o = others_total(amount as int, ps, ps.len() as int);
    let rest_bps = bps_total(ps) - ps[0].bps;
    assert(amount * rest_bps <= amount * 10_000) by (nonlinear_arith)
        requires amount >= 0, rest_bps <= 10_000;
    lemma_others_paid(token, amount as int, ps, ps.len() as int);
    let others = others_payouts(token, amount as int, ps, ps.len() as int);
    let rest = amount - o;
    if rest > 0 {
        let t = others.push(Transfer::Payout { token, to: ps[0].address, amount: rest as i128 });
        assert(t.drop_last() =~= others);
    }
}

/// Plans the payout of `amount` to the payees: each payee but the first gets
/// `amount * bps / 10_000` (rounded down), the first payee gets what remains,
/// and zero amounts are not transferred. Fails with `ArithmeticError` when a
/// share's product overflows.
pub fn distribute_to_payees(token: Address, payees: &Vec<Payee>, amount: i128) -> (r: Result<Vec<Transfer>, ContractError>)
    requires
        amount >= 0,
        payees@.len() >= 1,
        bps_total(payees@) == 10_000,
    ensures
        match r {
            Ok(ts) => !split_overflows(amount, payees@) && ts@ == split_payouts(token, amount, payees@),
            Err(e) => split_overflows(amount, payees@) && e == ContractError::ArithmeticError,
        },
{
    let ghost ps = payees@;
    let mut out: Vec<Transfer> = Vec::new();
    let mut remaining: i128 = amount;
    let n = payees.len();
    let mut i: usize = 1;
    while i < n
        invariant
            n == ps.len(),
            ps == payees@,
            1 <= i <= n,
            amount >= 0,
            bps_total(ps) == 10_000,
            remaining == amount - others_total(amount as int, ps, i as int),
            out@ == others_payouts(token, amount as int, ps, i as int),
            forall|j: int| 1 <= j < i ==> #[trigger] ps[j].bps * amount <= i128::MAX,
        decreases n - i,
    {
        let p = payees[i];
        let prod = match amount.checked_mul(p.bps as i128) {
            Some(v) => v,
            None => {
                assert(ps[i as int].bps * amount > i128::MAX);
                return Err(ContractError::ArithmeticError);
            },
        };
        proof {
            lemma_others_bounded(amount as int, ps, i + 1);
            lemma_bps_prefix_step(ps, i as int);
            assert(bps_total(ps.subrange(0, i + 1)) <= 10_000) by {
                lemma_prefix_le_total(ps, i + 1);
            }
            assert(amount * (bps_total(ps.subrange(0, i + 1)) - ps[0].bps) <= amount * 10_000) by (nonlinear_arith)
                requires amount >= 0, bps_total(ps.subrange(0, i + 1)) - ps[0].bps <= 10_000;
            assert(prod >= 0) by (nonlinear_arith) requires prod == amount * p.bps, amount >= 0;
            assert(ps[i as int].bps * amount == prod) by (nonlinear_arith)
                requires prod == amount * p.bps, p == ps[i as int];
        }
        let share = prod / 10_000;
        remaining = remaining - share;
        if share > 0 {
            out.push(Transfer::Payout { token, to: p.address, amount: share });
        }
        i = i + 1;
    }
    if remaining > 0 {
        out.push(Transfer::Payout { token, to: payees[0].address, amount: remaining });
    }
    Ok(out)
}

/// A prefix of the payees never holds more bps than all of them.
pub proof fn lemma_prefix_le_total(ps: Seq<Payee>, i: int)
    requires
        0 <= i <= ps.len(),
    ensures
        bps_total(ps.subrange(0, i)) <= bps_total(ps),
    decreases ps.len() - i,
{
    if i < ps.len() {
        lemma_prefix_le_total(ps, i + 1);
        lemma_bps_prefix_step(ps, i);
    } else {
        assert(ps.subrange(0, i) =~= ps);
    }
}

} // verus!
