#![allow(dead_code, unused_imports)]

use escrow::contract::{EscrowContract, DISPUTE_WINDOW};
use escrow::errors::ContractError;
use escrow::events::{ContractEvent, Outcome, Transfer};
use escrow::types::{
    Address, AddressKind, ContractConfig, ContractStats, DisputeData, EscrowData, EscrowInput, EscrowState, FeeConfig,
    Hash32, Message, Payee, PublicContractConfig, ResolutionType,
};

/// A stand-in for the ledger around the contract: the clock, token balances
/// and published events. Calls mirror the contract client: `try_*` returns
/// the contract's error, the plain form panics on one.
struct Host {
    c: EscrowContract,
    now: u64,
    next: u128,
    balances: Vec<((Address, Address), i128)>,
    events: Vec<ContractEvent>,
}

impl Host {
    fn new() -> Host {
        Host { c: EscrowContract::new(), now: 0, next: 0, balances: Vec::new(), events: Vec::new() }
    }

    /// A fresh contract with a fresh admin and fee collector, no arbitration fee.
    fn setup() -> (Host, Address, Address) {
        let mut h = Host::new();
        let admin = h.generate();
        let fee_collector = h.generate();
        h.initialize(&admin, &fee_collector, &0);
        (h, admin, fee_collector)
    }

    fn generate(&mut self) -> Address {
        self.next += 1;
        Address { kind: AddressKind::Account, hi: 1, lo: self.next }
    }

    fn register_token(&mut self) -> Address {
        self.next += 1;
        Address { kind: AddressKind::Contract, hi: 2, lo: self.next }
    }

    fn vault(&self) -> Address {
        Address { kind: AddressKind::Contract, hi: 3, lo: 0 }
    }

    fn balance(&self, token: &Address, who: &Address) -> i128 {
        for (k, v) in self.balances.iter() {
            if k.0 == *token && k.1 == *who {
                return *v;
            }
        }
        0
    }

    fn add_balance(&mut self, token: &Address, who: &Address, delta: i128) {
        for (k, v) in self.balances.iter_mut() {
            if k.0 == *token && k.1 == *who {
                *v += delta;
                return;
            }
        }
        self.balances.push(((*token, *who), delta));
    }

    fn mint(&mut self, token: &Address, to: &Address, amount: i128) {
        self.add_balance(token, to, amount);
    }

    fn transfer(&mut self, token: &Address, from: &Address, to: &Address, amount: i128) {
        assert!(self.balance(token, from) >= amount, "balance is not sufficient to spend");
        self.add_balance(token, from, -amount);
        self.add_balance(token, to, amount);
    }

    fn set_timestamp(&mut self, t: u64) {
        self.now = t;
    }

    fn advance_time(&mut self, seconds: u64) {
        self.now += seconds;
    }

    fn apply(&mut self, r: Result<Outcome, ContractError>) -> Result<(), ContractError> {
        let o = r?;
        let vault = self.vault();
        for t in o.transfers.iter() {
            match *t {
                Transfer::Deposit { token, from, amount } => self.transfer(&token, &from, &vault, amount),
                Transfer::Payout { token, to, amount } => self.transfer(&token, &vault, &to, amount),
            }
        }
        self.events.extend(o.events);
        Ok(())
    }

    fn single_payee(&self, a: &Address) -> Vec<Payee> {
        vec![Payee { address: *a, bps: 10_000 }]
    }

    fn try_initialize(&mut self, admin: &Address, fee_collector: &Address, arb: &u32) -> Result<(), ContractError> {
        let r = self.c.initialize(*admin, *fee_collector, *arb, self.now);
        self.apply(r)
    }

    fn initialize(&mut self, admin: &Address, fee_collector: &Address, arb: &u32) {
        self.try_initialize(admin, fee_collector, arb).unwrap()
    }

    fn try_pause_contract(&mut self, caller: &Address) -> Result<(), ContractError> {
        let r = self.c.pause_contract(*caller, self.now);
        self.apply(r)
    }

    fn pause_contract(&mut self, caller: &Address) {
        self.try_pause_contract(caller).unwrap()
    }

    fn try_unpause_contract(&mut self, caller: &Address) -> Result<(), ContractError> {
        let r = self.c.unpause_contract(*caller, self.now);
        self.apply(r)
    }

    fn unpause_contract(&mut self, caller: &Address) {
        self.try_unpause_contract(caller).unwrap()
    }

    fn try_set_admin(&mut self, new_admin: &Address) -> Result<(), ContractError> {
        let r = self.c.set_admin(*new_admin, self.now);
        self.apply(r)
    }

    fn set_admin(&mut self, new_admin: &Address) {
        self.try_set_admin(new_admin).unwrap()
    }

    fn try_set_fee(&mut self, caller: &Address, fee_bps: &u32) -> Result<(), ContractError> {
        let r = self.c.set_fee(*caller, *fee_bps, self.now);
        self.apply(r)
    }

    fn set_fee(&mut self, caller: &Address, fee_bps: &u32) {
        self.try_set_fee(caller, fee_bps).unwrap()
    }

    fn try_set_protocol_fee(&mut self, caller: &Address, fee_bps: &u32) -> Result<(), ContractError> {
        let r = self.c.set_protocol_fee(*caller, *fee_bps, self.now);
        self.apply(r)
    }

    fn set_protocol_fee(&mut self, caller: &Address, fee_bps: &u32) {
        self.try_set_protocol_fee(caller, fee_bps).unwrap()
    }

    fn try_set_arbitration_fee(&mut self, caller: &Address, fee_bps: &u32) -> Result<(), ContractError> {
        let r = self.c.set_arbitration_fee(*caller, *fee_bps, self.now);
        self.apply(r)
    }

    fn set_arbitration_fee(&mut self, caller: &Address, fee_bps: &u32) {
        self.try_set_arbitration_fee(caller, fee_bps).unwrap()
    }

    fn try_withdraw_fees(&mut self, caller: &Address, token: &Address, to: &Address, amount: &i128) -> Result<(), ContractError> {
        let r = self.c.withdraw_fees(*caller, *token, *to, *amount, self.now);
        self.apply(r)
    }

    fn try_set_amount_limits(&mut self, caller: &Address, min: &i128, max: &i128) -> Result<(), ContractError> {
        self.c.set_amount_limits(*caller, *min, *max)
    }

    fn try_create_escrow(
        &mut self,
        payees: &Vec<Payee>,
        buyer: &Option<Address>,
        resolver: &Address,
        token: &Address,
        amount: &i128,
        fee_bps: &u32,
        resolver_fee_bps: &u32,
        shipping_window: &u64,
    ) -> Result<u64, ContractError> {
        let input_ok =
            self.c.check_create_input(payees, *buyer, *resolver, *token, *amount, *fee_bps, *resolver_fee_bps).is_ok();
        assert!(self.c.admin.is_some() || !input_ok, "counter initialized");
        let (id, o) = self.c.create_escrow(
            payees.clone(),
            *buyer,
            *resolver,
            *token,
            *amount,
            *fee_bps,
            *resolver_fee_bps,
            *shipping_window,
            self.now,
        )?;
        self.apply(Ok(o))?;
        Ok(id)
    }

    fn create_escrow(
        &mut self,
        payees: &Vec<Payee>,
        buyer: &Option<Address>,
        resolver: &Address,
        token: &Address,
        amount: &i128,
        fee_bps: &u32,
        resolver_fee_bps: &u32,
        shipping_window: &u64,
    ) -> u64 {
        self.try_create_escrow(payees, buyer, resolver, token, amount, fee_bps, resolver_fee_bps, shipping_window)
            .unwrap()
    }

    fn try_create_milestone_escrow(
        &mut self,
        seller: &Address,
        buyer: &Option<Address>,
        resolver: &Address,
        token: &Address,
        amounts: &Vec<i128>,
        fee_bps: &u32,
        shipping_window: &u64,
    ) -> Result<u64, ContractError> {
        let input_ok = self.c.check_milestone_input(*seller, *buyer, *resolver, amounts, *fee_bps).is_ok();
        assert!(self.c.admin.is_some() || !input_ok, "counter initialized");
        let (id, o) =
            self.c.create_milestone_escrow(*seller, *buyer, *resolver, *token, amounts, *fee_bps, *shipping_window, self.now)?;
        self.apply(Ok(o))?;
        Ok(id)
    }

    fn try_batch_create_escrow(&mut self, seller: &Address, inputs: &Vec<EscrowInput>) -> Result<Vec<u64>, ContractError> {
        let first_ok = !self.c.is_paused()
            && inputs.first().map_or(false, |i| self.c.check_batch_request(*seller, i).is_ok());
        assert!(self.c.admin.is_some() || !first_ok, "counter initialized");
        let (ids, o) = self.c.batch_create_escrow(*seller, inputs, self.now)?;
        self.apply(Ok(o))?;
        Ok(ids)
    }

    fn try_fund_escrow(&mut self, id: &u64, buyer: &Address) -> Result<(), ContractError> {
        let completes = match self.c.get_escrow(*id) {
            Ok(e) => self.c.funding_completes(*id, *buyer, e.amount - e.funded_amount),
            Err(_) => false,
        };
        assert!(!completes || self.now <= u64::MAX - DISPUTE_WINDOW, "attempt to add with overflow");
        let r = self.c.fund_escrow(*id, *buyer, self.now);
        self.apply(r)
    }

    fn fund_escrow(&mut self, id: &u64, buyer: &Address) {
        self.try_fund_escrow(id, buyer).unwrap()
    }

    fn try_fund_escrow_tranche(&mut self, id: &u64, buyer: &Address, amount: &i128) -> Result<(), ContractError> {
        let completes = self.c.funding_completes(*id, *buyer, *amount);
        assert!(!completes || self.now <= u64::MAX - DISPUTE_WINDOW, "attempt to add with overflow");
        let r = self.c.fund_escrow_tranche(*id, *buyer, *amount, self.now);
        self.apply(r)
    }

    fn try_raise_dispute(&mut self, caller: &Address, id: &u64, reason: &str, description: &str, hash: &Hash32) -> Result<(), ContractError> {
        let r = self.c.raise_dispute(*caller, *id, reason.to_string(), description.to_string(), *hash, self.now);
        self.apply(r)
    }

    fn raise_dispute(&mut self, caller: &Address, id: &u64, reason: &str, description: &str, hash: &Hash32) {
        self.try_raise_dispute(caller, id, reason, description, hash).unwrap()
    }

    fn try_cancel_escrow(&mut self, caller: &Address, id: &u64) -> Result<(), ContractError> {
        let r = self.c.cancel_escrow(*caller, *id, self.now);
        self.apply(r)
    }

    fn cancel_escrow(&mut self, caller: &Address, id: &u64) {
        self.try_cancel_escrow(caller, id).unwrap()
    }

    fn try_mutual_cancel(&mut self, id: &u64) -> Result<(), ContractError> {
        let r = self.c.mutual_cancel(*id, self.now);
        self.apply(r)
    }

    fn try_mark_shipped(&mut self, caller: &Address, id: &u64, tracking_id: &str) -> Result<(), ContractError> {
        let r = self.c.mark_shipped(*caller, *id, tracking_id.to_string(), self.now);
        self.apply(r)
    }

    fn mark_shipped(&mut self, caller: &Address, id: &u64, tracking_id: &str) {
        self.try_mark_shipped(caller, id, tracking_id).unwrap()
    }

    fn try_record_delivery(&mut self, caller: &Address, id: &u64) -> Result<(), ContractError> {
        let r = self.c.record_delivery(*caller, *id, self.now);
        self.apply(r)
    }

    fn try_confirm_delivery(&mut self, caller: &Address, id: &u64) -> Result<(), ContractError> {
        let r = self.c.confirm_delivery(*caller, *id, self.now);
        self.apply(r)
    }

    fn confirm_delivery(&mut self, caller: &Address, id: &u64) {
        self.try_confirm_delivery(caller, id).unwrap()
    }

    fn try_release_milestone(&mut self, caller: &Address, id: &u64, index: &u32) -> Result<(), ContractError> {
        let r = self.c.release_milestone(*caller, *id, *index, self.now);
        self.apply(r)
    }

    fn try_resolve_dispute(&mut self, caller: &Address, id: &u64, resolution: &ResolutionType) -> Result<(), ContractError> {
        let r = self.c.resolve_dispute(*caller, *id, *resolution, self.now);
        self.apply(r)
    }

    fn resolve_dispute(&mut self, caller: &Address, id: &u64, resolution: &ResolutionType) {
        self.try_resolve_dispute(caller, id, resolution).unwrap()
    }

    fn try_auto_release(&mut self, id: &u64) -> Result<(), ContractError> {
        let r = self.c.auto_release(*id, self.now);
        self.apply(r)
    }

    fn auto_release(&mut self, id: &u64) {
        self.try_auto_release(id).unwrap()
    }

    fn try_rotate_resolver(&mut self, caller: &Address, id: &u64, new_resolver: &Address) -> Result<(), ContractError> {
        let r = self.c.rotate_resolver(*caller, *id, *new_resolver, self.now);
        self.apply(r)
    }

    fn try_request_refund(&mut self, caller: &Address, id: &u64) -> Result<(), ContractError> {
        let r = self.c.request_refund(*caller, *id, self.now);
        self.apply(r)
    }

    fn try_approve_refund(&mut self, caller: &Address, id: &u64) -> Result<(), ContractError> {
        let r = self.c.approve_refund(*caller, *id, self.now);
        self.apply(r)
    }

    fn try_get_escrow(&self, id: &u64) -> Result<EscrowData, ContractError> {
        self.c.get_escrow(*id)
    }

    fn get_escrow(&self, id: &u64) -> EscrowData {
        self.try_get_escrow(id).unwrap()
    }

    fn get_dispute(&self, id: &u64) -> Option<DisputeData> {
        self.c.get_dispute(*id)
    }
    fn try_pause_action(&mut self, caller: &Address, action: &str) -> Result<(), ContractError> {
        self.c.pause_action(*caller, action.to_string())
    }

    fn pause_action(&mut self, caller: &Address, action: &str) {
        self.try_pause_action(caller, action).unwrap()
    }

    fn try_unpause_action(&mut self, caller: &Address, action: &str) -> Result<(), ContractError> {
        self.c.unpause_action(*caller, action.to_string())
    }

    fn try_upgrade(&mut self, caller: &Address, hash: &Hash32) -> Result<(), ContractError> {
        let r = self.c.upgrade(*caller, *hash, self.now);
        self.apply(r)
    }

    fn try_set_ttl_extension(&mut self, caller: &Address, ledgers: &u32) -> Result<(), ContractError> {
        self.c.set_ttl_extension(*caller, *ledgers)
    }

    fn request_refund(&mut self, caller: &Address, id: &u64) {
        self.try_request_refund(caller, id).unwrap()
    }

    fn try_get_contract_config(&self) -> Result<ContractConfig, ContractError> {
        self.c.get_contract_config()
    }

    fn get_fee_config(&self) -> FeeConfig {
        self.c.get_fee_config()
    }

    fn get_stats(&self) -> ContractStats {
        self.c.get_stats()
    }

    fn get_public_config(&self) -> PublicContractConfig {
        self.c.get_public_config()
    }

    fn get_escrows_by_vendor(&self, vendor: &Address) -> Vec<u64> {
        self.c.get_escrows_by_vendor(*vendor)
    }

    fn get_escrows_by_buyer(&self, buyer: &Address) -> Vec<u64> {
        self.c.get_escrows_by_buyer(*buyer)
    }

    fn get_messages(&self, id: &u64, start: &u64, limit: &u64) -> Vec<Message> {
        self.c.get_messages(*id, *start, *limit)
    }

    fn try_post_message(&mut self, id: &u64, sender: &Address, content: &str) -> Result<(), ContractError> {
        let r = self.c.post_message(*id, *sender, content.to_string(), self.now);
        self.apply(r)
    }

    fn get_accumulated_fees(&self, token: &Address) -> i128 {
        self.c.get_accumulated_fees(*token)
    }

    fn get_total_arbitration_fees(&self, token: &Address) -> i128 {
        self.c.get_total_arbitration_fees(*token)
    }

    fn get_arbitration_fee(&self) -> u32 {
        self.c.get_arbitration_fee()
    }

    fn try_set_fee_collector(&mut self, new_collector: &Address) -> Result<(), ContractError> {
        let r = self.c.set_fee_collector(*new_collector);
        self.apply(r)
    }
}

const SHIPPING_WINDOW: u64 = 604_800;
const GRACE_PERIOD_SECS: u64 = 604_800;

fn fallback_setup() -> (Host, Address, Address, Address, Address) {
    let mut client = Host::new();
    let seller = client.generate();
    let buyer = client.generate();
    let resolver = client.generate();
    let admin = client.generate();
    let fee_collector = client.generate();
    let token_id = client.register_token();
    client.mint(&token_id, &buyer, 1_000_000_000_i128);
    client.initialize(&admin, &fee_collector, &0_u32);
    (client, seller, buyer, resolver, token_id)
}

fn create_fund_ship(client: &mut Host, seller: &Address, buyer: &Address, resolver: &Address, token: &Address) -> u64 {
    let payees = client.single_payee(seller);
    let escrow_id = client.create_escrow(&payees, &Some(*buyer), resolver, token, &100_000_000_i128, &0_u32, &0_u32, &SHIPPING_WINDOW);
    client.fund_escrow(&escrow_id, buyer);
    client.mark_shipped(seller, &escrow_id, "TRACK-001");
    escrow_id
}

#[test]
fn test_dispute_blocked_after_fallback_deadline_no_record_delivery() {
    let (mut client, seller, buyer, resolver, token) = fallback_setup();
    client.set_timestamp(1_000_000);
    let escrow_id = create_fund_ship(&mut client, &seller, &buyer, &resolver, &token);
    client.set_timestamp(1_000_000 + 7_776_000);
    let evidence = Hash32 { hi: 0x0101_0101_0101_0101_0101_0101_0101_0101, lo: 0x0101_0101_0101_0101_0101_0101_0101_0101 };
    let result = client.try_raise_dispute(&buyer, &escrow_id, "non_delivery", "Item never arrived after 90 days", &evidence);
    assert_eq!(result, Err(ContractError::DisputeWindowClosed), "raise_dispute must revert after fallback deadline");
}

#[test]
fn test_dispute_blocked_exactly_at_fallback_deadline() {
    let (mut client, seller, buyer, resolver, token) = fallback_setup();
    let ship_time: u64 = 1_000_000;
    client.set_timestamp(ship_time);
    let escrow_id = create_fund_ship(&mut client, &seller, &buyer, &resolver, &token);
    let deadline = ship_time + SHIPPING_WINDOW + GRACE_PERIOD_SECS;
    client.set_timestamp(deadline);
    let evidence = Hash32 { hi: 0x0303_0303_0303_0303_0303_0303_0303_0303, lo: 0x0303_0303_0303_0303_0303_0303_0303_0303 };
    let result = client.try_raise_dispute(&buyer, &escrow_id, "non_delivery", "At the boundary", &evidence);
    assert_eq!(result, Err(ContractError::DisputeWindowClosed), "raise_dispute must revert at the exact fallback deadline");
}

#[test]
fn test_regression_issue_infinite_dispute_window() {
    let (mut client, seller, buyer, resolver, token) = fallback_setup();
    client.set_timestamp(0);
    let escrow_id = create_fund_ship(&mut client, &seller, &buyer, &resolver, &token);
    client.set_timestamp(7_776_000);
    let evidence = Hash32 { hi: u128::MAX / 3 * 2, lo: u128::MAX / 3 * 2 };
    let result = client.try_raise_dispute(&buyer, &escrow_id, "non_delivery", "90-day late dispute attempt", &evidence);
    assert_eq!(result, Err(ContractError::DisputeWindowClosed), "[REGRESSION] Infinite dispute window bug must be fixed");
}

fn batch_setup() -> (Host, Address, Address, Address, Address) {
    let mut client = Host::new();
    let admin = client.generate();
    let seller = client.generate();
    let buyer = client.generate();
    let resolver = client.generate();
    let fee_collector = client.generate();
    let token = client.register_token();
    client.initialize(&admin, &fee_collector, &0_u32);
    (client, seller, buyer, resolver, token)
}

#[test]
fn test_batch_create_success() {
    let (mut client, seller, buyer, resolver, token) = batch_setup();
    let amount1 = 1000;
    let amount2 = 2000;
    let escrows = vec![
        EscrowInput { buyer: Some(buyer), resolver, token, amount: amount1, fee_bps: 100, shipping_window: 3600, notes: None },
        EscrowInput { buyer: None, resolver, token, amount: amount2, fee_bps: 100, shipping_window: 3600, notes: None },
    ];
    let ids = client.try_batch_create_escrow(&seller, &escrows).unwrap();
    assert_eq!(ids.len(), 2);
    let escrow1 = client.get_escrow(&ids[0]);
    assert_eq!(escrow1.amount, amount1);
    assert_eq!(escrow1.buyer, Some(buyer));
    let escrow2 = client.get_escrow(&ids[1]);
    assert_eq!(escrow2.amount, amount2);
    assert_eq!(escrow2.buyer, None);
}

#[test]
fn test_batch_create_partial_failure() {
    let (mut client, seller, buyer, resolver, token) = batch_setup();
    let escrows = vec![
        EscrowInput { buyer: Some(buyer), resolver, token, amount: 1000, fee_bps: 100, shipping_window: 3600, notes: None },
        EscrowInput { buyer: None, resolver, token, amount: 0, fee_bps: 100, shipping_window: 3600, notes: None },
    ];
    let res = client.try_batch_create_escrow(&seller, &escrows);
    assert_eq!(res, Err(ContractError::InvalidAmount));
    assert_eq!(client.get_stats().total_created, 0);
}
