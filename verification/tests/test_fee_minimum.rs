#![allow(dead_code, unused_imports)]

use escrow::contract::{EscrowContract, DISPUTE_WINDOW};
use escrow::errors::ContractError;
use escrow::events::{ContractEvent, Outcome, Transfer};
use escrow::types::{
    Address, AddressKind, ContractConfig, ContractStats, DisputeData, EscrowData, EscrowInput, EscrowState, FeeConfig,
    Hash32, Message, Payee, PublicContractConfig, ResolutionType,
};

/// A stand-in for the ledger around the contract: the clock, token balances
/// and published events. Calls mirror the contract client: `try_*` returns
/// the contract's error, the plain form panics on one.
struct Host {
    c: EscrowContract,
    now: u64,
    next: u128,
    balances: Vec<((Address, Address), i128)>,
    events: Vec<ContractEvent>,
}

impl Host {
    fn new() -> Host {
        Host { c: EscrowContract::new(), now: 0, next: 0, balances: Vec::new(), events: Vec::new() }
    }

    /// A fresh contract with a fresh admin and fee collector, no arbitration fee.
    fn setup() -> (Host, Address, Address) {
        let mut h = Host::new();
        let admin = h.generate();
        let fee_collector = h.generate();
        h.initialize(&admin, &fee_collector, &0);
        (h, admin, fee_collector)
    }

    fn generate(&mut self) -> Address {
        self.next += 1;
        Address { kind: AddressKind::Account, hi: 1, lo: self.next }
    }

    fn register_token(&mut self) -> Address {
        self.next += 1;
        Address { kind: AddressKind::Contract, hi: 2, lo: self.next }
    }

    fn vault(&self) -> Address {
        Address { kind: AddressKind::Contract, hi: 3, lo: 0 }
    }

    fn balance(&self, token: &Address, who: &Address) -> i128 {
        for (k, v) in self.balances.iter() {
            if k.0 == *token && k.1 == *who {
                return *v;
            }
        }
        0
    }

    fn add_balance(&mut self, token: &Address, who: &Address, delta: i128) {
        for (k, v) in self.balances.iter_mut() {
            if k.0 == *token && k.1 == *who {
                *v += delta;
                return;
            }
        }
        self.balances.push(((*token, *who), delta));
    }

    fn mint(&mut self, token: &Address, to: &Address, amount: i128) {
        self.add_balance(token, to, amount);
    }

    fn transfer(&mut self, token: &Address, from: &Address, to: &Address, amount: i128) {
        assert!(self.balance(token, from) >= amount, "balance is not sufficient to spend");
        self.add_balance(token, from, -amount);
        self.add_balance(token, to, amount);
    }

    fn set_timestamp(&mut self, t: u64) {
        self.now = t;
    }

    fn advance_time(&mut self, seconds: u64) {
        self.now += seconds;
    }

    fn apply(&mut self, r: Result<Outcome, ContractError>) -> Result<(), ContractError> {
        let o = r?;
        let vault = self.vault();
        for t in o.transfers.iter() {
            match *t {
                Transfer::Deposit { token, from, amount } => self.transfer(&token, &from, &vault, amount),
                Transfer::Payout { token, to, amount } => self.transfer(&token, &vault, &to, amount),
            }
        }
        self.events.extend(o.events);
        Ok(())
    }

    fn single_payee(&self, a: &Address) -> Vec<Payee> {
        vec![Payee { address: *a, bps: 10_000 }]
    }

    fn try_initialize(&mut self, admin: &Address, fee_collector: &Address, arb: &u32) -> Result<(), ContractError> {
        let r = self.c.initialize(*admin, *fee_collector, *arb, self.now);
        self.apply(r)
    }

    fn initialize(&mut self, admin: &Address, fee_collector: &Address, arb: &u32) {
        self.try_initialize(admin, fee_collector, arb).unwrap()
    }

    fn try_pause_contract(&mut self, caller: &Address) -> Result<(), ContractError> {
        let r = self.c.pause_contract(*caller, self.now);
        self.apply(r)
    }

    fn pause_contract(&mut self, caller: &Address) {
        self.try_pause_contract(caller).unwrap()
    }

    fn try_unpause_contract(&mut self, caller: &Address) -> Result<(), ContractError> {
        let r = self.c.unpause_contract(*caller, self.now);
        self.apply(r)
    }

    fn unpause_contract(&mut self, caller: &Address) {
        self.try_unpause_contract(caller).unwrap()
    }

    fn try_set_admin(&mut self, new_admin: &Address) -> Result<(), ContractError> {
        let r = self.c.set_admin(*new_admin, self.now);
        self.apply(r)
    }

    fn set_admin(&mut self, new_admin: &Address) {
        self.try_set_admin(new_admin).unwrap()
    }

    fn try_set_fee(&mut self, caller: &Address, fee_bps: &u32) -> Result<(), ContractError> {
        let r = self.c.set_fee(*caller, *fee_bps, self.now);
        self.apply(r)
    }

    fn set_fee(&mut self, caller: &Address, fee_bps: &u32) {
        self.try_set_fee(caller, fee_bps).unwrap()
    }

    fn try_set_protocol_fee(&mut self, caller: &Address, fee_bps: &u32) -> Result<(), ContractError> {
        let r = self.c.set_protocol_fee(*caller, *fee_bps, self.now);
        self.apply(r)
    }

    fn set_protocol_fee(&mut self, caller: &Address, fee_bps: &u32) {
        self.try_set_protocol_fee(caller, fee_bps).unwrap()
    }

    fn try_set_arbitration_fee(&mut self, caller: &Address, fee_bps: &u32) -> Result<(), ContractError> {
        let r = self.c.set_arbitration_fee(*caller, *fee_bps, self.now);
        self.apply(r)
    }

    fn set_arbitration_fee(&mut self, caller: &Address, fee_bps: &u32) {
        self.try_set_arbitration_fee(caller, fee_bps).unwrap()
    }

    fn try_withdraw_fees(&mut self, caller: &Address, token: &Address, to: &Address, amount: &i128) -> Result<(), ContractError> {
        let r = self.c.withdraw_fees(*caller, *token, *to, *amount, self.now);
        self.apply(r)
    }

    fn try_set_amount_limits(&mut self, caller: &Address, min: &i128, max: &i128) -> Result<(), ContractError> {
        self.c.set_amount_limits(*caller, *min, *max)
    }

    fn try_create_escrow(
        &mut self,
        payees: &Vec<Payee>,
        buyer: &Option<Address>,
        resolver: &Address,
        token: &Address,
        amount: &i128,
        fee_bps: &u32,
        resolver_fee_bps: &u32,
        shipping_window: &u64,
    ) -> Result<u64, ContractError> {
        let input_ok =
            self.c.check_create_input(payees, *buyer, *resolver, *token, *amount, *fee_bps, *resolver_fee_bps).is_ok();
        assert!(self.c.admin.is_some() || !input_ok, "counter initialized");
        let (id, o) = self.c.create_escrow(
            payees.clone(),
            *buyer,
            *resolver,
            *token,
            *amount,
            *fee_bps,
            *resolver_fee_bps,
            *shipping_window,
            self.now,
        )?;
        self.apply(Ok(o))?;
        Ok(id)
    }

    fn create_escrow(
        &mut self,
        payees: &Vec<Payee>,
        buyer: &Option<Address>,
        resolver: &Address,
        token: &Address,
        amount: &i128,
        fee_bps: &u32,
        resolver_fee_bps: &u32,
        shipping_window: &u64,
    ) -> u64 {
        self.try_create_escrow(payees, buyer, resolver, token, amount, fee_bps, resolver_fee_bps, shipping_window)
            .unwrap()
    }

    fn try_create_milestone_escrow(
        &mut self,
        seller: &Address,
        buyer: &Option<Address>,
        resolver: &Address,
        token: &Address,
        amounts: &Vec<i128>,
        fee_bps: &u32,
        shipping_window: &u64,
    ) -> Result<u64, ContractError> {
        let input_ok = self.c.check_milestone_input(*seller, *buyer, *resolver, amounts, *fee_bps).is_ok();
        assert!(self.c.admin.is_some() || !input_ok, "counter initialized");
        let (id, o) =
            self.c.create_milestone_escrow(*seller, *buyer, *resolver, *token, amounts, *fee_bps, *shipping_window, self.now)?;
        self.apply(Ok(o))?;
        Ok(id)
    }

    fn try_batch_create_escrow(&mut self, seller: &Address, inputs: &Vec<EscrowInput>) -> Result<Vec<u64>, ContractError> {
        let first_ok = !self.c.is_paused()
            && inputs.first().map_or(false, |i| self.c.check_batch_request(*seller, i).is_ok());
        assert!(self.c.admin.is_some() || !first_ok, "counter initialized");
        let (ids, o) = self.c.batch_create_escrow(*seller, inputs, self.now)?;
        self.apply(Ok(o))?;
        Ok(ids)
    }

    fn try_fund_escrow(&mut self, id: &u64, buyer: &Address) -> Result<(), ContractError> {
        let completes = match self.c.get_escrow(*id) {
            Ok(e) => self.c.funding_completes(*id, *buyer, e.amount - e.funded_amount),
            Err(_) => false,
        };
        assert!(!completes || self.now <= u64::MAX - DISPUTE_WINDOW, "attempt to add with overflow");
        let r = self.c.fund_escrow(*id, *buyer, self.now);
        self.apply(r)
    }

    fn fund_escrow(&mut self, id: &u64, buyer: &Address) {
        self.try_fund_escrow(id, buyer).unwrap()
    }

    fn try_fund_escrow_tranche(&mut self, id: &u64, buyer: &Address, amount: &i128) -> Result<(), ContractError> {
        let completes = self.c.funding_completes(*id, *buyer, *amount);
        assert!(!completes || self.now <= u64::MAX - DISPUTE_WINDOW, "attempt to add with overflow");
        let r = self.c.fund_escrow_tranche(*id, *buyer, *amount, self.now);
        self.apply(r)
    }

    fn try_raise_dispute(&mut self, caller: &Address, id: &u64, reason: &str, description: &str, hash: &Hash32) -> Result<(), ContractError> {
        let r = self.c.raise_dispute(*caller, *id, reason.to_string(), description.to_string(), *hash, self.now);
        self.apply(r)
    }

    fn raise_dispute(&mut self, caller: &Address, id: &u64, reason: &str, description: &str, hash: &Hash32) {
        self.try_raise_dispute(caller, id, reason, description, hash).unwrap()
    }

    fn try_cancel_escrow(&mut self, caller: &Address, id: &u64) -> Result<(), ContractError> {
        let r = self.c.cancel_escrow(*caller, *id, self.now);
        self.apply(r)
    }

    fn cancel_escrow(&mut self, caller: &Address, id: &u64) {
        self.try_cancel_escrow(caller, id).unwrap()
    }

    fn try_mutual_cancel(&mut self, id: &u64) -> Result<(), ContractError> {
        let r = self.c.mutual_cancel(*id, self.now);
        self.apply(r)
    }

    fn try_mark_shipped(&mut self, caller: &Address, id: &u64, tracking_id: &str) -> Result<(), ContractError> {
        let r = self.c.mark_shipped(*caller, *id, tracking_id.to_string(), self.now);
        self.apply(r)
    }

    fn mark_shipped(&mut self, caller: &Address, id: &u64, tracking_id: &str) {
        self.try_mark_shipped(caller, id, tracking_id).unwrap()
    }

    fn try_record_delivery(&mut self, caller: &Address, id: &u64) -> Result<(), ContractError> {
        let r = self.c.record_delivery(*caller, *id, self.now);
        self.apply(r)
    }

    fn try_confirm_delivery(&mut self, caller: &Address, id: &u64) -> Result<(), ContractError> {
        let r = self.c.confirm_delivery(*caller, *id, self.now);
        self.apply(r)
    }

    fn confirm_delivery(&mut self, caller: &Address, id: &u64) {
        self.try_confirm_delivery(caller, id).unwrap()
    }

    fn try_release_milestone(&mut self, caller: &Address, id: &u64, index: &u32) -> Result<(), ContractError> {
        let r = self.c.release_milestone(*caller, *id, *index, self.now);
        self.apply(r)
    }

    fn try_resolve_dispute(&mut self, caller: &Address, id: &u64, resolution: &ResolutionType) -> Result<(), ContractError> {
        let r = self.c.resolve_dispute(*caller, *id, *resolution, self.now);
        self.apply(r)
    }

    fn resolve_dispute(&mut self, caller: &Address, id: &u64, resolution: &ResolutionType) {
        self.try_resolve_dispute(caller, id, resolution).unwrap()
    }

    fn try_auto_release(&mut self, id: &u64) -> Result<(), ContractError> {
        let r = self.c.auto_release(*id, self.now);
        self.apply(r)
    }

    fn auto_release(&mut self, id: &u64) {
        self.try_auto_release(id).unwrap()
    }

    fn try_rotate_resolver(&mut self, caller: &Address, id: &u64, new_resolver: &Address) -> Result<(), ContractError> {
        let r = self.c.rotate_resolver(*caller, *id, *new_resolver, self.now);
        self.apply(r)
    }

    fn try_request_refund(&mut self, caller: &Address, id: &u64) -> Result<(), ContractError> {
        let r = self.c.request_refund(*caller, *id, self.now);
        self.apply(r)
    }

    fn try_approve_refund(&mut self, caller: &Address, id: &u64) -> Result<(), ContractError> {
        let r = self.c.approve_refund(*caller, *id, self.now);
        self.apply(r)
    }

    fn try_get_escrow(&self, id: &u64) -> Result<EscrowData, ContractError> {
        self.c.get_escrow(*id)
    }

    fn get_escrow(&self, id: &u64) -> EscrowData {
        self.try_get_escrow(id).unwrap()
    }

    fn get_dispute(&self, id: &u64) -> Option<DisputeData> {
        self.c.get_dispute(*id)
    }
    fn try_pause_action(&mut self, caller: &Address, action: &str) -> Result<(), ContractError> {
        self.c.pause_action(*caller, action.to_string())
    }

    fn pause_action(&mut self, caller: &Address, action: &str) {
        self.try_pause_action(caller, action).unwrap()
    }

    fn try_unpause_action(&mut self, caller: &Address, action: &str) -> Result<(), ContractError> {
        self.c.unpause_action(*caller, action.to_string())
    }

    fn try_upgrade(&mut self, caller: &Address, hash: &Hash32) -> Result<(), ContractError> {
        let r = self.c.upgrade(*caller, *hash, self.now);
        self.apply(r)
    }

    fn try_set_ttl_extension(&mut self, caller: &Address, ledgers: &u32) -> Result<(), ContractError> {
        self.c.set_ttl_extension(*caller, *ledgers)
    }

    fn request_refund(&mut self, caller: &Address, id: &u64) {
        self.try_request_refund(caller, id).unwrap()
    }

    fn try_get_contract_config(&self) -> Result<ContractConfig, ContractError> {
        self.c.get_contract_config()
    }

    fn get_fee_config(&self) -> FeeConfig {
        self.c.get_fee_config()
    }

    fn get_stats(&self) -> ContractStats {
        self.c.get_stats()
    }

    fn get_public_config(&self) -> PublicContractConfig {
        self.c.get_public_config()
    }

    fn get_escrows_by_vendor(&self, vendor: &Address) -> Vec<u64> {
        self.c.get_escrows_by_vendor(*vendor)
    }

    fn get_escrows_by_buyer(&self, buyer: &Address) -> Vec<u64> {
        self.c.get_escrows_by_buyer(*buyer)
    }

    fn get_messages(&self, id: &u64, start: &u64, limit: &u64) -> Vec<Message> {
        self.c.get_messages(*id, *start, *limit)
    }

    fn try_post_message(&mut self, id: &u64, sender: &Address, content: &str) -> Result<(), ContractError> {
        let r = self.c.post_message(*id, *sender, content.to_string(), self.now);
        self.apply(r)
    }

    fn get_accumulated_fees(&self, token: &Address) -> i128 {
        self.c.get_accumulated_fees(*token)
    }

    fn get_total_arbitration_fees(&self, token: &Address) -> i128 {
        self.c.get_total_arbitration_fees(*token)
    }

    fn get_arbitration_fee(&self) -> u32 {
        self.c.get_arbitration_fee()
    }

    fn try_set_fee_collector(&mut self, new_collector: &Address) -> Result<(), ContractError> {
        let r = self.c.set_fee_collector(*new_collector);
        self.apply(r)
    }
}
use escrow::contract::MIN_ESCROW_AMOUNT;

fn setup_parties(client: &mut Host) -> (Address, Address, Address, Address, Address, Address) {
    let admin = client.generate();
    let seller = client.generate();
    let buyer = client.generate();
    let resolver = client.generate();
    let fee_collector = client.generate();
    let token = client.register_token();
    (admin, seller, buyer, resolver, fee_collector, token)
}

fn create_simple(client: &mut Host, seller: &Address, resolver: &Address, token: &Address, amount: i128, fee_bps: u32, window: u64) -> u64 {
    let payees = client.single_payee(seller);
    client.create_escrow(&payees, &None::<Address>, resolver, token, &amount, &fee_bps, &0_u32, &window)
}

#[test]
fn test_fee_rounds_to_zero_on_one_stroop_confirm_delivery() {
    let mut client = Host::new();
    let (admin, seller, buyer, resolver, fee_collector, token) = setup_parties(&mut client);
    client.initialize(&admin, &fee_collector, &0_u32);
    client.set_protocol_fee(&admin, &300_u32);
    client.mint(&token, &buyer, 1);
    let id = create_simple(&mut client, &seller, &resolver, &token, 1, 300, 3600);
    client.fund_escrow(&id, &buyer);
    client.mark_shipped(&seller, &id, "TRACK-ONE");
    let escrow = client.get_escrow(&id);
    client.set_timestamp(escrow.dispute_deadline + 1);
    client.confirm_delivery(&buyer, &id);
    assert_eq!(client.balance(&token, &seller), 1);
    assert_eq!(client.balance(&token, &fee_collector), 0);
    assert_eq!(client.balance(&token, &client.vault()), 0);
}

#[test]
fn test_fee_rounds_to_zero_on_one_stroop_auto_release() {
    let mut client = Host::new();
    let (admin, seller, buyer, resolver, fee_collector, token) = setup_parties(&mut client);
    client.initialize(&admin, &fee_collector, &0_u32);
    client.mint(&token, &buyer, 1);
    let id = create_simple(&mut client, &seller, &resolver, &token, 1, 300, 3600);
    client.fund_escrow(&id, &buyer);
    client.mark_shipped(&seller, &id, "TRACK-FEE-AUTO");
    client.set_timestamp(1_700_000_000);
    client.try_record_delivery(&admin, &id).unwrap();
    let escrow = client.get_escrow(&id);
    client.set_timestamp(escrow.delivered_at.unwrap() + 172_801);
    client.auto_release(&id);
    assert_eq!(client.balance(&token, &seller), 1);
    assert_eq!(client.balance(&token, &client.vault()), 0);
}

#[test]
fn test_fee_rounds_to_zero_on_one_stroop_resolve_dispute_release() {
    let mut client = Host::new();
    let (admin, seller, buyer, resolver, fee_collector, token) = setup_parties(&mut client);
    client.initialize(&admin, &fee_collector, &0_u32);
    client.mint(&token, &buyer, 1);
    let id = create_simple(&mut client, &seller, &resolver, &token, 1, 300, 3600);
    client.fund_escrow(&id, &buyer);
    client.mark_shipped(&seller, &id, "TRACK-FEE-REL");
    client.raise_dispute(&buyer, &id, "fraud", "desc", &Hash32 { hi: 0, lo: 0 });
    client.resolve_dispute(&resolver, &id, &ResolutionType::Release);
    assert_eq!(client.balance(&token, &seller), 1);
    assert_eq!(client.balance(&token, &client.vault()), 0);
}

#[test]
fn test_fee_rounds_to_zero_on_one_stroop_resolve_dispute_refund() {
    let mut client = Host::new();
    let (admin, seller, buyer, resolver, fee_collector, token) = setup_parties(&mut client);
    client.initialize(&admin, &fee_collector, &0_u32);
    client.mint(&token, &buyer, 1);
    let id = create_simple(&mut client, &seller, &resolver, &token, 1, 300, 3600);
    client.fund_escrow(&id, &buyer);
    client.mark_shipped(&seller, &id, "TRACK-FEE-REF");
    client.raise_dispute(&buyer, &id, "fraud", "desc", &Hash32 { hi: 0, lo: 0 });
    client.resolve_dispute(&resolver, &id, &ResolutionType::Refund);
    assert_eq!(client.balance(&token, &buyer), 1);
    assert_eq!(client.balance(&token, &client.vault()), 0);
}

#[test]
fn test_create_escrow_zero_amount_fails() {
    let mut client = Host::new();
    let (admin, seller, _buyer, resolver, fee_collector, token) = setup_parties(&mut client);
    client.initialize(&admin, &fee_collector, &0_u32);
    let payees = client.single_payee(&seller);
    let result = client.try_create_escrow(&payees, &None::<Address>, &resolver, &token, &0_i128, &0_u32, &0_u32, &3600_u64);
    assert_eq!(result, Err(ContractError::InvalidAmount));
}

#[test]
fn test_create_escrow_below_minimum_fails() {
    let mut client = Host::new();
    let (admin, seller, _buyer, resolver, fee_collector, token) = setup_parties(&mut client);
    client.initialize(&admin, &fee_collector, &0_u32);
    let below_minimum = MIN_ESCROW_AMOUNT - 1;
    let payees = client.single_payee(&seller);
    let result = client.try_create_escrow(&payees, &None::<Address>, &resolver, &token, &below_minimum, &0_u32, &0_u32, &3600_u64);
    assert_eq!(result, Err(ContractError::InvalidAmount));
}

#[test]
fn test_create_escrow_at_minimum_succeeds() {
    let mut client = Host::new();
    let (admin, seller, buyer, resolver, fee_collector, token) = setup_parties(&mut client);
    client.initialize(&admin, &fee_collector, &0_u32);
    client.mint(&token, &buyer, MIN_ESCROW_AMOUNT);
    let payees = client.single_payee(&seller);
    let result = client.try_create_escrow(&payees, &None::<Address>, &resolver, &token, &MIN_ESCROW_AMOUNT, &0_u32, &0_u32, &3600_u64);
    assert!(matches!(result, Ok(_)));
}

#[test]
fn test_create_escrow_above_minimum_succeeds() {
    let mut client = Host::new();
    let (admin, seller, buyer, resolver, fee_collector, token) = setup_parties(&mut client);
    client.initialize(&admin, &fee_collector, &0_u32);
    let above_minimum = MIN_ESCROW_AMOUNT + 500_000;
    client.mint(&token, &buyer, above_minimum);
    let payees = client.single_payee(&seller);
    let result = client.try_create_escrow(&payees, &None::<Address>, &resolver, &token, &above_minimum, &0_u32, &0_u32, &3600_u64);
    assert!(matches!(result, Ok(_)));
}

#[test]
fn test_mutual_cancel_refunds_buyer_and_sets_canceled() {
    let (mut client, _admin, _fee_collector) = Host::setup();
    let token = client.register_token();
    let seller = client.generate();
    let buyer = client.generate();
    let resolver = client.generate();
    client.mint(&token, &buyer, 1000);
    let id = create_simple(&mut client, &seller, &resolver, &token, 1000, 0, 3600);
    client.fund_escrow(&id, &buyer);
    assert_eq!(client.balance(&token, &buyer), 0);
    client.try_mutual_cancel(&id).unwrap();
    assert_eq!(client.balance(&token, &buyer), 1000);
    assert_eq!(client.get_escrow(&id).state, EscrowState::Canceled);
}

#[test]
fn test_mutual_cancel_rejected_after_shipping() {
    let (mut client, _admin, _fee_collector) = Host::setup();
    let token = client.register_token();
    let seller = client.generate();
    let buyer = client.generate();
    let resolver = client.generate();
    client.mint(&token, &buyer, 1000);
    let id = create_simple(&mut client, &seller, &resolver, &token, 1000, 0, 3600);
    client.fund_escrow(&id, &buyer);
    client.mark_shipped(&seller, &id, "TRACK-001");
    let res = client.try_mutual_cancel(&id);
    assert!(matches!(res, Err(ContractError::InvalidState)));
    assert_eq!(client.get_escrow(&id).state, EscrowState::Shipped);
}
