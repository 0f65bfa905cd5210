use vstd::prelude::*;
use crate::contract::{
    ContractModel, EscrowContract, MAX_ARBITRATION_FEE_BPS, MAX_COMBINED_FEE_BPS, MAX_ESCROW_FEE_BPS,
    MAX_PROTOCOL_FEE_BPS,
};
use crate::errors::ContractError;
use crate::events::{
    AdminRotated, ArbitrationFeeUpdated, ContractEvent, ContractInitialized, ContractPausedEvent,
    ContractUnpausedEvent, ContractUpgradedEvent, FeeCollectorUpdated, FeeUpdated, FeesWithdrawn, Outcome,
    ProtocolFeeUpdated, Transfer,
};
use crate::types::{Address, ContractConfig, ContractStats, FeeConfig, Hash32, PublicContractConfig, zero_address};
use crate::contract::CONTRACT_VERSION;

verus! {

/// `NotAuthorized` unless `caller` is the admin.
pub open spec fn admin_gate(m: ContractModel, caller: Address) -> Option<ContractError> {
    if m.admin == Some(caller) {
        None
    } else {
        Some(ContractError::NotAuthorized)
    }
}

/// Why `initialize` is refused, if it is.
pub open spec fn initialize_error(m: ContractModel, admin: Address, fee_collector: Address, arbitration_fee_bps: u32) -> Option<ContractError> {
    if m.initialized() {
        Some(ContractError::AlreadyInitialized)
    } else if admin == fee_collector {
        Some(ContractError::InvalidAddress)
    } else if arbitration_fee_bps > MAX_ARBITRATION_FEE_BPS {
        Some(ContractError::FeeExceedsMax)
    } else if admin == zero_address() || fee_collector == zero_address() {
        Some(ContractError::InvalidAddress)
    } else {
        None
    }
}

/// Why a combined protocol and arbitration fee is refused, if it is.
pub open spec fn combined_fee_error(protocol_fee_bps: u32, arbitration_fee_bps: u32) -> Option<ContractError> {
    if protocol_fee_bps + arbitration_fee_bps > u32::MAX {
        Some(ContractError::ArithmeticError)
    } else if protocol_fee_bps + arbitration_fee_bps > MAX_COMBINED_FEE_BPS {
        Some(ContractError::FeeExceedsMax)
    } else {
        None
    }
}

/// Why a new protocol fee is refused, if it is; `cap` is the cap of the entry point.
pub open spec fn protocol_fee_error(m: ContractModel, caller: Address, fee_bps: u32, cap: u32) -> Option<ContractError> {
    if admin_gate(m, caller) is Some {
        admin_gate(m, caller)
    } else if fee_bps > cap {
        Some(ContractError::FeeExceedsMax)
    } else {
        combined_fee_error(fee_bps, m.fees().arbitration_fee_bps)
    }
}

/// Why a new arbitration fee is refused, if it is.
pub open spec fn arbitration_fee_error(m: ContractModel, caller: Address, fee_bps: u32) -> Option<ContractError> {
    if admin_gate(m, caller) is Some {
        admin_gate(m, caller)
    } else if fee_bps > MAX_ARBITRATION_FEE_BPS {
        Some(ContractError::FeeExceedsMax)
    } else {
        combined_fee_error(m.fees().protocol_fee_bps, fee_bps)
    }
}

/// Why a fee withdrawal is refused, if it is.
pub open spec fn withdraw_fees_error(m: ContractModel, caller: Address, token: Address, amount: i128) -> Option<ContractError> {
    if m.paused {
        Some(ContractError::ContractPaused)
    } else if admin_gate(m, caller) is Some {
        admin_gate(m, caller)
    } else if amount <= 0 {
        Some(ContractError::InvalidAmount)
    } else if amount > m.accumulated(token) {
        Some(ContractError::InsufficientBalance)
    } else {
        None
    }
}

/// Why new amount limits are refused, if they are.
pub open spec fn amount_limits_error(m: ContractModel, caller: Address, min_amount: i128, max_amount: i128) -> Option<ContractError> {
    if admin_gate(m, caller) is Some {
        admin_gate(m, caller)
    } else if min_amount <= 0 || max_amount < min_amount {
        Some(ContractError::InvalidAmount)
    } else {
        None
    }
}

/// An outcome that publishes one event and nothing else.
pub open spec fn only_event(o: Outcome, e: ContractEvent) -> bool {
    &&& o.authorizers@.len() == 0
    &&& o.transfers@.len() == 0
    &&& o.events@ == seq![e]
}

impl EscrowContract {
    /// The admin, or `NotAuthorized` unless `caller` is the admin.
    pub fn require_admin_caller(&self, caller: &Address) -> (r: Result<Address, ContractError>)
        ensures
            match r {
                Ok(a) => admin_gate(self@, *caller) is None && a == *caller,
                Err(e) => admin_gate(self@, *caller) == Some(e),
            },
    {
        match self.admin {
            Some(a) => if a == *caller {
                Ok(a)
            } else {
                Err(ContractError::NotAuthorized)
            },
            None => Err(ContractError::NotAuthorized),
        }
    }

    /// The fee configuration, with both fees 0 when none is stored.
    pub fn read_fee_config(&self) -> (c: FeeConfig)
        ensures
            c == self@.fees(),
    {
        match self.fee_config {
            Some(c) => c,
            None => FeeConfig { protocol_fee_bps: 0, arbitration_fee_bps: 0 },
        }
    }

    /// Sets the admin, the fee collector and the arbitration fee. Must be
    /// called once; a refused call stores nothing and leaves the contract
    /// uninitialized. The admin and the fee collector must be distinct and
    /// neither may be the zero address.
    pub fn initialize(&mut self, admin: Address, fee_collector: Address, arbitration_fee_bps: u32, now: u64) -> (r: Result<Outcome, ContractError>)
        requires
            old(self)@.inv(),
        ensures
            final(self)@.inv(),
            match r {
                Err(e) => initialize_error(old(self)@, admin, fee_collector, arbitration_fee_bps) == Some(e)
                    && final(self)@ == old(self)@,
                Ok(o) => initialize_error(old(self)@, admin, fee_collector, arbitration_fee_bps) is None
                    && final(self)@ == (ContractModel {
                        admin: Some(admin),
                        fee_collector: Some(fee_collector),
                        fee_config: Some(FeeConfig { protocol_fee_bps: 0, arbitration_fee_bps }),
                        escrow_counter: Some(1),
                        paused: false,
                        ..old(self)@
                    })
                    && only_event(o, ContractEvent::ContractInitialized(ContractInitialized {
                        admin, fee_collector, arbitration_fee_bps, timestamp: now,
                    })),
            },
    {
        if self.admin.is_some() {
            return Err(ContractError::AlreadyInitialized);
        }
        if admin == fee_collector {
            return Err(ContractError::InvalidAddress);
        }
        if arbitration_fee_bps > MAX_ARBITRATION_FEE_BPS {
            return Err(ContractError::FeeExceedsMax);
        }
        if admin.is_zero() || fee_collector.is_zero() {
            return Err(ContractError::InvalidAddress);
        }
        self.admin = Some(admin);
        self.fee_collector = Some(fee_collector);
        self.fee_config = Some(FeeConfig { protocol_fee_bps: 0, arbitration_fee_bps });
        self.escrow_counter = Some(1);
        self.paused = false;
        Ok(Outcome::event(ContractEvent::ContractInitialized(ContractInitialized {
            admin, fee_collector, arbitration_fee_bps, timestamp: now,
        })))
    }

    /// Pauses the contract: a circuit breaker for state-changing operations.
    /// Only the admin may call it.
    pub fn pause_contract(&mut self, caller: Address, now: u64) -> (r: Result<Outcome, ContractError>)
        requires
            old(self)@.inv(),
        ensures
            final(self)@.inv(),
            match r {
                Err(e) => admin_gate(old(self)@, caller) == Some(e) && final(self)@ == old(self)@,
                Ok(o) => admin_gate(old(self)@, caller) is None
                    && final(self)@ == (ContractModel { paused: true, ..old(self)@ })
                    && only_event(o, ContractEvent::ContractPaused(ContractPausedEvent { admin: caller, timestamp: now })),
            },
    {
        let admin = self.require_admin_caller(&caller)?;
        self.paused = true;
        Ok(Outcome::event(ContractEvent::ContractPaused(ContractPausedEvent { admin, timestamp: now })))
    }

    /// Lifts the pause. Only the admin may call it.
    pub fn unpause_contract(&mut self, caller: Address, now: u64) -> (r: Result<Outcome, ContractError>)
        requires
            old(self)@.inv(),
        ensures
            final(self)@.inv(),
            match r {
                Err(e) => admin_gate(old(self)@, caller) == Some(e) && final(self)@ == old(self)@,
                Ok(o) => admin_gate(old(self)@, caller) is None
                    && final(self)@ == (ContractModel { paused: false, ..old(self)@ })
                    && only_event(o, ContractEvent::ContractUnpaused(ContractUnpausedEvent { admin: caller, timestamp: now })),
            },
    {
        let admin = self.require_admin_caller(&caller)?;
        self.paused = false;
        Ok(Outcome::event(ContractEvent::ContractUnpaused(ContractUnpausedEvent { admin, timestamp: now })))
    }

    /// Whether the contract is paused.
    pub fn is_paused(&self) -> (b: bool)
        ensures
            b == self@.paused,
    {
        self.paused
    }

    /// Position of a paused action in the list of paused actions, if any.
    fn paused_action_position(&self, action: &String) -> (r: Option<usize>)
        ensures
            match r {
                Some(i) => i < self.paused_actions@.len() && self.paused_actions@[i as int]@ == action@,
                None => forall|j: int| 0 <= j < self.paused_actions@.len() ==> #[trigger] self.paused_actions@[j]@ != action@,
            },
    {
        let mut i: usize = 0;
        while i < self.paused_actions.len()
            invariant
                i <= self.paused_actions@.len(),
                forall|j: int| 0 <= j < i ==> #[trigger] self.paused_actions@[j]@ != action@,
            decreases self.paused_actions.len() - i,
        {
            if self.paused_actions[i] == *action {
                return Some(i);
            }
            i = i + 1;
        }
        None
    }

    /// Whether the named action is paused on its own.
    pub fn is_action_paused(&self, action: &String) -> (b: bool)
        ensures
            b == self@.action_paused(action@),
    {
        let r = self.paused_action_position(action);
        proof {
            if let Some(i) = r {
                assert(self@.paused_actions.contains(action@));
            }
        }
        r.is_some()
    }

    /// Pauses one named action. Only the admin may call it.
    pub fn pause_action(&mut self, caller: Address, action: String) -> (r: Result<(), ContractError>)
        requires
            old(self)@.inv(),
        ensures
            final(self)@.inv(),
            match r {
                Err(e) => admin_gate(old(self)@, caller) == Some(e) && final(self)@ == old(self)@,
                Ok(_) => admin_gate(old(self)@, caller) is None
                    && final(self)@ == (ContractModel { paused_actions: old(self)@.paused_actions.insert(action@), ..old(self)@ }),
            },
    {
        self.require_admin_caller(&caller)?;
        let ghost before = self@;
        match self.paused_action_position(&action) {
            Some(_) => {
                assert(before.paused_actions.insert(action@) =~= before.paused_actions);
            },
            None => {
                let ghost old_list = self.paused_actions@;
                self.paused_actions.push(action);
                assert forall|a: Seq<char>| #[trigger] self@.paused_actions.contains(a) <==> before.paused_actions.insert(action@).contains(a) by {
                    if a != action@ && self@.paused_actions.contains(a) {
                        let j = choose|j: int| 0 <= j < self.paused_actions@.len() && #[trigger] self.paused_actions@[j]@ == a;
                        assert(old_list[j]@ == a);
                    }
                    if before.paused_actions.contains(a) {
                        let j = choose|j: int| 0 <= j < old_list.len() && #[trigger] old_list[j]@ == a;
                        assert(self.paused_actions@[j]@ == a);
                    }
                    if a == action@ {
                        assert(self.paused_actions@[old_list.len() as int]@ == a);
                    }
                }
                assert(self@.paused_actions =~= before.paused_actions.insert(action@));
            },
        }
        assert(self@ =~= (ContractModel { paused_actions: before.paused_actions.insert(action@), ..before }));
        Ok(())
    }

    /// Lifts the pause of one named action. Only the admin may call it.
    pub fn unpause_action(&mut self, caller: Address, action: String) -> (r: Result<(), ContractError>)
        requires
            old(self)@.inv(),
        ensures
            final(self)@.inv(),
            match r {
                Err(e) => admin_gate(old(self)@, caller) == Some(e) && final(self)@ == old(self)@,
                Ok(_) => admin_gate(old(self)@, caller) is None
                    && final(self)@ == (ContractModel { paused_actions: old(self)@.paused_actions.remove(action@), ..old(self)@ }),
            },
    {
        self.require_admin_caller(&caller)?;
        let ghost before = self@;
        let ghost old_list = self.paused_actions@;
        let mut kept: Vec<String> = Vec::new();
        let mut i: usize = 0;
        while i < self.paused_actions.len()
            invariant
                i <= self.paused_actions@.len(),
                self.paused_actions@ == old_list,
                forall|j: int| 0 <= j < kept@.len() ==> #[trigger] kept@[j]@ != action@,
                forall|j: int| #![trigger kept@[j]] 0 <= j < kept@.len() ==> exists|k: int| 0 <= k < i && #[trigger] old_list[k]@ == kept@[j]@,
                forall|k: int| #![trigger old_list[k]] 0 <= k < i && old_list[k]@ != action@ ==> exists|j: int| 0 <= j < kept@.len() && #[trigger] kept@[j]@ == old_list[k]@,
            decreases self.paused_actions.len() - i,
        {
            let ghost kept_before = kept@;
            if self.paused_actions[i] != action {
                let s = self.paused_actions[i].clone();
                kept.push(s);
                assert(kept@[kept@.len() - 1]@ == old_list[i as int]@);
            }
            proof {
                assert forall|k: int| #![trigger old_list[k]] 0 <= k < i + 1 && old_list[k]@ != action@ implies exists|j: int| 0 <= j < kept@.len() && #[trigger] kept@[j]@ == old_list[k]@ by {
                    if k < i {
                        let j = choose|j: int| 0 <= j < kept_before.len() && #[trigger] kept_before[j]@ == old_list[k]@;
                        assert(kept@[j] == kept_before[j]);
                    } else {
                        assert(kept@[kept@.len() - 1]@ == old_list[k]@);
                    }
                }
                assert forall|j: int| #![trigger kept@[j]] 0 <= j < kept@.len() implies exists|k: int| 0 <= k < i + 1 && #[trigger] old_list[k]@ == kept@[j]@ by {
                    if j < kept_before.len() {
                        assert(kept@[j] == kept_before[j]);
                        let k = choose|k: int| 0 <= k < i && #[trigger] old_list[k]@ == kept_before[j]@;
                        assert(old_list[k]@ == kept@[j]@);
                    } else {
                        assert(old_list[i as int]@ == kept@[j]@);
                    }
                }
            }
            i = i + 1;
        }
        self.paused_actions = kept;
        assert forall|a: Seq<char>| #[trigger] self@.paused_actions.contains(a) <==> before.paused_actions.remove(action@).contains(a) by {
            if self@.paused_actions.contains(a) {
                let j = choose|j: int| 0 <= j < self.paused_actions@.len() && #[trigger] self.paused_actions@[j]@ == a;
                assert(self.paused_actions@[j]@ == a);
                let k = choose|k: int| 0 <= k < old_list.len() && #[trigger] old_list[k]@ == self.paused_actions@[j]@;
                assert(before.paused_actions.contains(a));
            }
            if before.paused_actions.remove(action@).contains(a) {
                let k = choose|k: int| 0 <= k < old_list.len() && #[trigger] old_list[k]@ == a;
                let j = choose|j: int| 0 <= j < self.paused_actions@.len() && #[trigger] self.paused_actions@[j]@ == old_list[k]@;
                assert(self@.paused_actions.contains(a));
            }
        }
        assert(self@.paused_actions =~= before.paused_actions.remove(action@));
        assert(self@ =~= (ContractModel { paused_actions: before.paused_actions.remove(action@), ..before }));
        Ok(())
    }
}

/// The number of escrows created, as reported by the configuration queries.
pub open spec fn escrow_count(m: ContractModel) -> u64 {
    match m.escrow_counter {
        Some(c) => if c == 0 { 0 } else { (c - 1) as u64 },
        None => 0,
    }
}

impl EscrowContract {
    /// Hands the admin role to `new_admin`. The current admin must authorize
    /// the call (returned in the outcome); rotating to the same address is
    /// refused with `SameAddress`.
    pub fn set_admin(&mut self, new_admin: Address, now: u64) -> (r: Result<Outcome, ContractError>)
        requires
            old(self)@.inv(),
        ensures
            final(self)@.inv(),
            match r {
                Err(e) => final(self)@ == old(self)@ && Some(e) == (if old(self)@.admin is None {
                    Some(ContractError::NotAuthorized)
                } else if old(self)@.admin == Some(new_admin) {
                    Some(ContractError::SameAddress)
                } else {
                    None::<ContractError>
                }),
                Ok(o) => old(self)@.admin matches Some(old_admin) && old_admin != new_admin
                    && final(self)@ == (ContractModel { admin: Some(new_admin), ..old(self)@ })
                    && o.authorizers@ == seq![old_admin]
                    && o.transfers@.len() == 0
                    && o.events@ == seq![ContractEvent::AdminRotated(AdminRotated { old_admin, new_admin, timestamp: now })],
            },
    {
        let old_admin = match self.admin {
            Some(a) => a,
            None => return Err(ContractError::NotAuthorized),
        };
        if new_admin == old_admin {
            return Err(ContractError::SameAddress);
        }
        self.admin = Some(new_admin);
        let mut o = Outcome::event(ContractEvent::AdminRotated(AdminRotated { old_admin, new_admin, timestamp: now }));
        o.authorizers.push(old_admin);
        Ok(o)
    }

    /// Approves an upgrade of the contract code to `new_wasm_hash`. Only the
    /// admin may call it; the host performs the upgrade on success.
    pub fn upgrade(&self, caller: Address, new_wasm_hash: Hash32, now: u64) -> (r: Result<Outcome, ContractError>)
        ensures
            match r {
                Err(e) => admin_gate(self@, caller) == Some(e),
                Ok(o) => admin_gate(self@, caller) is None
                    && only_event(o, ContractEvent::ContractUpgraded(ContractUpgradedEvent { admin: caller, new_wasm_hash, timestamp: now })),
            },
    {
        let admin = self.require_admin_caller(&caller)?;
        Ok(Outcome::event(ContractEvent::ContractUpgraded(ContractUpgradedEvent { admin, new_wasm_hash, timestamp: now })))
    }

    /// Checks that protocol plus arbitration fee stays within the combined cap.
    fn validate_combined_fees(protocol_fee_bps: u32, arbitration_fee_bps: u32) -> (r: Result<(), ContractError>)
        ensures
            match r {
                Ok(_) => combined_fee_error(protocol_fee_bps, arbitration_fee_bps) is None,
                Err(e) => combined_fee_error(protocol_fee_bps, arbitration_fee_bps) == Some(e),
            },
    {
        let combined = match protocol_fee_bps.checked_add(arbitration_fee_bps) {
            Some(c) => c,
            None => return Err(ContractError::ArithmeticError),
        };
        if combined > MAX_COMBINED_FEE_BPS {
            return Err(ContractError::FeeExceedsMax);
        }
        Ok(())
    }

    /// Sets the protocol fee under the `cap` of the calling entry point and
    /// returns the previous fee.
    fn update_protocol_fee(&mut self, caller: Address, fee_bps: u32, cap: u32) -> (r: Result<u32, ContractError>)
        requires
            old(self)@.inv(),
            cap <= MAX_PROTOCOL_FEE_BPS,
        ensures
            final(self)@.inv(),
            match r {
                Err(e) => protocol_fee_error(old(self)@, caller, fee_bps, cap) == Some(e) && final(self)@ == old(self)@,
                Ok(previous) => protocol_fee_error(old(self)@, caller, fee_bps, cap) is None
                    && previous == old(self)@.fees().protocol_fee_bps
                    && final(self)@ == (ContractModel {
                        fee_config: Some(FeeConfig { protocol_fee_bps: fee_bps, ..old(self)@.fees() }),
                        ..old(self)@
                    }),
            },
    {
        self.require_admin_caller(&caller)?;
        if fee_bps > cap {
            return Err(ContractError::FeeExceedsMax);
        }
        let mut config = self.read_fee_config();
        Self::validate_combined_fees(fee_bps, config.arbitration_fee_bps)?;
        let previous = config.protocol_fee_bps;
        config.protocol_fee_bps = fee_bps;
        self.fee_config = Some(config);
        Ok(previous)
    }

    /// Sets the protocol fee, capped at the escrow fee cap (3%) and at the
    /// combined cap together with the arbitration fee. Only the admin may
    /// call it.
    pub fn set_fee(&mut self, caller: Address, fee_bps: u32, now: u64) -> (r: Result<Outcome, ContractError>)
        requires
            old(self)@.inv(),
        ensures
            final(self)@.inv(),
            match r {
                Err(e) => protocol_fee_error(old(self)@, caller, fee_bps, MAX_ESCROW_FEE_BPS) == Some(e)
                    && final(self)@ == old(self)@,
                Ok(o) => protocol_fee_error(old(self)@, caller, fee_bps, MAX_ESCROW_FEE_BPS) is None
                    && final(self)@ == (ContractModel {
                        fee_config: Some(FeeConfig { protocol_fee_bps: fee_bps, ..old(self)@.fees() }),
                        ..old(self)@
                    })
                    && only_event(o, ContractEvent::FeeUpdated(FeeUpdated {
                        old_fee_bps: old(self)@.fees().protocol_fee_bps, new_fee_bps: fee_bps, timestamp: now,
                    })),
            },
    {
        let old_fee_bps = self.update_protocol_fee(caller, fee_bps, MAX_ESCROW_FEE_BPS)?;
        Ok(Outcome::event(ContractEvent::FeeUpdated(FeeUpdated { old_fee_bps, new_fee_bps: fee_bps, timestamp: now })))
    }

    /// Sets the protocol fee, capped at 5% and at the combined cap together
    /// with the arbitration fee. Only the admin may call it.
    pub fn set_protocol_fee(&mut self, caller: Address, fee_bps: u32, now: u64) -> (r: Result<Outcome, ContractError>)
        requires
            old(self)@.inv(),
        ensures
            final(self)@.inv(),
            match r {
                Err(e) => protocol_fee_error(old(self)@, caller, fee_bps, MAX_PROTOCOL_FEE_BPS) == Some(e)
                    && final(self)@ == old(self)@,
                Ok(o) => protocol_fee_error(old(self)@, caller, fee_bps, MAX_PROTOCOL_FEE_BPS) is None
                    && final(self)@ == (ContractModel {
                        fee_config: Some(FeeConfig { protocol_fee_bps: fee_bps, ..old(self)@.fees() }),
                        ..old(self)@
                    })
                    && only_event(o, ContractEvent::ProtocolFeeUpdated(ProtocolFeeUpdated {
                        old_fee_bps: old(self)@.fees().protocol_fee_bps, new_fee_bps: fee_bps, timestamp: now,
                    })),
            },
    {
        let old_fee_bps = self.update_protocol_fee(caller, fee_bps, MAX_PROTOCOL_FEE_BPS)?;
        Ok(Outcome::event(ContractEvent::ProtocolFeeUpdated(ProtocolFeeUpdated { old_fee_bps, new_fee_bps: fee_bps, timestamp: now })))
    }

    /// Sets the arbitration fee, capped at 5% and at the combined cap together
    /// with the protocol fee. Only the admin may call it.
    pub fn set_arbitration_fee(&mut self, caller: Address, fee_bps: u32, now: u64) -> (r: Result<Outcome, ContractError>)
        requires
            old(self)@.inv(),
        ensures
            final(self)@.inv(),
            match r {
                Err(e) => arbitration_fee_error(old(self)@, caller, fee_bps) == Some(e) && final(self)@ == old(self)@,
                Ok(o) => arbitration_fee_error(old(self)@, caller, fee_bps) is None
                    && final(self)@ == (ContractModel {
                        fee_config: Some(FeeConfig { arbitration_fee_bps: fee_bps, ..old(self)@.fees() }),
                        ..old(self)@
                    })
                    && only_event(o, ContractEvent::ArbitrationFeeUpdated(ArbitrationFeeUpdated {
                        old_fee_bps: old(self)@.fees().arbitration_fee_bps, new_fee_bps: fee_bps, timestamp: now,
                    })),
            },
    {
        self.require_admin_caller(&caller)?;
        if fee_bps > MAX_ARBITRATION_FEE_BPS {
            return Err(ContractError::FeeExceedsMax);
        }
        let mut config = self.read_fee_config();
        Self::validate_combined_fees(config.protocol_fee_bps, fee_bps)?;
        let old_fee_bps = config.arbitration_fee_bps;
        config.arbitration_fee_bps = fee_bps;
        self.fee_config = Some(config);
        Ok(Outcome::event(ContractEvent::ArbitrationFeeUpdated(ArbitrationFeeUpdated { old_fee_bps, new_fee_bps: fee_bps, timestamp: now })))
    }

    /// Sets the storage lifetime extension in ledgers. Only the admin may call it.
    pub fn set_ttl_extension(&mut self, caller: Address, ledgers: u32) -> (r: Result<(), ContractError>)
        requires
            old(self)@.inv(),
        ensures
            final(self)@.inv(),
            match r {
                Err(e) => admin_gate(old(self)@, caller) == Some(e) && final(self)@ == old(self)@,
                Ok(_) => admin_gate(old(self)@, caller) is None
                    && final(self)@ == (ContractModel { ttl_extension: Some(ledgers), ..old(self)@ }),
            },
    {
        self.require_admin_caller(&caller)?;
        self.ttl_extension = Some(ledgers);
        Ok(())
    }

    /// The storage lifetime extension in ledgers.
    pub fn ttl_extension(&self) -> (t: u32)
        ensures
            t == self@.ttl(),
    {
        match self.ttl_extension {
            Some(t) => t,
            None => crate::contract::DEFAULT_TTL_EXTENSION,
        }
    }

    /// Fees accumulated in the vault for `token`.
    pub fn get_accumulated_fees(&self, token: Address) -> (a: i128)
        ensures
            a == self@.accumulated(token),
    {
        match self.accumulated_fees.get(&token) {
            Some(v) => *v,
            None => 0,
        }
    }

    /// Arbitration fees collected for `token` over the contract's life.
    pub fn get_total_arbitration_fees(&self, token: Address) -> (a: i128)
        ensures
            a == self@.arbitration_total(token),
    {
        match self.arbitration_totals.get(&token) {
            Some(v) => *v,
            None => 0,
        }
    }

    /// Withdraws accumulated fees for `token` to `to`. Only the admin may call
    /// it, not while paused, and never more than has accumulated from
    /// dispute resolutions, so funds locked in open escrows cannot be drained.
    pub fn withdraw_fees(&mut self, caller: Address, token: Address, to: Address, amount: i128, now: u64) -> (r: Result<Outcome, ContractError>)
        requires
            old(self)@.inv(),
        ensures
            final(self)@.inv(),
            match r {
                Err(e) => withdraw_fees_error(old(self)@, caller, token, amount) == Some(e) && final(self)@ == old(self)@,
                Ok(o) => withdraw_fees_error(old(self)@, caller, token, amount) is None
                    && final(self)@ == (ContractModel {
                        accumulated_fees: old(self)@.accumulated_fees.insert(token, (old(self)@.accumulated(token) - amount) as i128),
                        ..old(self)@
                    })
                    && o.authorizers@.len() == 0
                    && o.transfers@ == seq![Transfer::Payout { token, to, amount }]
                    && o.events@ == seq![ContractEvent::FeesWithdrawn(FeesWithdrawn { token, to, amount, timestamp: now })],
            },
    {
        if self.paused {
            return Err(ContractError::ContractPaused);
        }
        self.require_admin_caller(&caller)?;
        if amount <= 0 {
            return Err(ContractError::InvalidAmount);
        }
        let accumulated = self.get_accumulated_fees(token);
        if amount > accumulated {
            return Err(ContractError::InsufficientBalance);
        }
        let remaining = accumulated - amount;
        self.accumulated_fees.set(token, remaining);
        let mut o = Outcome::event(ContractEvent::FeesWithdrawn(FeesWithdrawn { token, to, amount, timestamp: now }));
        o.transfers.push(Transfer::Payout { token, to, amount });
        Ok(o)
    }

    /// Replaces the fee collector. The admin must authorize the call
    /// (returned in the outcome).
    pub fn set_fee_collector(&mut self, new_collector: Address) -> (r: Result<Outcome, ContractError>)
        requires
            old(self)@.inv(),
        ensures
            final(self)@.inv(),
            match r {
                Err(e) => e == ContractError::NotAuthorized && final(self)@ == old(self)@
                    && (old(self)@.admin is None || old(self)@.fee_collector is None),
                Ok(o) => old(self)@.admin matches Some(admin) && old(self)@.fee_collector matches Some(old_collector)
                    && final(self)@ == (ContractModel { fee_collector: Some(new_collector), ..old(self)@ })
                    && o.authorizers@ == seq![admin]
                    && o.transfers@.len() == 0
                    && o.events@ == seq![ContractEvent::FeeCollectorUpdated(FeeCollectorUpdated { old_collector, new_collector })],
            },
    {
        let admin = match self.admin {
            Some(a) => a,
            None => return Err(ContractError::NotAuthorized),
        };
        let old_collector = match self.fee_collector {
            Some(c) => c,
            None => return Err(ContractError::NotAuthorized),
        };
        self.fee_collector = Some(new_collector);
        let mut o = Outcome::event(ContractEvent::FeeCollectorUpdated(FeeCollectorUpdated { old_collector, new_collector }));
        o.authorizers.push(admin);
        Ok(o)
    }

    /// Sets the minimum and maximum escrow amounts. Only the admin may call
    /// it; the minimum must be positive and not above the maximum.
    pub fn set_amount_limits(&mut self, caller: Address, min_amount: i128, max_amount: i128) -> (r: Result<(), ContractError>)
        requires
            old(self)@.inv(),
        ensures
            final(self)@.inv(),
            match r {
                Err(e) => amount_limits_error(old(self)@, caller, min_amount, max_amount) == Some(e) && final(self)@ == old(self)@,
                Ok(_) => amount_limits_error(old(self)@, caller, min_amount, max_amount) is None
                    && final(self)@ == (ContractModel { min_amount: Some(min_amount), max_amount: Some(max_amount), ..old(self)@ }),
            },
    {
        self.require_admin_caller(&caller)?;
        if min_amount <= 0 || max_amount < min_amount {
            return Err(ContractError::InvalidAmount);
        }
        self.min_amount = Some(min_amount);
        self.max_amount = Some(max_amount);
        Ok(())
    }

    /// The version of the contract.
    pub fn get_version(&self) -> (v: u32)
        ensures
            v == CONTRACT_VERSION,
    {
        CONTRACT_VERSION
    }

    /// The fee configuration.
    pub fn get_fee_config(&self) -> (c: FeeConfig)
        ensures
            c == self@.fees(),
    {
        self.read_fee_config()
    }

    /// The arbitration fee in basis points.
    pub fn get_arbitration_fee(&self) -> (f: u32)
        ensures
            f == self@.fees().arbitration_fee_bps,
    {
        self.read_fee_config().arbitration_fee_bps
    }

    /// The lifecycle counters.
    pub fn get_stats(&self) -> (s: ContractStats)
        ensures
            s == self@.stats,
    {
        self.stats
    }

    /// The number of escrows created so far.
    fn escrow_count(&self) -> (n: u64)
        ensures
            n == escrow_count(self@),
    {
        match self.escrow_counter {
            Some(c) => c.saturating_sub(1),
            None => 0,
        }
    }

    /// The configuration anyone may read: protocol fee, pause flag and the
    /// number of escrows created.
    pub fn get_public_config(&self) -> (c: PublicContractConfig)
        ensures
            c == (PublicContractConfig {
                fee_bps: self@.fees().protocol_fee_bps,
                paused: self@.paused,
                escrow_count: escrow_count(self@),
            }),
    {
        PublicContractConfig {
            fee_bps: self.read_fee_config().protocol_fee_bps,
            paused: self.paused,
            escrow_count: self.escrow_count(),
        }
    }

    /// The full configuration including the privileged addresses. The admin
    /// it reports must authorize the query.
    pub fn get_contract_config(&self) -> (r: Result<ContractConfig, ContractError>)
        ensures
            match r {
                Err(e) => e == ContractError::NotAuthorized && (self@.admin is None || self@.fee_collector is None),
                Ok(c) => self@.admin == Some(c.admin) && self@.fee_collector == Some(c.fee_collector)
                    && c.fee_bps == self@.fees().protocol_fee_bps && c.escrow_count == escrow_count(self@),
            },
    {
        let admin = match self.admin {
            Some(a) => a,
            None => return Err(ContractError::NotAuthorized),
        };
        let fee_collector = match self.fee_collector {
            Some(c) => c,
            None => return Err(ContractError::NotAuthorized),
        };
        Ok(ContractConfig {
            admin,
            fee_bps: self.read_fee_config().protocol_fee_bps,
            fee_collector,
            escrow_count: self.escrow_count(),
        })
    }
}

} // verus!
