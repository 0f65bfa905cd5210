use vstd::prelude::*;
use crate::errors::ContractError;
use crate::events::{ContractEvent, Outcome, Transfer};
use crate::table::AddressTable;
use crate::types::{Address, ContractStats, EscrowState, Milestone, Payee, DisputeData, DisputeView, EscrowData, EscrowView, FeeConfig, Message, MessageView};

verus! {

/// Semantic version of the contract.
pub const CONTRACT_VERSION: u32 = 1;
/// Cap on an escrow's own fee and on its resolver fee (300 bps = 3%).
pub const MAX_ESCROW_FEE_BPS: u32 = 300;
/// Cap on the protocol fee (500 bps = 5%).
pub const MAX_PROTOCOL_FEE_BPS: u32 = 500;
/// Cap on the arbitration fee (500 bps = 5%).
pub const MAX_ARBITRATION_FEE_BPS: u32 = 500;
/// Cap on protocol plus arbitration fee (1000 bps = 10%).
pub const MAX_COMBINED_FEE_BPS: u32 = 1_000;
/// Time the losing party has to appeal a resolution (24 hours).
pub const APPEAL_WINDOW: u64 = 86_400;
/// Default minimum escrow amount in stroops.
pub const MIN_ESCROW_AMOUNT: i128 = 1;
/// Default maximum escrow amount, chosen so fee arithmetic cannot overflow.
pub const MAX_ESCROW_AMOUNT: i128 = 17_014_118_346_046_923_173_168_730_371_588_410;
/// Length of the dispute window after full funding (48 hours).
pub const DISPUTE_WINDOW: u64 = 172_800;
/// Wait after a recorded delivery before funds may be auto-released (48 hours).
pub const DELIVERY_RELEASE_WINDOW: u64 = 172_800;
/// Default storage lifetime extension in ledgers.
pub const DEFAULT_TTL_EXTENSION: u32 = 120_960;
/// Maximum byte length of a tracking id.
pub const MAX_TRACKING_ID_LEN: usize = 64;
/// Maximum byte length of a dispute description.
pub const MAX_DESCRIPTION_LEN: usize = 256;
/// Maximum byte length of escrow notes.
pub const MAX_NOTES_LEN: usize = 500;
/// Maximum number of stages of a milestone escrow.
pub const MAX_MILESTONES: usize = 20;
/// Most messages returned by one page of `get_messages`.
pub const MAX_MESSAGE_PAGE: u64 = 50;

/// The whole state of the escrow contract.
///
/// Escrow ids are handed out from `escrow_counter`, which starts at 1, so the
/// escrow with id `k` is `escrows[k - 1]`; `disputes` and `messages` run
/// alongside `escrows`. Settings stored only once set (`fee_config`,
/// `ttl_extension`, the amount limits) are `None` until then and read with
/// their defaults.
#[derive(Debug)]
pub struct EscrowContract {
    pub admin: Option<Address>,
    pub fee_collector: Option<Address>,
    pub fee_config: Option<FeeConfig>,
    pub escrow_counter: Option<u64>,
    pub paused: bool,
    pub paused_actions: Vec<String>,
    pub ttl_extension: Option<u32>,
    pub min_amount: Option<i128>,
    pub max_amount: Option<i128>,
    pub allowlist_enabled: bool,
    pub allowlist: Vec<Address>,
    pub stats: ContractStats,
    pub escrows: Vec<EscrowData>,
    pub disputes: Vec<Option<DisputeData>>,
    pub messages: Vec<Vec<Message>>,
    pub vendor_index: AddressTable<Vec<u64>>,
    pub buyer_index: AddressTable<Vec<u64>>,
    pub accumulated_fees: AddressTable<i128>,
    pub arbitration_totals: AddressTable<i128>,
}

/// The abstract state of the contract.
#[verifier::ext_equal]
pub struct ContractModel {
    pub admin: Option<Address>,
    pub fee_collector: Option<Address>,
    pub fee_config: Option<FeeConfig>,
    pub escrow_counter: Option<u64>,
    pub paused: bool,
    pub paused_actions: Set<Seq<char>>,
    pub ttl_extension: Option<u32>,
    pub min_amount: Option<i128>,
    pub max_amount: Option<i128>,
    pub allowlist_enabled: bool,
    pub allowlist: Seq<Address>,
    pub stats: ContractStats,
    pub escrows: Seq<EscrowView>,
    pub disputes: Seq<Option<DisputeView>>,
    pub messages: Seq<Seq<MessageView>>,
    pub vendor_index: Map<Address, Seq<u64>>,
    pub buyer_index: Map<Address, Seq<u64>>,
    pub accumulated_fees: Map<Address, i128>,
    pub arbitration_totals: Map<Address, i128>,
}

/// The contents of an optional dispute record.
pub open spec fn opt_dispute(d: Option<DisputeData>) -> Option<DisputeView> {
    match d {
        Some(x) => Some(x@),
        None => None,
    }
}

/// The contents of a message list.
pub open spec fn message_views(v: Vec<Message>) -> Seq<MessageView> {
    v@.map_values(|m: Message| m@)
}

/// The contents of an address-keyed table of id lists.
pub open spec fn index_view(t: AddressTable<Vec<u64>>) -> Map<Address, Seq<u64>> {
    Map::new(|k: Address| t@.contains_key(k), |k: Address| t@[k]@)
}

impl View for EscrowContract {
    type V = ContractModel;

    open spec fn view(&self) -> ContractModel {
        ContractModel {
            admin: self.admin,
            fee_collector: self.fee_collector,
            fee_config: self.fee_config,
            escrow_counter: self.escrow_counter,
            paused: self.paused,
            paused_actions: Set::new(
                |a: Seq<char>|
                    exists|i: int|
                        0 <= i < self.paused_actions@.len() && #[trigger] self.paused_actions@[i]@ == a,
            ),
            ttl_extension: self.ttl_extension,
            min_amount: self.min_amount,
            max_amount: self.max_amount,
            allowlist_enabled: self.allowlist_enabled,
            allowlist: self.allowlist@,
            stats: self.stats,
            escrows: self.escrows@.map_values(|e: EscrowData| e@),
            disputes: self.disputes@.map_values(|d: Option<DisputeData>| opt_dispute(d)),
            messages: self.messages@.map_values(|v: Vec<Message>| message_views(v)),
            vendor_index: index_view(self.vendor_index),
            buyer_index: index_view(self.buyer_index),
            accumulated_fees: self.accumulated_fees@,
            arbitration_totals: self.arbitration_totals@,
        }
    }
}

impl ContractModel {
    /// Whether `initialize` has run.
    pub open spec fn initialized(self) -> bool {
        self.admin.is_some()
    }

    /// The escrow with the given id, if it exists.
    pub open spec fn escrow(self, id: u64) -> Option<EscrowView> {
        if 1 <= id <= self.escrows.len() {
            Some(self.escrows[id - 1])
        } else {
            None
        }
    }

    /// The dispute record of the given escrow, if any.
    pub open spec fn dispute(self, id: u64) -> Option<DisputeView> {
        if 1 <= id <= self.disputes.len() {
            self.disputes[id - 1]
        } else {
            None
        }
    }

    /// The fee configuration, with both fees 0 when none is stored.
    pub open spec fn fees(self) -> FeeConfig {
        match self.fee_config {
            Some(c) => c,
            None => FeeConfig { protocol_fee_bps: 0, arbitration_fee_bps: 0 },
        }
    }

    /// Whether the named action is paused on its own.
    pub open spec fn action_paused(self, action: Seq<char>) -> bool {
        self.paused_actions.contains(action)
    }

    /// Fees accumulated in the vault for `token` (0 when none).
    pub open spec fn accumulated(self, token: Address) -> i128 {
        if self.accumulated_fees.contains_key(token) { self.accumulated_fees[token] } else { 0 }
    }

    /// Arbitration fees collected for `token` over the contract's life (0 when none).
    pub open spec fn arbitration_total(self, token: Address) -> i128 {
        if self.arbitration_totals.contains_key(token) { self.arbitration_totals[token] } else { 0 }
    }

    /// Escrow ids listed for a vendor (empty when none).
    pub open spec fn vendor_ids(self, vendor: Address) -> Seq<u64> {
        if self.vendor_index.contains_key(vendor) { self.vendor_index[vendor] } else { seq![] }
    }

    /// Escrow ids listed for a buyer (empty when none).
    pub open spec fn buyer_ids(self, buyer: Address) -> Seq<u64> {
        if self.buyer_index.contains_key(buyer) { self.buyer_index[buyer] } else { seq![] }
    }

    /// The effective minimum escrow amount.
    pub open spec fn min_limit(self) -> i128 {
        match self.min_amount {
            Some(m) => m,
            None => MIN_ESCROW_AMOUNT,
        }
    }

    /// The effective maximum escrow amount.
    pub open spec fn max_limit(self) -> i128 {
        match self.max_amount {
            Some(m) => m,
            None => MAX_ESCROW_AMOUNT,
        }
    }

    /// The storage lifetime extension in ledgers.
    pub open spec fn ttl(self) -> u32 {
        match self.ttl_extension {
            Some(t) => t,
            None => DEFAULT_TTL_EXTENSION,
        }
    }

    /// Structural consistency: escrow ids run from 1 to the counter, and the
    /// dispute and message lists run alongside the escrows.
    pub open spec fn wf(self) -> bool {
        &&& self.disputes.len() == self.escrows.len()
        &&& self.messages.len() == self.escrows.len()
        &&& match self.escrow_counter {
            Some(c) => c == self.escrows.len() + 1,
            None => self.escrows.len() == 0,
        }
    }
}

/// Sum of the payees' shares in basis points.
pub open spec fn bps_total(ps: Seq<Payee>) -> int
    decreases ps.len(),
{
    if ps.len() == 0 {
        0
    } else {
        bps_total(ps.drop_last()) + ps.last().bps
    }
}

/// Sum of the amounts of the stages not yet released.
pub open spec fn unreleased_total(ms: Seq<Milestone>) -> int
    decreases ms.len(),
{
    if ms.len() == 0 {
        0
    } else {
        unreleased_total(ms.drop_last()) + if ms.last().released { 0int } else { ms.last().amount as int }
    }
}

/// Whether funds are still held for an escrow in this state.
pub open spec fn is_open(s: EscrowState) -> bool {
    s == EscrowState::Pending || s == EscrowState::Funded || s == EscrowState::Shipped
        || s == EscrowState::Disputed || s == EscrowState::RefundRequested
}

/// Whether an escrow in this state has a buyer who paid in full.
pub open spec fn is_funded_state(s: EscrowState) -> bool {
    s == EscrowState::Funded || s == EscrowState::Shipped || s == EscrowState::Disputed
        || s == EscrowState::RefundRequested
}

/// The invariant every stored escrow keeps.
pub open spec fn record_ok(e: EscrowView) -> bool {
    &&& e.payees.len() >= 1
    &&& bps_total(e.payees) == 10_000
    &&& e.fee_bps <= MAX_ESCROW_FEE_BPS
    &&& e.resolver_fee_bps <= MAX_ESCROW_FEE_BPS
    &&& !e.has_payee(e.resolver)
    &&& (e.buyer matches Some(b) ==> !e.has_payee(b) && b != e.resolver)
    &&& 0 <= e.amount
    &&& 0 <= e.funded_amount
    &&& (is_open(e.state) ==> 0 < e.amount)
    &&& (e.state == EscrowState::Pending ==> e.funded_amount < e.amount)
    &&& (e.state == EscrowState::Pending && e.funded_amount > 0 ==> e.buyer is Some)
    &&& (is_funded_state(e.state) ==> e.buyer is Some)
    &&& (e.milestones matches Some(ms) ==> {
        &&& 1 <= ms.len() <= MAX_MILESTONES
        &&& forall|j: int| 0 <= j < ms.len() ==> #[trigger] ms[j].amount > 0
        &&& (is_open(e.state) ==> e.amount == unreleased_total(ms))
    })
}

impl ContractModel {
    /// The invariant of the contract state that every operation keeps.
    pub open spec fn inv(self) -> bool {
        &&& self.wf()
        &&& (self.initialized() <==> self.fee_collector is Some)
        &&& (self.initialized() <==> self.escrow_counter is Some)
        &&& (self.initialized() ==> self.fee_config is Some)
        &&& self.fees().protocol_fee_bps <= MAX_PROTOCOL_FEE_BPS
        &&& self.fees().arbitration_fee_bps <= MAX_ARBITRATION_FEE_BPS
        &&& self.fees().protocol_fee_bps + self.fees().arbitration_fee_bps <= MAX_COMBINED_FEE_BPS
        &&& 0 < self.min_limit() <= self.max_limit()
        &&& forall|i: int| 0 <= i < self.escrows.len() ==> record_ok(#[trigger] self.escrows[i])
        &&& forall|t: Address| self.accumulated_fees.contains_key(t) ==> #[trigger] self.accumulated_fees[t] >= 0
        &&& self.buyer_index_ok()
        &&& self.vendor_index_ok()
    }

    /// Every id listed for a vendor names an existing escrow it sells, and
    /// every escrow is listed for its seller.
    pub open spec fn vendor_index_ok(self) -> bool {
        &&& forall|v: Address, j: int|
            #![trigger self.vendor_index[v][j]]
            self.vendor_index.contains_key(v) && 0 <= j < self.vendor_index[v].len() ==> {
                &&& 1 <= self.vendor_index[v][j] <= self.escrows.len()
                &&& self.escrows[self.vendor_index[v][j] - 1].seller() == v
            }
        &&& forall|i: int|
            #![trigger self.escrows[i]]
            0 <= i < self.escrows.len() ==> self.vendor_ids(self.escrows[i].seller()).contains((i + 1) as u64)
    }

    /// Every id listed for a buyer names an existing escrow whose buyer it is.
    pub open spec fn buyer_index_ok(self) -> bool {
        forall|b: Address, j: int|
            #![trigger self.buyer_index[b][j]]
            self.buyer_index.contains_key(b) && 0 <= j < self.buyer_index[b].len() ==> {
                &&& 1 <= self.buyer_index[b][j] <= self.escrows.len()
                &&& self.escrows[self.buyer_index[b][j] - 1].buyer == Some(b)
            }
    }
}

impl EscrowContract {
    /// A contract that has not been initialized yet.
    pub fn new() -> (c: EscrowContract)
        ensures
            !c@.initialized(),
            c@.fee_collector.is_none(),
            c@.fee_config.is_none(),
            c@.escrow_counter.is_none(),
            !c@.paused,
            c@.paused_actions == Set::<Seq<char>>::empty(),
            c@.ttl_extension.is_none(),
            c@.min_amount.is_none(),
            c@.max_amount.is_none(),
            !c@.allowlist_enabled,
            c@.allowlist.len() == 0,
            c@.stats == (ContractStats { total_created: 0, total_completed: 0, total_disputed: 0, total_refunded: 0 }),
            c@.escrows.len() == 0,
            c@.disputes.len() == 0,
            c@.messages.len() == 0,
            c@.vendor_index == Map::<Address, Seq<u64>>::empty(),
            c@.buyer_index == Map::<Address, Seq<u64>>::empty(),
            c@.accumulated_fees == Map::<Address, i128>::empty(),
            c@.arbitration_totals == Map::<Address, i128>::empty(),
            c@.inv(),
    {
        let c = EscrowContract {
            admin: None,
            fee_collector: None,
            fee_config: None,
            escrow_counter: None,
            paused: false,
            paused_actions: Vec::new(),
            ttl_extension: None,
            min_amount: None,
            max_amount: None,
            allowlist_enabled: false,
            allowlist: Vec::new(),
            stats: ContractStats { total_created: 0, total_completed: 0, total_disputed: 0, total_refunded: 0 },
            escrows: Vec::new(),
            disputes: Vec::new(),
            messages: Vec::new(),
            vendor_index: AddressTable::new(),
            buyer_index: AddressTable::new(),
            accumulated_fees: AddressTable::new(),
            arbitration_totals: AddressTable::new(),
        };
        assert(c@.paused_actions =~= Set::<Seq<char>>::empty());
        assert(c@.vendor_index =~= Map::<Address, Seq<u64>>::empty());
        assert(c@.buyer_index =~= Map::<Address, Seq<u64>>::empty());
        c
    }
}

/// Whether `a` occurs among the payees.
pub fn is_payee(payees: &Vec<Payee>, a: &Address) -> (b: bool)
    ensures
        b == exists|i: int| 0 <= i < payees@.len() && #[trigger] payees@[i].address == *a,
{
    let mut i: usize = 0;
    while i < payees.len()
        invariant
            i <= payees@.len(),
            forall|j: int| 0 <= j < i ==> #[trigger] payees@[j].address != *a,
        decreases payees.len() - i,
    {
        if payees[i].address == *a {
            return true;
        }
        i = i + 1;
    }
    false
}

/// Appends `id` to the list that `table` holds for `key`.
pub fn index_push(table: &mut AddressTable<Vec<u64>>, key: Address, id: u64)
    ensures
        index_view(*final(table)) == index_view(*old(table)).insert(
            key,
            (if index_view(*old(table)).contains_key(key) { index_view(*old(table))[key] } else { seq![] }).push(id),
        ),
{
    let ghost before = index_view(*table);
    let mut ids: Vec<u64> = match table.get(&key) {
        Some(v) => v.clone(),
        None => Vec::new(),
    };
    assert(ids@ =~= (if before.contains_key(key) { before[key] } else { seq![] }));
    ids.push(id);
    let ghost ids_view = ids@;
    table.set(key, ids);
    assert(index_view(*table) =~= before.insert(key, ids_view));
}

impl EscrowContract {
    /// The escrow with the given id, or `EscrowNotFound`.
    pub fn load_escrow(&self, id: u64) -> (r: Result<&EscrowData, ContractError>)
        ensures
            match r {
                Ok(e) => self@.escrow(id) == Some(e@) && 1 <= id <= self.escrows@.len()
                    && *e == self.escrows@[id - 1],
                Err(err) => self@.escrow(id) is None && err == ContractError::EscrowNotFound,
            },
    {
        if id >= 1 && id - 1 < self.escrows.len() as u64 {
            let idx = (id - 1) as usize;
            Ok(&self.escrows[idx])
        } else {
            Err(ContractError::EscrowNotFound)
        }
    }

    /// Replaces the stored record of escrow `id`.
    pub fn store_escrow(&mut self, id: u64, e: EscrowData)
        requires
            1 <= id <= old(self).escrows@.len(),
        ensures
            final(self)@ == (ContractModel { escrows: old(self)@.escrows.update(id - 1, e@), ..old(self)@ }),
    {
        let ghost before = self@;
        let ghost ev = e@;
        let n = self.escrows.len();
        assert(id - 1 < n);
        let idx = (id - 1) as usize;
        assert(idx == id - 1);
        let ghost old_escrows = self.escrows@;
        self.escrows.set(idx, e);
        assert forall|j: int| 0 <= j < self.escrows@.len() implies #[trigger] self@.escrows[j] == before.escrows.update(id - 1, ev)[j] by {
            if j != id - 1 {
                assert(self.escrows@[j] == old_escrows[j]);
            }
        }
        assert(self@.escrows =~= before.escrows.update(id - 1, ev));
        assert(self@ =~= (ContractModel { escrows: before.escrows.update(id - 1, ev), ..before }));
    }

    /// `ContractPaused` when the contract is paused.
    pub fn ensure_not_paused(&self) -> (r: Result<(), ContractError>)
        ensures
            r is Ok <==> !self@.paused,
            r is Err ==> r == Err::<(), ContractError>(ContractError::ContractPaused),
    {
        if self.paused {
            Err(ContractError::ContractPaused)
        } else {
            Ok(())
        }
    }

    /// `ContractPaused` when the contract or the named action is paused.
    pub fn ensure_action_not_paused(&self, action: &String) -> (r: Result<(), ContractError>)
        ensures
            r is Ok <==> !self@.paused && !self@.action_paused(action@),
            r is Err ==> r == Err::<(), ContractError>(ContractError::ContractPaused),
    {
        self.ensure_not_paused()?;
        if self.is_action_paused(action) {
            return Err(ContractError::ContractPaused);
        }
        Ok(())
    }

    /// The fee collector, or `NotAuthorized` when none is stored.
    pub fn read_fee_collector(&self) -> (r: Result<Address, ContractError>)
        ensures
            match r {
                Ok(a) => self@.fee_collector == Some(a),
                Err(e) => self@.fee_collector is None && e == ContractError::NotAuthorized,
            },
    {
        match self.fee_collector {
            Some(a) => Ok(a),
            None => Err(ContractError::NotAuthorized),
        }
    }
}

} // verus!
