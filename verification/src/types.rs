use vstd::prelude::*;

verus! {

/// The two kinds of on-chain addresses: user accounts and contracts.
#[derive(Clone, Copy, Debug, PartialEq, Eq, Structural)]
pub enum AddressKind {
    Account,
    Contract,
}

/// An on-chain address: its kind and its 32-byte payload (an ed25519 public
/// key for accounts, a contract id hash for contracts), split into two
/// big-endian 128-bit halves.
#[derive(Clone, Copy, Debug, PartialEq, Eq, Structural)]
pub struct Address {
    pub kind: AddressKind,
    pub hi: u128,
    pub lo: u128,
}

/// The all-zero account address (strkey `GAAA…AWHF`), which is never valid
/// for a role in the contract.
pub open spec fn zero_address() -> Address {
    Address { kind: AddressKind::Account, hi: 0, lo: 0 }
}

impl Address {
    /// Returns the all-zero account address.
    pub fn zero() -> (a: Address)
        ensures
            a == zero_address(),
    {
        Address { kind: AddressKind::Account, hi: 0, lo: 0 }
    }

    /// Whether this is the all-zero account address.
    pub fn is_zero(&self) -> (b: bool)
        ensures
            b == (*self == zero_address()),
    {
        match self.kind {
            AddressKind::Account => self.hi == 0 && self.lo == 0,
            AddressKind::Contract => false,
        }
    }
}

/// A 32-byte hash (evidence hash, wasm hash), split into two 128-bit halves.
#[derive(Clone, Copy, Debug, PartialEq, Eq, Structural)]
pub struct Hash32 {
    pub hi: u128,
    pub lo: u128,
}

/// Lifecycle state of an escrow.
#[derive(Clone, Copy, Debug, PartialEq, Eq, Structural)]
pub enum EscrowState {
    Pending,
    Funded,
    Shipped,
    Completed,
    Disputed,
    Refunded,
    Canceled,
    RefundRequested,
}

/// How a dispute is settled: pay the seller or refund the buyer.
#[derive(Clone, Copy, Debug, PartialEq, Eq, Structural)]
pub enum ResolutionType {
    Release,
    Refund,
}

/// Status of a dispute record.
#[derive(Clone, Copy, Debug, PartialEq, Eq, Structural)]
pub enum DisputeStatus {
    Active,
    Resolved,
}

/// One recipient of an escrow payout and its share in basis points.
#[derive(Clone, Copy, Debug, PartialEq, Eq, Structural)]
pub struct Payee {
    pub address: Address,
    pub bps: u32,
}

/// One stage of a milestone escrow.
#[derive(Clone, Copy, Debug, PartialEq, Eq, Structural)]
pub struct Milestone {
    pub amount: i128,
    pub released: bool,
}

/// Global fee configuration in basis points.
#[derive(Clone, Copy, Debug, PartialEq, Eq, Structural)]
pub struct FeeConfig {
    pub protocol_fee_bps: u32,
    pub arbitration_fee_bps: u32,
}

/// On-chain lifecycle counters.
#[derive(Clone, Copy, Debug, PartialEq, Eq, Structural)]
pub struct ContractStats {
    pub total_created: u64,
    pub total_completed: u64,
    pub total_disputed: u64,
    pub total_refunded: u64,
}

/// Configuration anyone may read.
#[derive(Clone, Copy, Debug, PartialEq, Eq, Structural)]
pub struct PublicContractConfig {
    pub fee_bps: u32,
    pub paused: bool,
    pub escrow_count: u64,
}

/// Full configuration including privileged addresses.
#[derive(Clone, Copy, Debug, PartialEq, Eq, Structural)]
pub struct ContractConfig {
    pub admin: Address,
    pub fee_bps: u32,
    pub fee_collector: Address,
    pub escrow_count: u64,
}

/// One escrow request of a batch creation.
#[derive(Debug)]
pub struct EscrowInput {
    pub buyer: Option<Address>,
    pub resolver: Address,
    pub token: Address,
    pub amount: i128,
    pub fee_bps: u32,
    pub shipping_window: u64,
    pub notes: Option<String>,
}

/// A message posted on an escrow's thread.
#[derive(Debug)]
pub struct Message {
    pub sender: Address,
    pub timestamp: u64,
    pub content: String,
}

/// Metadata of a dispute raised on an escrow.
#[derive(Debug)]
pub struct DisputeData {
    pub escrow_id: u64,
    pub reason: String,
    pub description: String,
    pub evidence_hash: Hash32,
    pub status: DisputeStatus,
    pub disputed_at: u64,
    pub tracking_id: Option<String>,
}

/// The stored record of one escrow.
///
/// `payees[0]` acts as the seller. For milestone escrows `amount` always
/// tracks the balance still held for the escrow: each released stage is
/// deducted from it. `funded_amount` is the running total actually paid in.
#[derive(Debug)]
pub struct EscrowData {
    pub payees: Vec<Payee>,
    pub buyer: Option<Address>,
    pub resolver: Address,
    pub token: Address,
    pub amount: i128,
    pub fee_bps: u32,
    pub resolver_fee_bps: u32,
    pub shipping_window: u64,
    pub funded_at: u64,
    pub dispute_deadline: u64,
    pub shipped_at: u64,
    pub delivered_at: Option<u64>,
    pub tracking_id: Option<String>,
    pub state: EscrowState,
    pub milestones: Option<Vec<Milestone>>,
    pub funded_amount: i128,
}

/// Abstract value of an escrow record: every field, with strings and vectors
/// taken by their contents.
pub struct EscrowView {
    pub payees: Seq<Payee>,
    pub buyer: Option<Address>,
    pub resolver: Address,
    pub token: Address,
    pub amount: i128,
    pub fee_bps: u32,
    pub resolver_fee_bps: u32,
    pub shipping_window: u64,
    pub funded_at: u64,
    pub dispute_deadline: u64,
    pub shipped_at: u64,
    pub delivered_at: Option<u64>,
    pub tracking_id: Option<Seq<char>>,
    pub state: EscrowState,
    pub milestones: Option<Seq<Milestone>>,
    pub funded_amount: i128,
}

/// Abstract value of a dispute record.
pub struct DisputeView {
    pub escrow_id: u64,
    pub reason: Seq<char>,
    pub description: Seq<char>,
    pub evidence_hash: Hash32,
    pub status: DisputeStatus,
    pub disputed_at: u64,
    pub tracking_id: Option<Seq<char>>,
}

/// Abstract value of a message.
pub struct MessageView {
    pub sender: Address,
    pub timestamp: u64,
    pub content: Seq<char>,
}

/// The length in bytes of a string's UTF-8 encoding, as `str::len` reports it.
pub open spec fn byte_len(s: Seq<char>) -> usize {
    vstd::utf8::encode_utf8(s).len() as usize
}

/// The contents of an optional string.
pub open spec fn opt_str(s: Option<String>) -> Option<Seq<char>> {
    match s {
        Some(t) => Some(t@),
        None => None,
    }
}

/// The contents of an optional milestone vector.
pub open spec fn opt_milestones(m: Option<Vec<Milestone>>) -> Option<Seq<Milestone>> {
    match m {
        Some(v) => Some(v@),
        None => None,
    }
}

impl View for EscrowData {
    type V = EscrowView;

    open spec fn view(&self) -> EscrowView {
        EscrowView {
            payees: self.payees@,
            buyer: self.buyer,
            resolver: self.resolver,
            token: self.token,
            amount: self.amount,
            fee_bps: self.fee_bps,
            resolver_fee_bps: self.resolver_fee_bps,
            shipping_window: self.shipping_window,
            funded_at: self.funded_at,
            dispute_deadline: self.dispute_deadline,
            shipped_at: self.shipped_at,
            delivered_at: self.delivered_at,
            tracking_id: opt_str(self.tracking_id),
            state: self.state,
            milestones: opt_milestones(self.milestones),
            funded_amount: self.funded_amount,
        }
    }
}

impl View for DisputeData {
    type V = DisputeView;

    open spec fn view(&self) -> DisputeView {
        DisputeView {
            escrow_id: self.escrow_id,
            reason: self.reason@,
            description: self.description@,
            evidence_hash: self.evidence_hash,
            status: self.status,
            disputed_at: self.disputed_at,
            tracking_id: opt_str(self.tracking_id),
        }
    }
}

impl View for Message {
    type V = MessageView;

    open spec fn view(&self) -> MessageView {
        MessageView { sender: self.sender, timestamp: self.timestamp, content: self.content@ }
    }
}

impl EscrowView {
    /// The seller: the first payee.
    pub open spec fn seller(self) -> Address {
        self.payees[0].address
    }

    /// Whether `a` is one of the payees.
    pub open spec fn has_payee(self, a: Address) -> bool {
        exists|i: int| 0 <= i < self.payees.len() && #[trigger] self.payees[i].address == a
    }
}

/// Copies a string.
pub fn copy_string(s: &String) -> (r: String)
    ensures
        r == *s,
        r@ == s@,
{
    s.clone()
}

/// Copies an optional string.
pub fn copy_opt_string(s: &Option<String>) -> (r: Option<String>)
    ensures
        r == *s,
        opt_str(r) == opt_str(*s),
{
    match s {
        Some(t) => Some(t.clone()),
        None => None,
    }
}

/// Copies a vector of payees.
pub fn copy_payees(v: &Vec<Payee>) -> (r: Vec<Payee>)
    ensures
        r@ == v@,
{
    let mut r: Vec<Payee> = Vec::new();
    let mut i: usize = 0;
    while i < v.len()
        invariant
            i <= v.len(),
            r@ == v@.subrange(0, i as int),
        decreases v.len() - i,
    {
        r.push(v[i]);
        i = i + 1;
    }
    assert(r@ =~= v@);
    r
}

/// Copies a vector of milestones.
pub fn copy_milestones(v: &Vec<Milestone>) -> (r: Vec<Milestone>)
    ensures
        r@ == v@,
{
    let mut r: Vec<Milestone> = Vec::new();
    let mut i: usize = 0;
    while i < v.len()
        invariant
            i <= v.len(),
            r@ == v@.subrange(0, i as int),
        decreases v.len() - i,
    {
        r.push(v[i]);
        i = i + 1;
    }
    assert(r@ =~= v@);
    r
}

impl Message {
    /// Returns a copy of this message.
    pub fn duplicate(&self) -> (r: Message)
        ensures
            r@ == self@,
    {
        Message { sender: self.sender, timestamp: self.timestamp, content: copy_string(&self.content) }
    }
}

impl DisputeData {
    /// Returns a copy of this dispute record.
    pub fn duplicate(&self) -> (r: DisputeData)
        ensures
            r@ == self@,
    {
        DisputeData {
            escrow_id: self.escrow_id,
            reason: copy_string(&self.reason),
            description: copy_string(&self.description),
            evidence_hash: self.evidence_hash,
            status: self.status,
            disputed_at: self.disputed_at,
            tracking_id: copy_opt_string(&self.tracking_id),
        }
    }
}

impl EscrowData {
    /// Returns a copy of this escrow record.
    pub fn duplicate(&self) -> (r: EscrowData)
        ensures
            r@ == self@,
    {
        let milestones = match &self.milestones {
            Some(ms) => Some(copy_milestones(ms)),
            None => None,
        };
        EscrowData {
            payees: copy_payees(&self.payees),
            buyer: self.buyer,
            resolver: self.resolver,
            token: self.token,
            amount: self.amount,
            fee_bps: self.fee_bps,
            resolver_fee_bps: self.resolver_fee_bps,
            shipping_window: self.shipping_window,
            funded_at: self.funded_at,
            dispute_deadline: self.dispute_deadline,
            shipped_at: self.shipped_at,
            delivered_at: self.delivered_at,
            tracking_id: copy_opt_string(&self.tracking_id),
            state: self.state,
            milestones,
            funded_amount: self.funded_amount,
        }
    }
}

} // verus!
