use vstd::prelude::*;
use crate::contract::{message_views, opt_dispute, ContractModel, EscrowContract, MAX_MESSAGE_PAGE};
use crate::errors::ContractError;
use crate::events::{ContractEvent, MessagePosted, Outcome};
use crate::admin::only_event;
use crate::flow::lookup_error;
use crate::types::{Address, DisputeData, EscrowData, EscrowView, Message, MessageView};

verus! {

/// Why `post_message` is refused, if it is.
pub open spec fn post_message_error(m: ContractModel, id: u64) -> Option<ContractError> {
    if m.paused {
        Some(ContractError::ContractPaused)
    } else {
        lookup_error(m, id)
    }
}

/// The messages of escrow `id` (empty when it has none).
pub open spec fn messages_of(m: ContractModel, id: u64) -> Seq<MessageView> {
    if 1 <= id <= m.messages.len() { m.messages[id - 1] } else { seq![] }
}

/// The page of messages `start .. start + min(limit, 50)` of a thread.
pub open spec fn message_page(msgs: Seq<MessageView>, start: u64, limit: u64) -> Seq<MessageView> {
    let max = if limit > MAX_MESSAGE_PAGE { MAX_MESSAGE_PAGE } else { limit };
    if start >= msgs.len() {
        seq![]
    } else {
        let end = if start + max < msgs.len() { start + max } else { msgs.len() as int };
        msgs.subrange(start as int, end)
    }
}

/// Ids `1 ..= n` of the escrows whose buyer is `buyer`, in order.
pub open spec fn buyer_scan(escrows: Seq<EscrowView>, buyer: Address, n: int) -> Seq<u64>
    decreases n,
{
    if n <= 0 {
        seq![]
    } else {
        let prev = buyer_scan(escrows, buyer, n - 1);
        if escrows[n - 1].buyer == Some(buyer) { prev.push(n as u64) } else { prev }
    }
}

/// The ids `get_escrows_by_buyer` lists for `buyer`: the buyer's index entry
/// when there is one, otherwise a scan of every escrow.
pub open spec fn buyer_listing(m: ContractModel, buyer: Address) -> Seq<u64> {
    if m.buyer_index.contains_key(buyer) {
        m.buyer_index[buyer]
    } else {
        buyer_scan(m.escrows, buyer, m.escrows.len() as int)
    }
}

/// Copies the messages `start .. end` of a list.
fn copy_messages(v: &Vec<Message>, start: usize, end: usize) -> (r: Vec<Message>)
    requires
        start <= end <= v@.len(),
    ensures
        r@.len() == end - start,
        forall|j: int| 0 <= j < r@.len() ==> #[trigger] r@[j]@ == v@[start + j]@,
        message_views(r) == message_views(*v).subrange(start as int, end as int),
{
    let mut r: Vec<Message> = Vec::new();
    let mut i: usize = start;
    while i < end
        invariant
            start <= i <= end <= v@.len(),
            r@.len() == i - start,
            forall|j: int| 0 <= j < r@.len() ==> #[trigger] r@[j]@ == v@[start + j]@,
        decreases end - i,
    {
        let m = v[i].duplicate();
        r.push(m);
        i = i + 1;
    }
    assert(message_views(r) =~= message_views(*v).subrange(start as int, end as int));
    r
}

impl EscrowContract {
    /// Posts a message on escrow `id`'s thread. Messages are appended and
    /// never changed.
    pub fn post_message(&mut self, id: u64, sender: Address, content: String, now: u64) -> (r: Result<Outcome, ContractError>)
        requires
            old(self)@.inv(),
        ensures
            final(self)@.inv(),
            match r {
                Err(e) => post_message_error(old(self)@, id) == Some(e) && final(self)@ == old(self)@,
                Ok(o) => post_message_error(old(self)@, id) is None
                    && final(self)@ == (ContractModel {
                        messages: old(self)@.messages.update(
                            id - 1,
                            old(self)@.messages[id - 1].push(MessageView { sender, timestamp: now, content: content@ }),
                        ),
                        ..old(self)@
                    })
                    && only_event(o, ContractEvent::MessagePosted(MessagePosted { escrow_id: id, sender, timestamp: now })),
            },
    {
        self.ensure_not_paused()?;
        self.load_escrow(id)?;
        let ghost before = self@;
        let n = self.messages.len();
        assert(id - 1 < n);
        let idx = (id - 1) as usize;
        assert(idx == id - 1);
        let len = self.messages[idx].len();
        let mut thread = copy_messages(&self.messages[idx], 0, len);
        let ghost cv = content@;
        let ghost copied = thread@;
        proof {
            assert(before.messages[id - 1] == message_views(self.messages@[id - 1]));
        }
        thread.push(Message { sender, timestamp: now, content });
        proof {
            assert(thread@ == copied.push(Message { sender, timestamp: now, content: thread@[copied.len() as int].content }));
            assert forall|j: int| 0 <= j < thread@.len() implies #[trigger] message_views(thread)[j]
                == before.messages[id - 1].push(MessageView { sender, timestamp: now, content: cv })[j] by {
                if j < copied.len() {
                    assert(thread@[j] == copied[j]);
                }
            }
            assert(message_views(thread) =~= before.messages[id - 1].push(MessageView { sender, timestamp: now, content: cv }));
        }
        let ghost tv = message_views(thread);
        let ghost old_messages = self.messages@;
        self.messages.set(idx, thread);
        proof {
            assert(message_views(self.messages@[id - 1]) == tv);
            assert forall|j: int| 0 <= j < self.messages@.len() implies #[trigger] self@.messages[j] == before.messages.update(id - 1, tv)[j] by {
                if j != id - 1 {
                    assert(self.messages@[j] == old_messages[j]);
                }
            }
            assert(self@.messages =~= before.messages.update(id - 1, tv));
            assert(self@ =~= (ContractModel { messages: before.messages.update(id - 1, tv), ..before }));
        }
        Ok(Outcome::event(ContractEvent::MessagePosted(MessagePosted { escrow_id: id, sender, timestamp: now })))
    }

    /// One page of escrow `id`'s messages: at most `min(limit, 50)`
    /// messages starting at position `start` (empty past the end).
    pub fn get_messages(&self, id: u64, start: u64, limit: u64) -> (r: Vec<Message>)
        requires
            self@.wf(),
        ensures
            message_views(r) == message_page(messages_of(self@, id), start, limit),
    {
        let max = if limit > MAX_MESSAGE_PAGE { MAX_MESSAGE_PAGE } else { limit };
        if id >= 1 && id - 1 < self.messages.len() as u64 {
            let idx = (id - 1) as usize;
            let msgs = &self.messages[idx];
            let total = msgs.len() as u64;
            if start >= total {
                let empty: Vec<Message> = Vec::new();
                assert(message_views(empty) =~= Seq::<MessageView>::empty());
                return empty;
            }
            let end = if max < total - start { start + max } else { total };
            copy_messages(msgs, start as usize, end as usize)
        } else {
            let empty: Vec<Message> = Vec::new();
            assert(message_views(empty) =~= Seq::<MessageView>::empty());
            empty
        }
    }

    /// A copy of escrow `id`, or `EscrowNotFound`.
    pub fn get_escrow(&self, id: u64) -> (r: Result<EscrowData, ContractError>)
        ensures
            match r {
                Ok(e) => self@.escrow(id) == Some(e@),
                Err(err) => self@.escrow(id) is None && err == ContractError::EscrowNotFound,
            },
    {
        let e = self.load_escrow(id)?;
        Ok(e.duplicate())
    }

    /// A copy of the dispute record of escrow `id`, if any.
    pub fn get_dispute(&self, id: u64) -> (r: Option<DisputeData>)
        requires
            self@.wf(),
        ensures
            opt_dispute(r) == self@.dispute(id),
    {
        if id >= 1 && id - 1 < self.disputes.len() as u64 {
            let idx = (id - 1) as usize;
            match &self.disputes[idx] {
                Some(d) => Some(d.duplicate()),
                None => None,
            }
        } else {
            None
        }
    }

    /// The ids of the escrows created by `vendor`, in creation order.
    pub fn get_escrows_by_vendor(&self, vendor: Address) -> (r: Vec<u64>)
        ensures
            r@ == self@.vendor_ids(vendor),
    {
        match self.vendor_index.get(&vendor) {
            Some(ids) => ids.clone(),
            None => Vec::new(),
        }
    }

    /// The ids of the escrows funded by `buyer`, in order of first payment.
    /// Without an index entry for the buyer, every escrow is scanned for
    /// ones whose buyer is `buyer`.
    pub fn get_escrows_by_buyer(&self, buyer: Address) -> (r: Vec<u64>)
        requires
            self@.wf(),
        ensures
            r@ == buyer_listing(self@, buyer),
    {
        match self.buyer_index.get(&buyer) {
            Some(ids) => {
                let r = ids.clone();
                assert(r@ =~= ids@);
                return r;
            },
            None => {},
        }
        let mut out: Vec<u64> = Vec::new();
        let n = self.escrows.len();
        let mut i: usize = 0;
        while i < n
            invariant
                n == self.escrows@.len(),
                i <= n,
                out@ == buyer_scan(self@.escrows, buyer, i as int),
            decreases n - i,
        {
            if self.escrows[i].buyer == Some(buyer) {
                out.push((i + 1) as u64);
            }
            i = i + 1;
        }
        out
    }
}

} // verus!
