use vstd::prelude::*;
use crate::escrow::Escrow;

verus! {

/// The minimum remaining lifetime below which a TTL extension is requested.
pub const TTL_THRESHOLD: u32 = 5000;

/// The lifetime a TTL extension asks the storage engine to restore.
pub const TTL_EXTEND_TO: u32 = 5000;

/// Typed key addressing one escrow record in the store; extensible should
/// further record kinds ever be persisted. The allocator counter lives in a
/// well-known slot of its own, not under this key type.
#[derive(Clone, Copy, Debug, PartialEq, Eq, Structural)]
pub enum EscrowBook {
    Escrow(u64),
}

impl EscrowBook {
    /// The identifier this key addresses.
    pub open spec fn spec_escrow_id(self) -> u64 {
        match self {
            EscrowBook::Escrow(id) => id,
        }
    }
}

/// The persisted state of the system, as the library models the host's
/// key-value storage: the allocator counter, one escrow record per
/// identifier (identifiers are dense, starting at 1, so the records sit in
/// order in a vector), and a ghost log of the TTL-extension requests made to
/// the storage engine. The engine's actual expiration mechanics are the
/// host's concern; the log records that the extension was asked for, and
/// with which lifetimes.
pub struct Store {
    pub counter: u64,
    pub escrows: Vec<Escrow>,
    pub ttl_log: Ghost<Seq<(u32, u32)>>,
}

/// Whether a counter value and a record sequence form a well-formed store:
/// the counter equals the number of records ever allocated, record `i` holds
/// identifier `i + 1` (dense, no gaps, no reuse), and every record is in
/// exactly one lifecycle state.
pub open spec fn parts_wf(counter: u64, records: Seq<Escrow>) -> bool {
    &&& counter == records.len()
    &&& forall|i: int| 0 <= i < records.len() ==> (#[trigger] records[i]).escrow_id == i + 1
    &&& forall|i: int| 0 <= i < records.len() ==> (#[trigger] records[i]).one_lifecycle_state()
}

impl Store {
    /// The stored records, in identifier order.
    pub open spec fn records(self) -> Seq<Escrow> {
        self.escrows@
    }

    /// The allocator counter: the number of identifiers handed out so far.
    pub open spec fn count(self) -> u64 {
        self.counter
    }

    /// Every TTL-extension request made so far, oldest first, each as its
    /// `(threshold, extend_to)` pair of lifetimes.
    pub open spec fn ttl_requests(self) -> Seq<(u32, u32)> {
        self.ttl_log@
    }

    pub open spec fn wf(self) -> bool {
        parts_wf(self.counter, self.escrows@)
    }

    /// The record stored under identifier `id`, if any.
    pub open spec fn spec_get(self, id: u64) -> Option<Escrow> {
        if 1 <= id && id <= self.escrows@.len() {
            Some(self.escrows@[id - 1])
        } else {
            None
        }
    }

    /// An empty store: the counter starts (implicitly) at 0, nothing is
    /// recorded yet.
    pub fn new() -> (s: Store)
        ensures
            s.wf(),
            s.count() == 0,
            s.records().len() == 0,
            s.ttl_requests().len() == 0,
    {
        Store { counter: 0, escrows: Vec::new(), ttl_log: Ghost(Seq::empty()) }
    }

    /// `next_id()`: read the current counter (0 when nothing was allocated
    /// yet), increment it, persist the new value, and return it. The caller
    /// commits this together with its record write as one atomic unit.
    pub fn next_id(&mut self) -> (id: u64)
        requires
            old(self).count() < u64::MAX,
        ensures
            id == old(self).count() + 1,
            final(self).count() == id,
            final(self).records() == old(self).records(),
            final(self).ttl_requests() == old(self).ttl_requests(),
    {
        self.counter = self.counter + 1;
        self.counter
    }

    /// `get(key)`: record-level read. No authorization, no TTL effect.
    pub fn get(&self, key: EscrowBook) -> (r: Option<Escrow>)
        ensures
            r == self.spec_get(key.spec_escrow_id()),
    {
        match key {
            EscrowBook::Escrow(id) => {
                let n = self.escrows.len();
                if 1 <= id && id <= n as u64 {
                    Some(self.escrows[(id - 1) as usize])
                } else {
                    None
                }
            },
        }
    }

    /// `put(key, record)`: record-level write, either of the next identifier
    /// in sequence or over an existing record. No authorization, no TTL
    /// effect of its own.
    pub fn put(&mut self, key: EscrowBook, record: Escrow)
        requires
            1 <= key.spec_escrow_id() <= old(self).records().len() + 1,
        ensures
            final(self).records() == (if key.spec_escrow_id() <= old(self).records().len() {
                old(self).records().update(key.spec_escrow_id() - 1, record)
            } else {
                old(self).records().push(record)
            }),
            final(self).count() == old(self).count(),
            final(self).ttl_requests() == old(self).ttl_requests(),
    {
        match key {
            EscrowBook::Escrow(id) => {
                let n = self.escrows.len();
                if id <= n as u64 {
                    let idx = (id - 1) as usize;
                    self.escrows[idx] = record;
                } else {
                    self.escrows.push(record);
                }
            },
        }
    }

    /// `extend_ttl(threshold, extend_to)`: ask the storage engine to defer
    /// expiration of the persisted state — invoked after every successful
    /// write, never on pure reads. The engine itself is outside the library;
    /// the request is recorded in the ghost log.
    pub fn extend_ttl(&mut self, threshold: u32, extend_to: u32)
        ensures
            final(self).ttl_requests() == old(self).ttl_requests().push((threshold, extend_to)),
            final(self).records() == old(self).records(),
            final(self).count() == old(self).count(),
    {
        proof {
            self.ttl_log@ = self.ttl_log@.push((threshold, extend_to));
        }
    }
}

} // verus!
