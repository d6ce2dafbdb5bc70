//! Excerpts of an agent's own append-only log, used as evidence.

use vstd::prelude::*;
use crate::address::Address;
use crate::handshake::ChainHeader;

verus! {

/// A log entry as it was committed: its type and its serialized content.
#[derive(Debug, Clone)]
pub struct Entry {
    pub entry_type: String,
    pub content: String,
}

/// Consecutive (header, entry) pairs of an agent's log, oldest first.
#[derive(Debug, Clone)]
pub struct ChainSnapshot {
    pub snapshot: Vec<(ChainHeader, Entry)>,
}

/// Each header names the one before it as its predecessor.
pub open spec fn linked(headers: Seq<(ChainHeader, Entry)>) -> bool {
    forall|i: int|
        0 < i < headers.len() ==> (#[trigger] headers[i].0.previous_address matches Some(p) && p@
            == headers[i - 1].0.address@)
}

impl ChainSnapshot {
    /// The head of the log in this excerpt: the address of its last header.
    pub fn last_header_address(&self) -> (r: Option<Address>)
        ensures
            self.snapshot@.len() == 0 ==> r is None,
            self.snapshot@.len() > 0 ==> r == Some(self.snapshot@.last().0.address),
    {
        let n = self.snapshot.len();
        if n == 0 {
            None
        } else {
            Some(self.snapshot[n - 1].0.address.duplicate())
        }
    }

    /// Whether the headers form an unbroken chain, each following the previous.
    pub fn is_linked(&self) -> (r: bool)
        ensures
            r == linked(self.snapshot@),
    {
        let mut i: usize = 1;
        while i < self.snapshot.len()
            invariant
                1 <= i,
                forall|j: int|
                    0 < j < i && j < self.snapshot@.len() ==> (
                    #[trigger] self.snapshot@[j].0.previous_address matches Some(p) && p@
                        == self.snapshot@[j - 1].0.address@),
            decreases self.snapshot@.len() - i,
        {
            let ok = match &self.snapshot[i].0.previous_address {
                Some(p) => p.same_as(&self.snapshot[i - 1].0.address),
                None => false,
            };
            if !ok {
                return false;
            }
            i = i + 1;
        }
        true
    }
}

} // verus!
