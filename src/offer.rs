//! Offers, their states, and the agent's private record store.
//!
//! The store is append-only: changing an offer's state appends a new record,
//! and for each transaction only the most recently appended record counts.

use vstd::prelude::*;
use crate::address::Address;

verus! {

/// Why an operation on an offer did not go through.
#[derive(Debug, Clone, Copy, PartialEq, Eq, Structural)]
pub enum OfferError {
    /// No offer is recorded for the transaction.
    NotFound,
    /// The operation is not legal in the offer's current state.
    InvalidState,
    /// The sender is not the counterparty of the transaction.
    AuthorizationError,
    /// The log advanced since the offer was approved.
    ConflictError,
    /// The counterparty canceled the offer.
    CancelError,
    /// The counterparty is not ready yet; the call may be made again later.
    RetryableError,
    /// The messaging layer failed or brought back an unrecognized reply.
    TransportError,
}

/// The settlement transaction that an offer wraps. Immutable once created.
#[derive(Debug, Clone)]
pub struct Transaction {
    /// Content identifier of the transaction.
    pub address: Address,
    pub creditor_address: Address,
    pub debtor_address: Address,
}

impl Transaction {
    /// The participant that is not `me`.
    pub open spec fn counterparty_of(&self, me: Seq<char>) -> Seq<char> {
        if self.creditor_address@ == me {
            self.debtor_address@
        } else {
            self.creditor_address@
        }
    }

    /// Resolves the other participant of the transaction, as seen by agent `me`.
    pub fn get_counterparty(&self, me: &Address) -> (r: Address)
        ensures
            r@ == self.counterparty_of(me@),
    {
        if self.creditor_address.same_as(me) {
            self.debtor_address.duplicate()
        } else {
            self.creditor_address.duplicate()
        }
    }

    pub fn duplicate(&self) -> (r: Transaction)
        ensures
            r == *self,
    {
        Transaction {
            address: self.address.duplicate(),
            creditor_address: self.creditor_address.duplicate(),
            debtor_address: self.debtor_address.duplicate(),
        }
    }
}

/// Where an offer stands in its lifecycle.
#[derive(Debug, Clone)]
pub enum OfferState {
    Received,
    Pending,
    Canceled,
    Approved { approved_header_address: Option<Address> },
    Completed { attestation_address: Address },
}

impl OfferState {
    pub fn duplicate(&self) -> (r: OfferState)
        ensures
            r == *self,
    {
        match self {
            OfferState::Received => OfferState::Received,
            OfferState::Pending => OfferState::Pending,
            OfferState::Canceled => OfferState::Canceled,
            OfferState::Approved { approved_header_address } => OfferState::Approved {
                approved_header_address: match approved_header_address {
                    Some(a) => Some(a.duplicate()),
                    None => None,
                },
            },
            OfferState::Completed { attestation_address } => OfferState::Completed {
                attestation_address: attestation_address.duplicate(),
            },
        }
    }
}

/// Whether the offer lifecycle allows moving from `from` to `to`.
/// Completed and Canceled are terminal: nothing leaves them.
pub open spec fn legal_transition(from: OfferState, to: OfferState) -> bool {
    match from {
        OfferState::Pending => to is Approved,
        OfferState::Approved { .. } => to is Completed || to is Canceled || to is Pending,
        _ => false,
    }
}

/// One agent's private view of a transaction being settled.
#[derive(Debug, Clone)]
pub struct Offer {
    pub transaction: Transaction,
    pub state: OfferState,
}

impl Offer {
    /// Name under which offer records are kept in the store.
    pub fn entry_type() -> (r: String)
        ensures
            r@ == seq!['o', 'f', 'f', 'e', 'r'],
    {
        let r = String::from_str("offer");
        proof {
            reveal_strlit("offer");
        }
        r
    }

    pub fn duplicate(&self) -> (r: Offer)
        ensures
            r == *self,
    {
        Offer { transaction: self.transaction.duplicate(), state: self.state.duplicate() }
    }
}

/// The offer that counts for transaction `tx`: the last record appended for it.
pub open spec fn latest_offer(records: Seq<Offer>, tx: Seq<char>) -> Option<Offer>
    decreases records.len(),
{
    if records.len() == 0 {
        None
    } else if records.last().transaction.address@ == tx {
        Some(records.last())
    } else {
        latest_offer(records.drop_last(), tx)
    }
}

/// The records after the offer of `tx` is superseded by one in state `state`.
pub open spec fn with_state(records: Seq<Offer>, tx: Seq<char>, state: OfferState) -> Seq<Offer> {
    records.push(Offer { transaction: latest_offer(records, tx).unwrap().transaction, state })
}

/// The state in which the offer of `tx` stands, if there is one.
pub open spec fn state_of(records: Seq<Offer>, tx: Seq<char>) -> Option<OfferState> {
    match latest_offer(records, tx) {
        Some(o) => Some(o.state),
        None => None,
    }
}

/// A recorded offer is recorded under its own transaction's identifier.
pub proof fn lemma_latest_offer_matches(records: Seq<Offer>, tx: Seq<char>)
    ensures
        latest_offer(records, tx) matches Some(o) ==> o.transaction.address@ == tx,
    decreases records.len(),
{
    if records.len() > 0 && records.last().transaction.address@ != tx {
        lemma_latest_offer_matches(records.drop_last(), tx);
    }
}

/// Superseding the offer of one transaction sets its state and leaves every
/// other transaction's offer as it was.
pub proof fn lemma_with_state(records: Seq<Offer>, tx: Seq<char>, state: OfferState, other: Seq<char>)
    requires
        latest_offer(records, tx) is Some,
    ensures
        state_of(with_state(records, tx, state), tx) == Some(state),
        latest_offer(with_state(records, tx, state), tx) == Some(
            Offer { transaction: latest_offer(records, tx).unwrap().transaction, state },
        ),
        other != tx ==> latest_offer(with_state(records, tx, state), other) == latest_offer(
            records,
            other,
        ),
{
    lemma_latest_offer_matches(records, tx);
    let r = with_state(records, tx, state);
    assert(r.drop_last() =~= records);
}

/// A record with no later record of the same transaction is the one that counts.
pub proof fn lemma_latest_at(records: Seq<Offer>, j: int)
    requires
        0 <= j < records.len(),
        forall|m: int|
            j < m < records.len() ==> records[m].transaction.address@
                != records[j].transaction.address@,
    ensures
        latest_offer(records, records[j].transaction.address@) == Some(records[j]),
    decreases records.len(),
{
    if j < records.len() - 1 {
        let d = records.drop_last();
        assert forall|m: int| j < m < d.len() implies d[m].transaction.address@
            != d[j].transaction.address@ by {
            assert(d[m] == records[m]);
        }
        lemma_latest_at(d, j);
    }
}

/// Whether some entry of `listed` is keyed by transaction `tx`.
pub open spec fn lists(listed: Seq<(Address, Offer)>, tx: Seq<char>) -> bool {
    exists|k: int| 0 <= k < listed.len() && #[trigger] listed[k].0@ == tx
}

/// The agent's private, append-only store of offer records.
pub struct OfferStore {
    records: Vec<Offer>,
}

impl OfferStore {
    /// Every record appended so far, oldest first.
    pub closed spec fn view(&self) -> Seq<Offer> {
        self.records@
    }

    pub fn new() -> (r: OfferStore)
        ensures
            r@ == Seq::<Offer>::empty(),
    {
        OfferStore { records: Vec::new() }
    }

    /// Appends a record; it supersedes any earlier record of the same transaction.
    pub fn commit_offer(&mut self, offer: Offer)
        ensures
            final(self)@ == old(self)@.push(offer),
    {
        self.records.push(offer);
    }

    /// Number of records appended so far.
    pub fn len(&self) -> (r: usize)
        ensures
            r == self@.len(),
    {
        self.records.len()
    }

    /// Every transaction with an offer, once, with the offer that counts for it.
    pub fn query_my_offers(&self) -> (r: Vec<(Address, Offer)>)
        ensures
            forall|k: int|
                0 <= k < r@.len() ==> r@[k].0@ == r@[k].1.transaction.address@ && latest_offer(
                    self@,
                    r@[k].0@,
                ) == Some(r@[k].1),
            forall|j: int, k: int| 0 <= j < k < r@.len() ==> r@[j].0@ != r@[k].0@,
            forall|m: int| 0 <= m < self@.len() ==> lists(r@, self@[m].transaction.address@),
    {
        let mut listed: Vec<(Address, Offer)> = Vec::new();
        let mut i: usize = self.records.len();
        while i > 0
            invariant
                i <= self.records@.len(),
                forall|k: int|
                    0 <= k < listed@.len() ==> listed@[k].0@ == listed@[k].1.transaction.address@
                        && latest_offer(self.records@, listed@[k].0@) == Some(listed@[k].1),
                forall|j: int, k: int| 0 <= j < k < listed@.len() ==> listed@[j].0@ != listed@[k].0@,
                forall|m: int|
                    i <= m < self.records@.len() ==> lists(
                        listed@,
                        self.records@[m].transaction.address@,
                    ),
                forall|k: int|
                    #![trigger listed@[k]]
                    0 <= k < listed@.len() ==> exists|m: int|
                        i <= m < self.records@.len() && #[trigger] self.records@[m].transaction.address@
                            == listed@[k].0@,
            decreases i,
        {
            let rec = &self.records[i - 1];
            let mut k: usize = 0;
            let mut seen = false;
            while k < listed.len()
                invariant
                    k <= listed@.len(),
                    seen ==> lists(listed@, rec.transaction.address@),
                    !seen ==> forall|q: int| 0 <= q < k ==> listed@[q].0@ != rec.transaction.address@,
                decreases listed@.len() - k,
            {
                if listed[k].0.same_as(&rec.transaction.address) {
                    seen = true;
                }
                k = k + 1;
            }
            if !seen {
                proof {
                    let j = i - 1;
                    assert forall|m: int|
                        j < m < self.records@.len() implies self.records@[m].transaction.address@
                            != self.records@[j].transaction.address@ by {
                        if self.records@[m].transaction.address@ == self.records@[j].transaction.address@ {
                            assert(lists(listed@, self.records@[m].transaction.address@));
                        }
                    }
                    lemma_latest_at(self.records@, j);
                }
                let old_listed = Ghost(listed@);
                listed.push((rec.transaction.address.duplicate(), rec.duplicate()));
                proof {
                    assert forall|m: int|
                        i - 1 <= m < self.records@.len() implies lists(
                        listed@,
                        self.records@[m].transaction.address@,
                    ) by {
                        if m == i - 1 {
                            assert(listed@[listed@.len() - 1].0@ == self.records@[m].transaction.address@);
                        } else {
                            let k0 = choose|k0: int| 0 <= k0 < old_listed@.len() && #[trigger] old_listed@[k0].0@ == self.records@[m].transaction.address@;
                            assert(listed@[k0] == old_listed@[k0]);
                        }
                    }
                    assert forall|k0: int| #![trigger listed@[k0]] 0 <= k0 < listed@.len() implies exists|m: int|
                        i - 1 <= m < self.records@.len() && #[trigger] self.records@[m].transaction.address@
                            == listed@[k0].0@ by {
                        if k0 == listed@.len() - 1 {
                            assert(self.records@[i - 1].transaction.address@ == listed@[k0].0@);
                        } else {
                            assert(listed@[k0] == old_listed@[k0]);
                        }
                    }
                }
            } else {
                proof {
                    assert forall|k0: int| #![trigger listed@[k0]] 0 <= k0 < listed@.len() implies exists|m: int|
                        i - 1 <= m < self.records@.len() && #[trigger] self.records@[m].transaction.address@
                            == listed@[k0].0@ by {
                    }
                }
            }
            i = i - 1;
        }
        listed
    }

    /// The offer that counts for the given transaction: the last one recorded.
    pub fn query_offer(&self, transaction_address: &Address) -> (r: Result<Offer, OfferError>)
        ensures
            match latest_offer(self@, transaction_address@) {
                Some(o) => r == Ok::<Offer, OfferError>(o),
                None => r == Err::<Offer, OfferError>(OfferError::NotFound),
            },
    {
        let mut i: usize = self.records.len();
        assert(self.records@.take(i as int) =~= self.records@);
        while i > 0
            invariant
                i <= self.records@.len(),
                latest_offer(self.records@.take(i as int), transaction_address@) == latest_offer(
                    self.records@,
                    transaction_address@,
                ),
            decreases i,
        {
            let rec = &self.records[i - 1];
            assert(self.records@.take(i as int).drop_last() =~= self.records@.take(i - 1));
            if rec.transaction.address.same_as(transaction_address) {
                return Ok(rec.duplicate());
            }
            i = i - 1;
        }
        Err(OfferError::NotFound)
    }

    /// Supersedes the offer of the given transaction with one in the given state.
    /// No transition rule is enforced here: callers move only along legal edges.
    pub fn update_offer_state(&mut self, transaction_address: &Address, offer_state: OfferState) -> (r: Result<(), OfferError>)
        ensures
            latest_offer(old(self)@, transaction_address@) is Some ==> r is Ok && final(self)@
                == with_state(old(self)@, transaction_address@, offer_state),
            latest_offer(old(self)@, transaction_address@) is None ==> r == Err::<(), OfferError>(
                OfferError::NotFound,
            ) && final(self)@ == old(self)@,
    {
        let offer = self.query_offer(transaction_address)?;
        self.records.push(Offer { transaction: offer.transaction, state: offer_state });
        Ok(())
    }

    /// Moves the offer of the given transaction to Canceled.
    pub fn cancel_offer(&mut self, transaction_address: &Address) -> (r: Result<(), OfferError>)
        ensures
            latest_offer(old(self)@, transaction_address@) is Some ==> r is Ok && final(self)@
                == with_state(old(self)@, transaction_address@, OfferState::Canceled),
            latest_offer(old(self)@, transaction_address@) is None ==> r == Err::<(), OfferError>(
                OfferError::NotFound,
            ) && final(self)@ == old(self)@,
    {
        self.update_offer_state(transaction_address, OfferState::Canceled)
    }

    /// Moves the offer of the given transaction to Approved, recording the log head.
    pub fn approve_offer(&mut self, transaction_address: &Address, approved_header_address: &Option<Address>) -> (r: Result<(), OfferError>)
        ensures
            latest_offer(old(self)@, transaction_address@) is Some ==> r is Ok && final(self)@
                == with_state(
                old(self)@,
                transaction_address@,
                OfferState::Approved { approved_header_address: *approved_header_address },
            ),
            latest_offer(old(self)@, transaction_address@) is None ==> r == Err::<(), OfferError>(
                OfferError::NotFound,
            ) && final(self)@ == old(self)@,
    {
        let h = match approved_header_address {
            Some(a) => Some(a.duplicate()),
            None => None,
        };
        self.update_offer_state(transaction_address, OfferState::Approved { approved_header_address: h })
    }

    /// Moves the offer of the given transaction to Completed with its attestation.
    pub fn complete_offer(&mut self, transaction_address: &Address, attestation_address: &Address) -> (r: Result<(), OfferError>)
        ensures
            latest_offer(old(self)@, transaction_address@) is Some ==> r is Ok && final(self)@
                == with_state(
                old(self)@,
                transaction_address@,
                OfferState::Completed { attestation_address: *attestation_address },
            ),
            latest_offer(old(self)@, transaction_address@) is None ==> r == Err::<(), OfferError>(
                OfferError::NotFound,
            ) && final(self)@ == old(self)@,
    {
        self.update_offer_state(
            transaction_address,
            OfferState::Completed { attestation_address: attestation_address.duplicate() },
        )
    }
}

} // verus!
