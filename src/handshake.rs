//! The accept-offer handshake between two agents.
//!
//! Each agent keeps its own private offer store and its own append-only log;
//! nothing is shared but the messages. The functions here make every decision
//! of the protocol: they take the store, the message or reply that came in and
//! the facts read from the agent's log, update the store, and return what the
//! host must do next (send a request, commit the transaction, reply). The host
//! performs the messaging and log writes in between.
//!
//! Initiator: `accept_offer` approves a pending offer and yields the
//! `AcceptOfferRequest` to send; `conclude_accept_offer` applies the reply.
//! Responder: `receive_accept_offer` authorizes and checks the request and asks
//! for the transaction to be committed; `complete_transaction` turns the
//! counterparty's signed reply into an `Attestation`; `record_attestation`
//! marks the offer Completed; `offer_response` gives the reply on the wire.

use vstd::prelude::*;
use crate::address::Address;
use crate::offer::{
    Offer, OfferError, OfferState, OfferStore, Transaction, latest_offer, state_of, with_state,
};

verus! {

/// Asks the counterparty to settle a transaction that this agent approved.
#[derive(Debug, Clone)]
pub struct AcceptOfferRequest {
    pub transaction_address: Address,
    /// Head of the initiator's log when it approved the offer.
    pub approved_header_address: Address,
}

/// Outcome of an accept-offer request, as sent back on the wire.
#[derive(Debug, Clone)]
pub enum OfferResponse {
    OfferCompleted(Address),
    OfferCanceled,
    /// The responder has not approved the offer yet.
    OfferPending,
}

/// A header of an agent's append-only log.
#[derive(Debug, Clone)]
pub struct ChainHeader {
    /// Content identifier of the header.
    pub address: Address,
    /// The header it follows, if any.
    pub previous_address: Option<Address>,
}

impl ChainHeader {
    pub fn duplicate(&self) -> (r: ChainHeader)
        ensures
            r == *self,
    {
        ChainHeader {
            address: self.address.duplicate(),
            previous_address: match &self.previous_address {
                Some(a) => Some(a.duplicate()),
                None => None,
            },
        }
    }
}

/// Sent by the responder, once it committed the transaction, to the initiator.
#[derive(Debug, Clone)]
pub struct CompleteTransactionRequest {
    /// Header of the transaction in the responder's log.
    pub chain_header: ChainHeader,
}

/// The initiator's reply to a `CompleteTransactionRequest`.
#[derive(Debug, Clone)]
pub enum CompleteTransactionResponse {
    /// The initiator committed too and signed the exchanged headers.
    Signed { chain_headers: Vec<ChainHeader>, signature: String },
    OfferCanceled,
    /// The messaging layer failed, or the reply was not recognized.
    Failed,
}

/// Immutable proof that a transaction was settled: the exchanged headers and
/// the signature over them. Its identifier is the content address the store
/// gives it, so equal attestations have equal identifiers.
#[derive(Debug, Clone)]
pub struct Attestation {
    pub chain_headers: Vec<ChainHeader>,
    pub signature: String,
}

impl Attestation {
    pub open spec fn view(&self) -> (Seq<ChainHeader>, Seq<char>) {
        (self.chain_headers@, self.signature@)
    }
}

/// What the responder's host does after an accept-offer request.
#[derive(Debug, Clone)]
pub enum AcceptOfferStep {
    /// Send this reply to the initiator.
    Respond(OfferResponse),
    /// Commit this transaction to the log, then send a
    /// `CompleteTransactionRequest` with its header to the counterparty.
    CommitTransaction(Transaction),
}

/// Outcome of `accept_offer`: the records after it, and its result.
pub open spec fn accept_outcome(records: Seq<Offer>, tx: Address, approved: Address) -> (
    Seq<Offer>,
    Result<AcceptOfferRequest, OfferError>,
) {
    match state_of(records, tx@) {
        None => (records, Err(OfferError::NotFound)),
        Some(OfferState::Pending) => (
            with_state(records, tx@, OfferState::Approved { approved_header_address: Some(approved) }),
            Ok(AcceptOfferRequest { transaction_address: tx, approved_header_address: approved }),
        ),
        Some(_) => (records, Err(OfferError::InvalidState)),
    }
}

/// State the initiator's offer takes on a reply to its accept-offer request.
/// Every outcome but completion and cancelation reverts to Pending.
pub open spec fn reply_state(reply: Result<OfferResponse, OfferError>) -> OfferState {
    match reply {
        Ok(OfferResponse::OfferCompleted(a)) => OfferState::Completed { attestation_address: a },
        Ok(OfferResponse::OfferCanceled) => OfferState::Canceled,
        _ => OfferState::Pending,
    }
}

/// What `conclude_accept_offer` returns for a reply.
pub open spec fn reply_result(reply: Result<OfferResponse, OfferError>) -> Result<(), OfferError> {
    match reply {
        Ok(OfferResponse::OfferCompleted(_)) => Ok(()),
        Ok(OfferResponse::OfferCanceled) => Err(OfferError::CancelError),
        Ok(OfferResponse::OfferPending) => Err(OfferError::RetryableError),
        Err(e) => Err(e),
    }
}

/// Outcome of `conclude_accept_offer`.
pub open spec fn conclude_outcome(
    records: Seq<Offer>,
    tx: Address,
    reply: Result<OfferResponse, OfferError>,
) -> (Seq<Offer>, Result<(), OfferError>) {
    match state_of(records, tx@) {
        None => (records, Err(OfferError::NotFound)),
        Some(OfferState::Approved { .. }) => (
            with_state(records, tx@, reply_state(reply)),
            reply_result(reply),
        ),
        Some(_) => (records, Err(OfferError::InvalidState)),
    }
}

/// Outcome of `receive_accept_offer` for agent `me` with current log head `head`.
pub open spec fn receive_outcome(
    records: Seq<Offer>,
    me: Address,
    sender: Address,
    request: AcceptOfferRequest,
    head: Address,
) -> (Seq<Offer>, Result<AcceptOfferStep, OfferError>) {
    let tx = request.transaction_address@;
    match latest_offer(records, tx) {
        None => (records, Err(OfferError::NotFound)),
        Some(o) => if sender@ != o.transaction.counterparty_of(me@) {
            (records, Err(OfferError::AuthorizationError))
        } else {
            match o.state {
                OfferState::Approved { .. } => if header_unchanged(
                    request.approved_header_address,
                    head,
                ) {
                    (records, Ok(AcceptOfferStep::CommitTransaction(o.transaction)))
                } else {
                    (with_state(records, tx, OfferState::Canceled), Err(OfferError::ConflictError))
                },
                OfferState::Canceled => (
                    records,
                    Ok(AcceptOfferStep::Respond(OfferResponse::OfferCanceled)),
                ),
                _ => (records, Err(OfferError::InvalidState)),
            }
        },
    }
}

/// Outcome of `record_attestation`.
pub open spec fn record_outcome(records: Seq<Offer>, tx: Address, attestation: Address) -> (
    Seq<Offer>,
    Result<OfferResponse, OfferError>,
) {
    match state_of(records, tx@) {
        None => (records, Err(OfferError::NotFound)),
        Some(OfferState::Approved { .. }) => (
            with_state(records, tx@, OfferState::Completed { attestation_address: attestation }),
            Ok(OfferResponse::OfferCompleted(attestation)),
        ),
        Some(_) => (records, Err(OfferError::InvalidState)),
    }
}

/// The reply the responder sends for an accept-offer request, given how
/// handling it ended. An offer that is not approved yet reads as pending;
/// a conflict or a cancelation reads as canceled.
pub open spec fn wire_response(result: Result<OfferResponse, OfferError>) -> Result<
    OfferResponse,
    OfferError,
> {
    match result {
        Err(OfferError::InvalidState) => Ok(OfferResponse::OfferPending),
        Err(OfferError::ConflictError) => Ok(OfferResponse::OfferCanceled),
        Err(OfferError::CancelError) => Ok(OfferResponse::OfferCanceled),
        _ => result,
    }
}

/// The anti-tamper rule: the log head recorded at approval is still the head.
pub open spec fn header_unchanged(recorded: Address, current: Address) -> bool {
    recorded@ == current@
}

/// Checks that the log head recorded at approval is still the current head.
///
/// The check runs on the log of the agent that calls it: the responder compares
/// the head carried in the request with the head of its own log. It therefore
/// catches entries appended to the responder's log since the approval; entries
/// appended to the initiator's log are not caught here.
pub fn validate_last_header_still_unchanged(recorded: &Address, current: &Address) -> (r: Result<(), OfferError>)
    ensures
        header_unchanged(*recorded, *current) ==> r is Ok,
        !header_unchanged(*recorded, *current) ==> r == Err::<(), OfferError>(
            OfferError::ConflictError,
        ),
{
    if recorded.same_as(current) {
        Ok(())
    } else {
        Err(OfferError::ConflictError)
    }
}

/// Packages the exchanged headers and the signature into an attestation.
/// The signature is not checked here.
pub fn create_attestation(chain_headers: &Vec<ChainHeader>, signature: &String) -> (r: Attestation)
    ensures
        r@ == (chain_headers@, signature@),
{
    let mut headers: Vec<ChainHeader> = Vec::new();
    let mut i: usize = 0;
    while i < chain_headers.len()
        invariant
            i <= chain_headers@.len(),
            headers@ == chain_headers@.take(i as int),
        decreases chain_headers@.len() - i,
    {
        headers.push(chain_headers[i].duplicate());
        assert(chain_headers@.take(i + 1) =~= chain_headers@.take(i as int).push(chain_headers@[i as int]));
        i = i + 1;
    }
    assert(chain_headers@.take(i as int) =~= chain_headers@);
    Attestation { chain_headers: headers, signature: signature.clone() }
}

/// Initiator side: approves a pending offer, recording the head of this agent's
/// log, and returns the request to send to the counterparty.
/// An offer that is not Pending is refused with `InvalidState` and left as it is.
pub fn accept_offer(
    store: &mut OfferStore,
    transaction_address: &Address,
    approved_header_address: &Address,
) -> (r: Result<AcceptOfferRequest, OfferError>)
    ensures
        (final(store)@, r) == accept_outcome(
            old(store)@,
            *transaction_address,
            *approved_header_address,
        ),
{
    let offer = match store.query_offer(transaction_address) {
        Ok(o) => o,
        Err(e) => return Err(e),
    };
    match offer.state {
        OfferState::Pending => {
            let approved = Some(approved_header_address.duplicate());
            let _ = store.approve_offer(transaction_address, &approved);
            Ok(AcceptOfferRequest {
                transaction_address: transaction_address.duplicate(),
                approved_header_address: approved_header_address.duplicate(),
            })
        },
        _ => Err(OfferError::InvalidState),
    }
}

/// Initiator side: applies the counterparty's reply (or the transport failure)
/// to the approved offer. Completion completes it, cancelation cancels it, and
/// anything else reverts it to Pending so that the offer can be accepted again.
pub fn conclude_accept_offer(
    store: &mut OfferStore,
    transaction_address: &Address,
    reply: Result<OfferResponse, OfferError>,
) -> (r: Result<(), OfferError>)
    ensures
        (final(store)@, r) == conclude_outcome(old(store)@, *transaction_address, reply),
{
    let offer = match store.query_offer(transaction_address) {
        Ok(o) => o,
        Err(e) => return Err(e),
    };
    match offer.state {
        OfferState::Approved { .. } => {},
        _ => return Err(OfferError::InvalidState),
    }
    match reply {
        Ok(OfferResponse::OfferCompleted(a)) => {
            let _ = store.complete_offer(transaction_address, &a);
            Ok(())
        },
        Ok(OfferResponse::OfferCanceled) => {
            let _ = store.cancel_offer(transaction_address);
            Err(OfferError::CancelError)
        },
        Ok(OfferResponse::OfferPending) => {
            let _ = store.update_offer_state(transaction_address, OfferState::Pending);
            Err(OfferError::RetryableError)
        },
        Err(e) => {
            let _ = store.update_offer_state(transaction_address, OfferState::Pending);
            Err(e)
        },
    }
}

/// Responder side: handles an accept-offer request from `sender`, where `me` is
/// this agent and `current_head` the head of its log.
///
/// Only the transaction's counterparty may send it. An approved offer whose
/// recorded head is still `current_head` asks for the transaction to be
/// committed; if the head moved, the offer is canceled and `ConflictError`
/// returned. A canceled offer answers `OfferCanceled` every time, unchanged.
/// Any other state is not approved yet: `InvalidState`.
pub fn receive_accept_offer(
    store: &mut OfferStore,
    me: &Address,
    sender_address: &Address,
    accept_offer_request: &AcceptOfferRequest,
    current_head: &Address,
) -> (r: Result<AcceptOfferStep, OfferError>)
    ensures
        (final(store)@, r) == receive_outcome(
            old(store)@,
            *me,
            *sender_address,
            *accept_offer_request,
            *current_head,
        ),
{
    let tx = &accept_offer_request.transaction_address;
    let offer = match store.query_offer(tx) {
        Ok(o) => o,
        Err(e) => return Err(e),
    };
    let counterparty = offer.transaction.get_counterparty(me);
    if !sender_address.same_as(&counterparty) {
        return Err(OfferError::AuthorizationError);
    }
    match offer.state {
        OfferState::Approved { .. } => handle_accept_offer(store, offer.transaction, accept_offer_request, current_head),
        OfferState::Canceled => Ok(AcceptOfferStep::Respond(OfferResponse::OfferCanceled)),
        _ => Err(OfferError::InvalidState),
    }
}

/// Handles a request for an offer known to be approved: runs the anti-tamper
/// check, canceling the offer if it fails, and otherwise asks for the commit.
fn handle_accept_offer(
    store: &mut OfferStore,
    transaction: Transaction,
    accept_offer_request: &AcceptOfferRequest,
    current_head: &Address,
) -> (r: Result<AcceptOfferStep, OfferError>)
    requires
        latest_offer(old(store)@, accept_offer_request.transaction_address@) is Some,
    ensures
        header_unchanged(accept_offer_request.approved_header_address, *current_head) ==> final(store)@ == old(store)@ && r == Ok::<AcceptOfferStep, OfferError>(
            AcceptOfferStep::CommitTransaction(transaction),
        ),
        !header_unchanged(accept_offer_request.approved_header_address, *current_head) ==> final(store)@ == with_state(
            old(store)@,
            accept_offer_request.transaction_address@,
            OfferState::Canceled,
        ) && r == Err::<AcceptOfferStep, OfferError>(OfferError::ConflictError),
{
    match validate_last_header_still_unchanged(&accept_offer_request.approved_header_address, current_head) {
        Ok(()) => Ok(AcceptOfferStep::CommitTransaction(transaction)),
        Err(e) => {
            let _ = store.cancel_offer(&accept_offer_request.transaction_address);
            Err(e)
        },
    }
}

/// Responder side: applies the counterparty's reply to the
/// `CompleteTransactionRequest`. A signed reply yields the attestation to
/// store; a cancelation cancels the approved offer; a failure is returned as
/// `TransportError` with the offer left as it is.
pub fn complete_transaction(
    store: &mut OfferStore,
    transaction_address: &Address,
    response: &CompleteTransactionResponse,
) -> (r: Result<Attestation, OfferError>)
    ensures
        state_of(old(store)@, transaction_address@) is None ==> final(store)@ == old(store)@
            && r == Err::<Attestation, OfferError>(OfferError::NotFound),
        (state_of(old(store)@, transaction_address@) matches Some(s) && !(s is Approved)) ==> (final(store)@ == old(store)@ && r == Err::<Attestation, OfferError>(OfferError::InvalidState)),
        (state_of(old(store)@, transaction_address@) matches Some(s) && s is Approved) ==> match *response {
            CompleteTransactionResponse::Signed { chain_headers, signature } => final(store)@
                == old(store)@ && (r matches Ok(a) && a@ == (chain_headers@, signature@)),
            CompleteTransactionResponse::OfferCanceled => final(store)@ == with_state(
                old(store)@,
                transaction_address@,
                OfferState::Canceled,
            ) && r == Err::<Attestation, OfferError>(OfferError::CancelError),
            CompleteTransactionResponse::Failed => final(store)@ == old(store)@ && r == Err::<
                Attestation,
                OfferError,
            >(OfferError::TransportError),
        },
{
    let offer = match store.query_offer(transaction_address) {
        Ok(o) => o,
        Err(e) => return Err(e),
    };
    match offer.state {
        OfferState::Approved { .. } => {},
        _ => return Err(OfferError::InvalidState),
    }
    match response {
        CompleteTransactionResponse::Signed { chain_headers, signature } => Ok(
            create_attestation(chain_headers, signature),
        ),
        CompleteTransactionResponse::OfferCanceled => {
            let _ = store.cancel_offer(transaction_address);
            Err(OfferError::CancelError)
        },
        CompleteTransactionResponse::Failed => Err(OfferError::TransportError),
    }
}

/// Responder side: once the attestation is stored under `attestation_address`,
/// completes the approved offer and returns the reply for the initiator.
pub fn record_attestation(
    store: &mut OfferStore,
    transaction_address: &Address,
    attestation_address: &Address,
) -> (r: Result<OfferResponse, OfferError>)
    ensures
        (final(store)@, r) == record_outcome(
            old(store)@,
            *transaction_address,
            *attestation_address,
        ),
{
    let offer = match store.query_offer(transaction_address) {
        Ok(o) => o,
        Err(e) => return Err(e),
    };
    match offer.state {
        OfferState::Approved { .. } => {
            let _ = store.complete_offer(transaction_address, attestation_address);
            Ok(OfferResponse::OfferCompleted(attestation_address.duplicate()))
        },
        _ => Err(OfferError::InvalidState),
    }
}

/// The reply the responder sends for an accept-offer request, given how its
/// handling ended.
pub fn offer_response(result: Result<OfferResponse, OfferError>) -> (r: Result<OfferResponse, OfferError>)
    ensures
        r == wire_response(result),
{
    match result {
        Err(OfferError::InvalidState) => Ok(OfferResponse::OfferPending),
        Err(OfferError::ConflictError) => Ok(OfferResponse::OfferCanceled),
        Err(OfferError::CancelError) => Ok(OfferResponse::OfferCanceled),
        _ => result,
    }
}

} // verus!
