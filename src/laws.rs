//! Properties of the handshake that hold across steps and across agents.

use vstd::prelude::*;
use crate::address::Address;
use crate::handshake::{
    AcceptOfferRequest, AcceptOfferStep, Attestation, ChainHeader, OfferResponse, accept_outcome,
    conclude_outcome, header_unchanged, receive_outcome, record_outcome, wire_response,
};
use crate::offer::{
    Offer, OfferError, OfferState, latest_offer, legal_transition, lemma_with_state, state_of,
    with_state,
};

verus! {

/// `after` is `before`, or `before` with the offer of `tx` superseded by one
/// of the same transaction whose state follows a legal edge of the lifecycle.
pub open spec fn moves_legally(before: Seq<Offer>, after: Seq<Offer>, tx: Seq<char>) -> bool {
    after == before || exists|s: OfferState|
        #![trigger with_state(before, tx, s)]
        latest_offer(before, tx) is Some && legal_transition(
            latest_offer(before, tx).unwrap().state,
            s,
        ) && after == with_state(before, tx, s)
}

/// Every step of the handshake leaves the offer as it was or moves it along
/// the lifecycle: Pending to Approved, Approved to Completed, Canceled or back
/// to Pending. Accepting an offer that is not Pending fails with
/// `InvalidState` and changes nothing.
pub proof fn lemma_steps_follow_lifecycle(
    records: Seq<Offer>,
    tx: Address,
    approved: Address,
    reply: Result<OfferResponse, OfferError>,
    me: Address,
    sender: Address,
    request: AcceptOfferRequest,
    head: Address,
    attestation: Address,
)
    ensures
        moves_legally(records, accept_outcome(records, tx, approved).0, tx@),
        moves_legally(records, conclude_outcome(records, tx, reply).0, tx@),
        moves_legally(
            records,
            receive_outcome(records, me, sender, request, head).0,
            request.transaction_address@,
        ),
        moves_legally(records, record_outcome(records, tx, attestation).0, tx@),
        state_of(records, tx@) matches Some(s) && !(s is Pending) ==> accept_outcome(
            records,
            tx,
            approved,
        ) == (records, Err::<AcceptOfferRequest, OfferError>(OfferError::InvalidState)),
{
    let a = accept_outcome(records, tx, approved).0;
    if a != records {
        let s = OfferState::Approved { approved_header_address: Some(approved) };
        assert(with_state(records, tx@, s) == a);
    }
    let c = conclude_outcome(records, tx, reply).0;
    if c != records {
        let s = crate::handshake::reply_state(reply);
        assert(with_state(records, tx@, s) == c);
    }
    let r = receive_outcome(records, me, sender, request, head).0;
    if r != records {
        assert(with_state(records, request.transaction_address@, OfferState::Canceled) == r);
    }
    let d = record_outcome(records, tx, attestation).0;
    if d != records {
        let s = OfferState::Completed { attestation_address: attestation };
        assert(with_state(records, tx@, s) == d);
    }
}

/// An accept-offer request for a canceled offer, from its counterparty, is
/// answered `OfferCanceled` and changes nothing; so a second one is answered
/// the same way.
pub proof fn lemma_canceled_is_idempotent(
    records: Seq<Offer>,
    me: Address,
    sender: Address,
    request: AcceptOfferRequest,
    head: Address,
)
    requires
        state_of(records, request.transaction_address@) == Some(OfferState::Canceled),
        sender@ == latest_offer(records, request.transaction_address@).unwrap().transaction.counterparty_of(me@),
    ensures
        receive_outcome(records, me, sender, request, head) == (
            records,
            Ok::<AcceptOfferStep, OfferError>(AcceptOfferStep::Respond(OfferResponse::OfferCanceled)),
        ),
        receive_outcome(receive_outcome(records, me, sender, request, head).0, me, sender, request, head)
            == receive_outcome(records, me, sender, request, head),
{
}

/// Attestations built from the same headers and signature are equal, and so
/// are the identifiers that content addressing gives them.
pub proof fn lemma_attestation_deterministic(
    first: Attestation,
    second: Attestation,
    chain_headers: Seq<ChainHeader>,
    signature: Seq<char>,
)
    requires
        first@ == (chain_headers, signature),
        second@ == (chain_headers, signature),
    ensures
        first@ == second@,
{
}

/// If the responder's log head is no longer the head recorded at approval, the
/// request fails with `ConflictError`, the offer becomes Canceled, and the
/// initiator is told `OfferCanceled`.
pub proof fn lemma_anti_tamper(
    records: Seq<Offer>,
    me: Address,
    sender: Address,
    request: AcceptOfferRequest,
    head: Address,
)
    requires
        state_of(records, request.transaction_address@) matches Some(s) && s is Approved,
        sender@ == latest_offer(records, request.transaction_address@).unwrap().transaction.counterparty_of(me@),
        !header_unchanged(request.approved_header_address, head),
    ensures
        receive_outcome(records, me, sender, request, head).1 == Err::<AcceptOfferStep, OfferError>(
            OfferError::ConflictError,
        ),
        state_of(receive_outcome(records, me, sender, request, head).0, request.transaction_address@)
            == Some(OfferState::Canceled),
        wire_response(Err(OfferError::ConflictError)) == Ok::<OfferResponse, OfferError>(
            OfferResponse::OfferCanceled,
        ),
{
    lemma_with_state(records, request.transaction_address@, OfferState::Canceled, request.transaction_address@);
}

/// A full handshake: the initiator accepts its pending offer with its log head,
/// the responder (whose offer is approved and whose log head is unchanged)
/// commits, stores the attestation under `attestation`, and replies. Both
/// offers end Completed with that same attestation, and the initiator's call
/// succeeds.
pub proof fn lemma_handshake_round_trip(
    initiator_records: Seq<Offer>,
    responder_records: Seq<Offer>,
    tx: Address,
    initiator: Address,
    responder: Address,
    approved: Address,
    responder_head: Address,
    attestation: Address,
)
    requires
        state_of(initiator_records, tx@) == Some(OfferState::Pending),
        state_of(responder_records, tx@) matches Some(s) && s is Approved,
        initiator@ == latest_offer(responder_records, tx@).unwrap().transaction.counterparty_of(responder@),
        header_unchanged(approved, responder_head),
    ensures
        ({
            let (initiator_after_accept, request) = accept_outcome(initiator_records, tx, approved);
            let (responder_after_receive, step) = receive_outcome(
                responder_records,
                responder,
                initiator,
                request.unwrap(),
                responder_head,
            );
            let (responder_after, reply) = record_outcome(responder_after_receive, tx, attestation);
            let (initiator_after, result) = conclude_outcome(
                initiator_after_accept,
                tx,
                wire_response(reply),
            );
            &&& request is Ok
            &&& step matches Ok(AcceptOfferStep::CommitTransaction(t)) && t.address@ == tx@
            &&& result == Ok::<(), OfferError>(())
            &&& state_of(initiator_after, tx@) == Some(
                OfferState::Completed { attestation_address: attestation },
            )
            &&& state_of(responder_after, tx@) == Some(
                OfferState::Completed { attestation_address: attestation },
            )
        }),
{
    let s = OfferState::Approved { approved_header_address: Some(approved) };
    lemma_with_state(initiator_records, tx@, s, tx@);
    crate::offer::lemma_latest_offer_matches(responder_records, tx@);
    let done = OfferState::Completed { attestation_address: attestation };
    lemma_with_state(responder_records, tx@, done, tx@);
    lemma_with_state(with_state(initiator_records, tx@, s), tx@, done, tx@);
}

} // verus!
