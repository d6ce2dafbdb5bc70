use transactor::address::Address;
use transactor::handshake::{
    accept_offer, complete_transaction, conclude_accept_offer, create_attestation, offer_response,
    receive_accept_offer, record_attestation, validate_last_header_still_unchanged,
    AcceptOfferRequest, AcceptOfferStep, ChainHeader, CompleteTransactionResponse, OfferResponse,
};
use transactor::offer::{Offer, OfferError, OfferState, OfferStore, Transaction};

fn addr(s: &str) -> Address {
    Address::new(s.to_string())
}

fn transaction(id: &str) -> Transaction {
    Transaction { address: addr(id), creditor_address: addr("alice"), debtor_address: addr("bob") }
}

fn store_with(id: &str, state: OfferState) -> OfferStore {
    let mut store = OfferStore::new();
    store.commit_offer(Offer { transaction: transaction(id), state });
    store
}

fn state(store: &OfferStore, id: &str) -> OfferState {
    store.query_offer(&addr(id)).unwrap().state
}

fn approved(h: &str) -> OfferState {
    OfferState::Approved { approved_header_address: Some(addr(h)) }
}

fn signed_reply() -> CompleteTransactionResponse {
    CompleteTransactionResponse::Signed {
        chain_headers: vec![
            ChainHeader { address: addr("HB"), previous_address: Some(addr("H1")) },
            ChainHeader { address: addr("HA"), previous_address: Some(addr("H0")) },
        ],
        signature: "sig".to_string(),
    }
}

fn is_completed_with(s: &OfferState, a: &str) -> bool {
    matches!(s, OfferState::Completed { attestation_address } if *attestation_address == addr(a))
}

#[test]
fn full_handshake_completes_both_sides() {
    let mut alice = store_with("T1", OfferState::Pending);
    let mut bob = store_with("T1", approved("H1"));

    let request = accept_offer(&mut alice, &addr("T1"), &addr("H1")).unwrap();
    assert_eq!(request.transaction_address, addr("T1"));
    assert_eq!(request.approved_header_address, addr("H1"));
    assert!(matches!(state(&alice, "T1"), OfferState::Approved { approved_header_address: Some(h) } if h == addr("H1")));

    let step = receive_accept_offer(&mut bob, &addr("bob"), &addr("alice"), &request, &addr("H1")).unwrap();
    match step {
        AcceptOfferStep::CommitTransaction(t) => assert_eq!(t.address, addr("T1")),
        _ => panic!("expected a commit"),
    }

    let attestation = complete_transaction(&mut bob, &addr("T1"), &signed_reply()).unwrap();
    assert_eq!(attestation.chain_headers.len(), 2);
    assert_eq!(attestation.chain_headers[0].address, addr("HB"));
    assert_eq!(attestation.signature, "sig");

    let reply = record_attestation(&mut bob, &addr("T1"), &addr("A1"));
    let wire = offer_response(reply);
    assert!(matches!(&wire, Ok(OfferResponse::OfferCompleted(a)) if *a == addr("A1")));

    assert_eq!(conclude_accept_offer(&mut alice, &addr("T1"), wire), Ok(()));
    assert!(is_completed_with(&state(&alice, "T1"), "A1"));
    assert!(is_completed_with(&state(&bob, "T1"), "A1"));
}

#[test]
fn advanced_log_head_cancels_both_sides() {
    let mut alice = store_with("T1", OfferState::Pending);
    let mut bob = store_with("T1", approved("H1"));

    let request = accept_offer(&mut alice, &addr("T1"), &addr("H1")).unwrap();
    let result = receive_accept_offer(&mut bob, &addr("bob"), &addr("alice"), &request, &addr("H2"));
    assert!(matches!(result, Err(OfferError::ConflictError)));
    assert!(matches!(state(&bob, "T1"), OfferState::Canceled));

    let wire = offer_response(Err(OfferError::ConflictError));
    assert!(matches!(wire, Ok(OfferResponse::OfferCanceled)));
    assert_eq!(conclude_accept_offer(&mut alice, &addr("T1"), wire), Err(OfferError::CancelError));
    assert!(matches!(state(&alice, "T1"), OfferState::Canceled));
}

#[test]
fn responder_not_yet_approved_reverts_initiator_to_pending() {
    let mut alice = store_with("T1", OfferState::Pending);
    let mut bob = store_with("T1", OfferState::Pending);

    let request = accept_offer(&mut alice, &addr("T1"), &addr("H1")).unwrap();
    let result = receive_accept_offer(&mut bob, &addr("bob"), &addr("alice"), &request, &addr("H1"));
    assert!(matches!(result, Err(OfferError::InvalidState)));
    assert!(matches!(state(&bob, "T1"), OfferState::Pending));

    let wire = offer_response(Err(OfferError::InvalidState));
    assert!(matches!(wire, Ok(OfferResponse::OfferPending)));
    assert_eq!(conclude_accept_offer(&mut alice, &addr("T1"), wire), Err(OfferError::RetryableError));
    assert!(matches!(state(&alice, "T1"), OfferState::Pending));
}

#[test]
fn accept_refused_unless_pending() {
    let others = vec![
        OfferState::Received,
        OfferState::Canceled,
        approved("H0"),
        OfferState::Completed { attestation_address: addr("A0") },
    ];
    for s in others {
        let mut store = store_with("T1", s.clone());
        let before = store.len();
        assert!(matches!(accept_offer(&mut store, &addr("T1"), &addr("H1")), Err(OfferError::InvalidState)));
        assert_eq!(store.len(), before);
        assert_eq!(format!("{:?}", state(&store, "T1")), format!("{:?}", s));
    }
}

#[test]
fn accept_unknown_offer_is_not_found() {
    let mut store = store_with("T1", OfferState::Pending);
    assert!(matches!(accept_offer(&mut store, &addr("T9"), &addr("H1")), Err(OfferError::NotFound)));
    assert_eq!(store.len(), 1);
}

#[test]
fn canceled_offer_answers_canceled_twice() {
    let mut bob = store_with("T1", OfferState::Canceled);
    let request = AcceptOfferRequest { transaction_address: addr("T1"), approved_header_address: addr("H1") };
    for _ in 0..2 {
        let r = receive_accept_offer(&mut bob, &addr("bob"), &addr("alice"), &request, &addr("H1"));
        assert!(matches!(r, Ok(AcceptOfferStep::Respond(OfferResponse::OfferCanceled))));
        assert_eq!(bob.len(), 1);
    }
}

#[test]
fn stranger_cannot_drive_the_offer() {
    let mut bob = store_with("T1", approved("H1"));
    let request = AcceptOfferRequest { transaction_address: addr("T1"), approved_header_address: addr("H1") };
    let r = receive_accept_offer(&mut bob, &addr("bob"), &addr("mallory"), &request, &addr("H1"));
    assert!(matches!(r, Err(OfferError::AuthorizationError)));
    assert!(matches!(state(&bob, "T1"), OfferState::Approved { .. }));
}

#[test]
fn receive_for_unknown_offer_is_not_found() {
    let mut bob = store_with("T1", approved("H1"));
    let request = AcceptOfferRequest { transaction_address: addr("T2"), approved_header_address: addr("H1") };
    let r = receive_accept_offer(&mut bob, &addr("bob"), &addr("alice"), &request, &addr("H1"));
    assert!(matches!(r, Err(OfferError::NotFound)));
}

#[test]
fn attestation_is_deterministic() {
    let headers = vec![ChainHeader { address: addr("HA"), previous_address: None }];
    let a = create_attestation(&headers, &"sig".to_string());
    let b = create_attestation(&headers, &"sig".to_string());
    assert_eq!(format!("{:?}", a), format!("{:?}", b));
    assert_eq!(a.chain_headers[0].address, addr("HA"));
    assert_eq!(a.signature, "sig");
}

#[test]
fn counterparty_cancel_during_completion_cancels() {
    let mut bob = store_with("T1", approved("H1"));
    let r = complete_transaction(&mut bob, &addr("T1"), &CompleteTransactionResponse::OfferCanceled);
    assert!(matches!(r, Err(OfferError::CancelError)));
    assert!(matches!(state(&bob, "T1"), OfferState::Canceled));
    assert!(matches!(offer_response(Err(OfferError::CancelError)), Ok(OfferResponse::OfferCanceled)));
}

#[test]
fn failed_completion_reply_leaves_offer_approved() {
    let mut bob = store_with("T1", approved("H1"));
    let r = complete_transaction(&mut bob, &addr("T1"), &CompleteTransactionResponse::Failed);
    assert!(matches!(r, Err(OfferError::TransportError)));
    assert!(matches!(state(&bob, "T1"), OfferState::Approved { .. }));
    assert_eq!(bob.len(), 1);
}

#[test]
fn transport_failure_reverts_initiator_to_pending() {
    let mut alice = store_with("T1", OfferState::Pending);
    accept_offer(&mut alice, &addr("T1"), &addr("H1")).unwrap();
    let r = conclude_accept_offer(&mut alice, &addr("T1"), Err(OfferError::TransportError));
    assert_eq!(r, Err(OfferError::TransportError));
    assert!(matches!(state(&alice, "T1"), OfferState::Pending));
    assert!(matches!(offer_response(Err(OfferError::TransportError)), Err(OfferError::TransportError)));
}

#[test]
fn conclude_requires_approved_offer() {
    let mut alice = store_with("T1", OfferState::Pending);
    let r = conclude_accept_offer(&mut alice, &addr("T1"), Ok(OfferResponse::OfferCompleted(addr("A1"))));
    assert_eq!(r, Err(OfferError::InvalidState));
    assert!(matches!(state(&alice, "T1"), OfferState::Pending));
}

#[test]
fn record_attestation_requires_approved_offer() {
    let mut bob = store_with("T1", OfferState::Canceled);
    assert!(matches!(record_attestation(&mut bob, &addr("T1"), &addr("A1")), Err(OfferError::InvalidState)));
    assert!(matches!(record_attestation(&mut bob, &addr("T2"), &addr("A1")), Err(OfferError::NotFound)));
}

#[test]
fn anti_tamper_check() {
    assert_eq!(validate_last_header_still_unchanged(&addr("H1"), &addr("H1")), Ok(()));
    assert_eq!(validate_last_header_still_unchanged(&addr("H1"), &addr("H2")), Err(OfferError::ConflictError));
}
