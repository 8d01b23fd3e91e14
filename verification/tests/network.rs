use wholesum::network::{
    BLOB_REQUEST_TIMEOUT_SECS, BLOB_TRANSFER_PROTOCOL, GOSSIPSUB_HEARTBEAT_SECS,
    IDENTIFY_PROTOCOL, IDLE_CONNECTION_TIMEOUT_SECS, KADEMLIA_PROTOCOL,
    KADEMLIA_QUERY_TIMEOUT_SECS, QUIC_HANDSHAKE_TIMEOUT_SECS, REQUEST_RESPONSE_PROTOCOL,
};
use wholesum::protocol::{
    ComputeJob, ELFKind, InputToken, JobKind, NeedKind, ProofKind, ProofToken, ProveDetails,
    Request, Response, SP1Op,
};

#[test]
fn protocol_names() {
    assert_eq!(IDENTIFY_PROTOCOL, "/wholesum/identify/1.0");
    assert_eq!(KADEMLIA_PROTOCOL, "/wholesum/kad/1.0");
    assert_eq!(REQUEST_RESPONSE_PROTOCOL, "/wholesum/req_resp/1.0");
    assert_eq!(BLOB_TRANSFER_PROTOCOL, "/wholesum/blob_transfer/1.0");
}

#[test]
fn timeouts() {
    assert_eq!(GOSSIPSUB_HEARTBEAT_SECS, 10);
    assert_eq!(BLOB_REQUEST_TIMEOUT_SECS, 60);
    assert_eq!(KADEMLIA_QUERY_TIMEOUT_SECS, 5 * 60);
    assert_eq!(IDLE_CONNECTION_TIMEOUT_SECS, 60);
    assert_eq!(QUIC_HANDSHAKE_TIMEOUT_SECS, 20);
}

#[test]
fn protocol_messages_compare_by_value() {
    let token = InputToken { hash: 7, owner: vec![1, 2] };
    let details = ProveDetails { id: 3, elf_kind: ELFKind::Subblock, tokens: vec![token.clone()] };
    let job = ComputeJob { id: 11, kind: JobKind::SP1(SP1Op::Prove(details.clone())) };
    assert_eq!(Response::Job(job), Response::Job(ComputeJob { id: 11, kind: JobKind::SP1(SP1Op::Prove(details)) }));
    let proof = ProofToken { job_id: 11, kind: ProofKind::Agg(3), hash: 99 };
    assert_eq!(Request::ProofIsReady(proof.clone()), Request::ProofIsReady(proof));
    assert_ne!(Request::Would, Request::ProofIsReady(ProofToken { job_id: 1, kind: ProofKind::Subblock(1), hash: 2 }));
    assert_eq!(NeedKind::Prove(2), NeedKind::Prove(2));
    assert_ne!(ELFKind::Subblock, ELFKind::Agg);
}
