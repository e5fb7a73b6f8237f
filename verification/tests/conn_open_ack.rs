//! Tests for the Ack step handler: the processing matrix, the concrete
//! success scenario, and one input for every error variant the step can
//! draw.

use ibc_handshake::conn_open_ack::process;
use ibc_handshake::context::ReaderContext;
use ibc_handshake::dispatch::dispatch;
use ibc_handshake::error::Error;
use ibc_handshake::error::ProofArtifact;
use ibc_handshake::error::ProofSubject;
use ibc_handshake::events::IbcEvent;
use ibc_handshake::handler::ConnectionIdState;
use ibc_handshake::handler::ConnectionResult;
use ibc_handshake::mock_context::MockContext;
use ibc_handshake::msgs::ConnectionMsg;
use ibc_handshake::msgs::ConsensusProof;
use ibc_handshake::msgs::MsgConnectionOpenAck;
use ibc_handshake::msgs::Proofs;
use ibc_handshake::types::ClientId;
use ibc_handshake::types::ClientState;
use ibc_handshake::types::CommitmentPrefix;
use ibc_handshake::types::CommitmentProofBytes;
use ibc_handshake::types::ConnectionEnd;
use ibc_handshake::types::ConnectionId;
use ibc_handshake::types::Counterparty;
use ibc_handshake::types::Height;
use ibc_handshake::types::State;
use ibc_handshake::types::Version;

fn dummy_proofs(proof_height: u64, consensus_height: u64) -> Proofs {
    Proofs {
        object_proof: CommitmentProofBytes::from_bytes(vec![1u8]),
        client_proof: Some(CommitmentProofBytes::from_bytes(vec![1u8])),
        consensus_proof: Some(ConsensusProof {
            proof: CommitmentProofBytes::from_bytes(vec![1u8]),
            height: Height::new(0, consensus_height),
        }),
        height: Height::new(0, proof_height),
    }
}

fn dummy_msg_conn_open_ack(proof_height: u64, consensus_height: u64) -> MsgConnectionOpenAck {
    MsgConnectionOpenAck {
        connection_id: ConnectionId::from_str("connection-0"),
        counterparty_connection_id: ConnectionId::from_str("connection-1"),
        version: Version::from_str("1"),
        client_state: Some(ClientState::new("mockgaia", Height::new(0, proof_height))),
        proofs: dummy_proofs(proof_height, consensus_height),
    }
}

/// Host at height 11, client registered at the proof height 10, prefix
/// "ibc", and an Init end proposing the message's version.
fn default_setup() -> (MockContext, ClientId, MsgConnectionOpenAck, ConnectionEnd) {
    let msg_ack = dummy_msg_conn_open_ack(10, 10);
    let client_id = ClientId::from_str("mock_clientid");
    let latest_height = msg_ack.proofs.height().increment();
    let mut ctx = MockContext::new("mockgaia", latest_height);
    ctx.prefix = CommitmentPrefix::from_bytes(b"ibc".to_vec());
    let conn_end = ConnectionEnd::new(
        State::Init,
        client_id.clone(),
        Counterparty::new(
            client_id.clone(),
            Some(msg_ack.counterparty_connection_id.clone()),
            CommitmentPrefix::from_bytes(b"ibc".to_vec()),
        ),
        vec![msg_ack.version.clone()],
        0,
    );
    (ctx, client_id, msg_ack, conn_end)
}

struct Test {
    name: String,
    ctx: MockContext,
    msg: ConnectionMsg,
    want_pass: bool,
    match_error: Box<dyn FnOnce(Error)>,
}

#[test]
fn conn_open_ack_msg_processing() {
    let msg_ack = dummy_msg_conn_open_ack(10, 10);
    let conn_id = msg_ack.connection_id.clone();
    let counterparty_conn_id = msg_ack.counterparty_connection_id.clone();

    // Client parameters -- identifier and correct height (matching the proof height)
    let client_id = ClientId::from_str("mock_clientid");
    let proof_height = msg_ack.proofs.height();

    // Parametrize the host chain to have a height at least as recent as the
    // the height of the proofs in the Ack msg.
    let latest_height = proof_height.increment();
    let mut default_context = MockContext::new("mockgaia", latest_height);
    default_context.prefix = CommitmentPrefix::from_bytes(b"ibc".to_vec());

    // A connection end that will exercise the successful path.
    let default_conn_end = ConnectionEnd::new(
        State::Init,
        client_id.clone(),
        Counterparty::new(
            client_id.clone(),
            Some(msg_ack.counterparty_connection_id.clone()),
            CommitmentPrefix::from_bytes(b"ibc".to_vec()),
        ),
        vec![msg_ack.version.clone()],
        0,
    );

    // A connection end with incorrect state `Open`; will be part of the context.
    let mut conn_end_open = default_conn_end.clone();
    conn_end_open.set_state(State::Open); // incorrect field

    let tests: Vec<Test> = vec![
        Test {
            name: "Successful processing of an Ack message".to_string(),
            ctx: default_context
                .clone()
                .with_client(client_id.clone(), proof_height)
                .with_connection(conn_id.clone(), default_conn_end),
            msg: ConnectionMsg::ConnectionOpenAck(Box::new(msg_ack.clone())),
            want_pass: true,
            match_error: Box::new(|_| panic!("should not have error")),
        },
        Test {
            name: "Processing fails because the connection does not exist in the context"
                .to_string(),
            ctx: default_context.clone(),
            msg: ConnectionMsg::ConnectionOpenAck(Box::new(msg_ack.clone())),
            want_pass: false,
            match_error: {
                let connection_id = conn_id.clone();
                Box::new(move |e| match e {
                    Error::ConnectionNotFound { connection_id: found } => {
                        assert_eq!(found, connection_id)
                    },
                    _ => {
                        panic!("Expected ConnectionNotFound error");
                    },
                })
            },
        },
        Test {
            name: "Processing fails due to connections mismatch (incorrect 'open' state)"
                .to_string(),
            ctx: default_context
                .with_client(client_id.clone(), proof_height)
                .with_connection(conn_id.clone(), conn_end_open),
            msg: ConnectionMsg::ConnectionOpenAck(Box::new(msg_ack)),
            want_pass: false,
            match_error: {
                let connection_id = conn_id;
                Box::new(move |e| match e {
                    Error::ConnectionMismatch { connection_id: found } => {
                        assert_eq!(found, connection_id);
                    },
                    _ => {
                        panic!("Expected ConnectionMismatch error");
                    },
                })
            },
        },
    ];

    for test in tests {
        let res = dispatch(&test.ctx, test.msg.clone());
        // Additionally check the events and the output objects in the result.
        match res {
            Ok(proto_output) => {
                assert!(
                    test.want_pass,
                    "conn_open_ack: test passed but was supposed to fail for test: {}, \nparams {:?} {:?}",
                    test.name,
                    test.msg.clone(),
                    test.ctx.clone()
                );

                assert!(!proto_output.events.is_empty()); // Some events must exist.

                // The object in the output is a ConnectionEnd, should have OPEN state.
                let res: ConnectionResult = proto_output.result;
                assert_eq!(res.connection_end.state().clone(), State::Open);

                // assert that counterparty connection id is correct
                assert_eq!(
                    res.connection_end.counterparty().connection_id,
                    Some(counterparty_conn_id.clone())
                );

                for e in proto_output.events.iter() {
                    assert!(matches!(e, &IbcEvent::OpenAckConnection(_)));
                    assert_eq!(e.height(), test.ctx.host_height());
                }
            },
            Err(e) => {
                assert!(
                    !test.want_pass,
                    "conn_open_ack: failed for test: {}, \nparams {:?} {:?} error: {:?}",
                    test.name,
                    test.msg,
                    test.ctx.clone(),
                    e,
                );

                // Verify that the error kind matches
                (test.match_error)(e);
            },
        }
    }
}

#[test]
fn ack_success_concrete_scenario() {
    let (ctx, client_id, msg_ack, conn_end) = default_setup();
    let ctx = ctx
        .with_client(client_id, Height::new(0, 10))
        .with_connection(msg_ack.connection_id.clone(), conn_end);

    let out = process(&ctx, msg_ack.clone()).unwrap();
    assert_eq!(out.result.connection_id, msg_ack.connection_id);
    assert_eq!(out.result.connection_id_state, ConnectionIdState::Reused);
    assert_eq!(out.result.connection_end.state, State::Open);
    assert_eq!(
        out.result.connection_end.counterparty.connection_id,
        Some(ConnectionId::from_str("connection-1"))
    );
    assert_eq!(out.result.connection_end.versions, vec![Version::from_str("1")]);
    assert_eq!(out.events.len(), 1);
    match &out.events[0] {
        IbcEvent::OpenAckConnection(a) => {
            assert_eq!(a.height, Height::new(0, 11));
            assert_eq!(a.connection_id, Some(msg_ack.connection_id.clone()));
            assert_eq!(a.counterparty_connection_id, Some(msg_ack.counterparty_connection_id));
        },
        _ => panic!("expected an OpenAckConnection event"),
    }
    assert_eq!(out.log, vec![String::from("success: connection verification passed")]);
}

#[test]
fn ack_unknown_connection_is_not_found() {
    let (ctx, client_id, msg_ack, _conn_end) = default_setup();
    // Client registered, but no connection for the referenced id.
    let ctx = ctx.with_client(client_id, Height::new(0, 10));
    match process(&ctx, msg_ack.clone()) {
        Err(Error::ConnectionNotFound { connection_id }) => {
            assert_eq!(connection_id, msg_ack.connection_id);
        },
        r => panic!("expected ConnectionNotFound, got {:?}", r),
    }
}

#[test]
fn ack_on_open_connection_is_mismatch() {
    let (ctx, client_id, msg_ack, mut conn_end) = default_setup();
    conn_end.set_state(State::Open);
    let ctx = ctx
        .with_client(client_id, Height::new(0, 10))
        .with_connection(msg_ack.connection_id.clone(), conn_end);
    match process(&ctx, msg_ack.clone()) {
        Err(Error::ConnectionMismatch { connection_id }) => {
            assert_eq!(connection_id, msg_ack.connection_id);
        },
        r => panic!("expected ConnectionMismatch, got {:?}", r),
    }
}

#[test]
fn ack_from_try_open_first_version() {
    let (ctx, client_id, msg_ack, mut conn_end) = default_setup();
    conn_end.set_state(State::TryOpen);
    let ctx = ctx
        .with_client(client_id, Height::new(0, 10))
        .with_connection(msg_ack.connection_id.clone(), conn_end);
    let out = process(&ctx, msg_ack).unwrap();
    assert_eq!(out.result.connection_end.state, State::Open);
}

#[test]
fn ack_wrong_version_is_mismatch() {
    let (ctx, client_id, mut msg_ack, conn_end) = default_setup();
    msg_ack.version = Version::from_str("2");
    let ctx = ctx
        .with_client(client_id, Height::new(0, 10))
        .with_connection(msg_ack.connection_id.clone(), conn_end);
    match process(&ctx, msg_ack) {
        Err(Error::ConnectionMismatch { .. }) => {},
        r => panic!("expected ConnectionMismatch, got {:?}", r),
    }
}

#[test]
fn ack_stale_consensus_height_rejected() {
    let (ctx, client_id, _msg, conn_end) = default_setup();
    // Consensus height 12 is ahead of the host height 11.
    let msg_ack = dummy_msg_conn_open_ack(10, 12);
    let ctx = ctx
        .with_client(client_id, Height::new(0, 10))
        .with_connection(msg_ack.connection_id.clone(), conn_end);
    match process(&ctx, msg_ack) {
        Err(Error::InvalidConsensusHeight { consensus_height, host_height }) => {
            assert_eq!(consensus_height, Height::new(0, 12));
            assert_eq!(host_height, Height::new(0, 11));
        },
        r => panic!("expected InvalidConsensusHeight, got {:?}", r),
    }
}

#[test]
fn ack_missing_client_state_rejected() {
    let (ctx, client_id, mut msg_ack, conn_end) = default_setup();
    msg_ack.client_state = None;
    let ctx = ctx
        .with_client(client_id, Height::new(0, 10))
        .with_connection(msg_ack.connection_id.clone(), conn_end);
    match process(&ctx, msg_ack) {
        Err(Error::MissingProofArtifact { artifact }) => {
            assert_eq!(artifact, ProofArtifact::ClientStateArtifact);
        },
        r => panic!("expected MissingProofArtifact, got {:?}", r),
    }
}

#[test]
fn ack_missing_client_proof_rejected() {
    let (ctx, client_id, mut msg_ack, conn_end) = default_setup();
    msg_ack.proofs.client_proof = None;
    let ctx = ctx
        .with_client(client_id, Height::new(0, 10))
        .with_connection(msg_ack.connection_id.clone(), conn_end);
    match process(&ctx, msg_ack) {
        Err(Error::MissingProofArtifact { artifact }) => {
            assert_eq!(artifact, ProofArtifact::ClientProofArtifact);
        },
        r => panic!("expected MissingProofArtifact, got {:?}", r),
    }
}

#[test]
fn ack_missing_consensus_proof_rejected() {
    let (ctx, client_id, mut msg_ack, conn_end) = default_setup();
    msg_ack.proofs.consensus_proof = None;
    let ctx = ctx
        .with_client(client_id, Height::new(0, 10))
        .with_connection(msg_ack.connection_id.clone(), conn_end);
    match process(&ctx, msg_ack) {
        Err(Error::MissingProofArtifact { artifact }) => {
            assert_eq!(artifact, ProofArtifact::ConsensusProofArtifact);
        },
        r => panic!("expected MissingProofArtifact, got {:?}", r),
    }
}

#[test]
fn ack_foreign_client_state_rejected() {
    let (ctx, client_id, mut msg_ack, conn_end) = default_setup();
    // A client state describing some other chain is no self-description.
    msg_ack.client_state = Some(ClientState::new("othergaia", Height::new(0, 10)));
    let ctx = ctx
        .with_client(client_id, Height::new(0, 10))
        .with_connection(msg_ack.connection_id.clone(), conn_end);
    match process(&ctx, msg_ack) {
        Err(Error::ClientValidationFailed) => {},
        r => panic!("expected ClientValidationFailed, got {:?}", r),
    }
}

#[test]
fn ack_empty_proof_fails_verification() {
    let (ctx, client_id, mut msg_ack, conn_end) = default_setup();
    msg_ack.proofs.object_proof = CommitmentProofBytes::from_bytes(vec![]);
    let ctx = ctx
        .with_client(client_id, Height::new(0, 10))
        .with_connection(msg_ack.connection_id.clone(), conn_end);
    match process(&ctx, msg_ack) {
        Err(Error::ProofVerificationFailed { subject }) => {
            assert_eq!(subject, ProofSubject::ConnectionSubject);
        },
        r => panic!("expected ProofVerificationFailed, got {:?}", r),
    }
}

#[test]
fn ack_unregistered_proof_height_fails_verification() {
    let (ctx, client_id, msg_ack, conn_end) = default_setup();
    // The client has no consensus record at the proof height 10.
    let ctx = ctx
        .with_client(client_id, Height::new(0, 9))
        .with_connection(msg_ack.connection_id.clone(), conn_end);
    match process(&ctx, msg_ack) {
        Err(Error::ProofVerificationFailed { subject }) => {
            assert_eq!(subject, ProofSubject::ConnectionSubject);
        },
        r => panic!("expected ProofVerificationFailed, got {:?}", r),
    }
}

#[test]
fn ack_replay_after_commit_is_rejected() {
    let (ctx, client_id, msg_ack, conn_end) = default_setup();
    let ctx = ctx
        .with_client(client_id, Height::new(0, 10))
        .with_connection(msg_ack.connection_id.clone(), conn_end);
    let out = process(&ctx, msg_ack.clone()).unwrap();

    // Commit the result, then replay the same message.
    let ctx_after = ctx.with_connection(msg_ack.connection_id.clone(), out.result.connection_end);
    match process(&ctx_after, msg_ack.clone()) {
        Err(Error::ConnectionMismatch { connection_id }) => {
            assert_eq!(connection_id, msg_ack.connection_id);
        },
        r => panic!("expected ConnectionMismatch on replay, got {:?}", r),
    }
}
