//! Tests for the Init, Try and Confirm handlers, the dispatcher, version
//! negotiation, and the full four-message round trip.

use ibc_handshake::conn_open_ack;
use ibc_handshake::conn_open_confirm;
use ibc_handshake::conn_open_init;
use ibc_handshake::conn_open_try;
use ibc_handshake::msgs::MsgConnectionOpenAck;
use ibc_handshake::conn_open_try::compatible_versions;
use ibc_handshake::conn_open_try::pick_version;
use ibc_handshake::dispatch::dispatch;
use ibc_handshake::error::Error;
use ibc_handshake::handler::ConnectionIdState;
use ibc_handshake::mock_context::MockContext;
use ibc_handshake::msgs::ConnectionMsg;
use ibc_handshake::msgs::ConsensusProof;
use ibc_handshake::msgs::MsgConnectionOpenConfirm;
use ibc_handshake::msgs::MsgConnectionOpenInit;
use ibc_handshake::msgs::MsgConnectionOpenTry;
use ibc_handshake::msgs::Proofs;
use ibc_handshake::types::ClientId;
use ibc_handshake::types::ClientState;
use ibc_handshake::types::CommitmentPrefix;
use ibc_handshake::types::CommitmentProofBytes;
use ibc_handshake::types::ConnectionEnd;
use ibc_handshake::types::ConnectionId;
use ibc_handshake::types::Counterparty;
use ibc_handshake::types::Height;
use ibc_handshake::types::State;
use ibc_handshake::types::Version;
use ibc_handshake::types::versions_contain;

fn proofs_at(proof_height: u64, consensus_height: u64) -> Proofs {
    Proofs {
        object_proof: CommitmentProofBytes::from_bytes(vec![1u8]),
        client_proof: Some(CommitmentProofBytes::from_bytes(vec![1u8])),
        consensus_proof: Some(ConsensusProof {
            proof: CommitmentProofBytes::from_bytes(vec![1u8]),
            height: Height::new(0, consensus_height),
        }),
        height: Height::new(0, proof_height),
    }
}

fn msg_init(client: &str, counterparty_client: &str) -> MsgConnectionOpenInit {
    MsgConnectionOpenInit {
        candidate_connection_id: None,
        client_id: ClientId::from_str(client),
        counterparty_client_id: ClientId::from_str(counterparty_client),
        counterparty_prefix: CommitmentPrefix::from_bytes(b"ibc".to_vec()),
        versions: vec![Version::from_str("1")],
        delay_period: 0,
    }
}

fn msg_try(client: &str, counterparty_client: &str, counterparty_conn: &str) -> MsgConnectionOpenTry {
    MsgConnectionOpenTry {
        previous_connection_id: None,
        client_id: ClientId::from_str(client),
        client_state: Some(ClientState::new("mockb", Height::new(0, 10))),
        counterparty: Counterparty::new(
            ClientId::from_str(counterparty_client),
            Some(ConnectionId::from_str(counterparty_conn)),
            CommitmentPrefix::from_bytes(b"ibc".to_vec()),
        ),
        counterparty_versions: vec![Version::from_str("1")],
        proofs: proofs_at(10, 10),
        delay_period: 0,
    }
}

#[test]
fn version_negotiation_picks_first_supported() {
    let supported = compatible_versions();
    let offered = vec![Version::from_str("2"), Version::from_str("1"), Version::from_str("3")];
    assert_eq!(pick_version(&supported, &offered), Some(Version::from_str("1")));
    let none_offered = vec![Version::from_str("2"), Version::from_str("3")];
    assert_eq!(pick_version(&supported, &none_offered), None);
    assert!(versions_contain(&offered, &Version::from_str("3")));
    assert!(!versions_contain(&offered, &Version::from_str("4")));
}

#[test]
fn init_creates_init_end() {
    let ctx = MockContext::new("mocka", Height::new(0, 11))
        .with_client(ClientId::from_str("client-b-on-a"), Height::new(0, 10));
    let out = conn_open_init::process(&ctx, msg_init("client-b-on-a", "client-a-on-b")).unwrap();
    assert_eq!(out.result.connection_id, ConnectionId::from_str("connection-0"));
    assert_eq!(out.result.connection_id_state, ConnectionIdState::New);
    let end = &out.result.connection_end;
    assert_eq!(end.state, State::Init);
    assert_eq!(end.counterparty.connection_id, None);
    assert_eq!(end.versions, vec![Version::from_str("1")]);
    assert_eq!(out.events.len(), 1);
}

#[test]
fn init_unknown_client_fails() {
    let ctx = MockContext::new("mocka", Height::new(0, 11));
    match conn_open_init::process(&ctx, msg_init("client-b-on-a", "client-a-on-b")) {
        Err(Error::ClientNotFound { client_id }) => {
            assert_eq!(client_id, ClientId::from_str("client-b-on-a"));
        },
        r => panic!("expected ClientNotFound, got {:?}", r),
    }
}

#[test]
fn try_creates_try_open_end() {
    let mut ctx = MockContext::new("mockb", Height::new(0, 11));
    ctx.next_connection_id = ConnectionId::from_str("connection-1");
    let ctx = ctx.with_client(ClientId::from_str("client-a-on-b"), Height::new(0, 10));
    let out = conn_open_try::process(&ctx, msg_try("client-a-on-b", "client-b-on-a", "connection-0"))
        .unwrap();
    assert_eq!(out.result.connection_id, ConnectionId::from_str("connection-1"));
    assert_eq!(out.result.connection_id_state, ConnectionIdState::New);
    let end = &out.result.connection_end;
    assert_eq!(end.state, State::TryOpen);
    assert_eq!(end.versions, vec![Version::from_str("1")]);
    assert_eq!(end.counterparty.connection_id, Some(ConnectionId::from_str("connection-0")));
}

#[test]
fn try_no_common_version_fails() {
    let ctx = MockContext::new("mockb", Height::new(0, 11))
        .with_client(ClientId::from_str("client-a-on-b"), Height::new(0, 10));
    let mut msg = msg_try("client-a-on-b", "client-b-on-a", "connection-0");
    msg.counterparty_versions = vec![Version::from_str("9")];
    match conn_open_try::process(&ctx, msg) {
        Err(Error::ImplementationSpecific { description }) => {
            assert_eq!(description, "no common version");
        },
        r => panic!("expected ImplementationSpecific, got {:?}", r),
    }
}

#[test]
fn try_crossing_hellos_reuses_previous_end() {
    let client = ClientId::from_str("client-a-on-b");
    let prev_id = ConnectionId::from_str("connection-7");
    let prev_end = ConnectionEnd::new(
        State::Init,
        client.clone(),
        Counterparty::new(
            ClientId::from_str("client-b-on-a"),
            None,
            CommitmentPrefix::from_bytes(b"ibc".to_vec()),
        ),
        vec![Version::from_str("1")],
        0,
    );
    let ctx = MockContext::new("mockb", Height::new(0, 11))
        .with_client(client, Height::new(0, 10))
        .with_connection(prev_id.clone(), prev_end);
    let mut msg = msg_try("client-a-on-b", "client-b-on-a", "connection-0");
    msg.previous_connection_id = Some(prev_id.clone());
    let out = conn_open_try::process(&ctx, msg).unwrap();
    assert_eq!(out.result.connection_id, prev_id);
    assert_eq!(out.result.connection_id_state, ConnectionIdState::Reused);
}

#[test]
fn try_previous_end_open_is_mismatch() {
    let client = ClientId::from_str("client-a-on-b");
    let prev_id = ConnectionId::from_str("connection-7");
    let prev_end = ConnectionEnd::new(
        State::Open,
        client.clone(),
        Counterparty::new(
            ClientId::from_str("client-b-on-a"),
            None,
            CommitmentPrefix::from_bytes(b"ibc".to_vec()),
        ),
        vec![Version::from_str("1")],
        0,
    );
    let ctx = MockContext::new("mockb", Height::new(0, 11))
        .with_client(client, Height::new(0, 10))
        .with_connection(prev_id.clone(), prev_end);
    let mut msg = msg_try("client-a-on-b", "client-b-on-a", "connection-0");
    msg.previous_connection_id = Some(prev_id.clone());
    match conn_open_try::process(&ctx, msg) {
        Err(Error::ConnectionMismatch { connection_id }) => assert_eq!(connection_id, prev_id),
        r => panic!("expected ConnectionMismatch, got {:?}", r),
    }
}

#[test]
fn try_without_counterparty_connection_id_rejected() {
    let ctx = MockContext::new("mockb", Height::new(0, 11))
        .with_client(ClientId::from_str("client-a-on-b"), Height::new(0, 10));
    let mut msg = msg_try("client-a-on-b", "client-b-on-a", "connection-0");
    msg.counterparty = Counterparty::new(
        ClientId::from_str("client-b-on-a"),
        None,
        CommitmentPrefix::from_bytes(b"ibc".to_vec()),
    );
    match conn_open_try::process(&ctx, msg) {
        Err(Error::ImplementationSpecific { description }) => {
            assert_eq!(description, "missing counterparty connection id");
        },
        r => panic!("expected ImplementationSpecific, got {:?}", r),
    }
}

#[test]
fn try_stale_consensus_height_rejected() {
    let ctx = MockContext::new("mockb", Height::new(0, 11))
        .with_client(ClientId::from_str("client-a-on-b"), Height::new(0, 10));
    let mut msg = msg_try("client-a-on-b", "client-b-on-a", "connection-0");
    msg.proofs = proofs_at(10, 12);
    match conn_open_try::process(&ctx, msg) {
        Err(Error::InvalidConsensusHeight { consensus_height, host_height }) => {
            assert_eq!(consensus_height, Height::new(0, 12));
            assert_eq!(host_height, Height::new(0, 11));
        },
        r => panic!("expected InvalidConsensusHeight, got {:?}", r),
    }
}

#[test]
fn confirm_opens_try_open_end() {
    let client = ClientId::from_str("client-a-on-b");
    let conn_id = ConnectionId::from_str("connection-1");
    let end = ConnectionEnd::new(
        State::TryOpen,
        client.clone(),
        Counterparty::new(
            ClientId::from_str("client-b-on-a"),
            Some(ConnectionId::from_str("connection-0")),
            CommitmentPrefix::from_bytes(b"ibc".to_vec()),
        ),
        vec![Version::from_str("1")],
        0,
    );
    let ctx = MockContext::new("mockb", Height::new(0, 11))
        .with_client(client, Height::new(0, 10))
        .with_connection(conn_id.clone(), end);
    let msg = MsgConnectionOpenConfirm { connection_id: conn_id.clone(), proofs: proofs_at(10, 10) };
    let out = conn_open_confirm::process(&ctx, msg).unwrap();
    assert_eq!(out.result.connection_id, conn_id);
    assert_eq!(out.result.connection_end.state, State::Open);
    assert_eq!(
        out.result.connection_end.counterparty.connection_id,
        Some(ConnectionId::from_str("connection-0"))
    );
    assert_eq!(out.events.len(), 1);
}

#[test]
fn confirm_on_init_end_is_mismatch() {
    let client = ClientId::from_str("client-a-on-b");
    let conn_id = ConnectionId::from_str("connection-1");
    let end = ConnectionEnd::new(
        State::Init,
        client.clone(),
        Counterparty::new(
            ClientId::from_str("client-b-on-a"),
            Some(ConnectionId::from_str("connection-0")),
            CommitmentPrefix::from_bytes(b"ibc".to_vec()),
        ),
        vec![Version::from_str("1")],
        0,
    );
    let ctx = MockContext::new("mockb", Height::new(0, 11))
        .with_client(client, Height::new(0, 10))
        .with_connection(conn_id.clone(), end);
    let msg = MsgConnectionOpenConfirm { connection_id: conn_id.clone(), proofs: proofs_at(10, 10) };
    match conn_open_confirm::process(&ctx, msg) {
        Err(Error::ConnectionMismatch { connection_id }) => assert_eq!(connection_id, conn_id),
        r => panic!("expected ConnectionMismatch, got {:?}", r),
    }
}

#[test]
fn confirm_unknown_connection_is_not_found() {
    let ctx = MockContext::new("mockb", Height::new(0, 11));
    let conn_id = ConnectionId::from_str("connection-1");
    let msg = MsgConnectionOpenConfirm { connection_id: conn_id.clone(), proofs: proofs_at(10, 10) };
    match conn_open_confirm::process(&ctx, msg) {
        Err(Error::ConnectionNotFound { connection_id }) => assert_eq!(connection_id, conn_id),
        r => panic!("expected ConnectionNotFound, got {:?}", r),
    }
}

#[test]
fn dispatch_routes_each_message_kind() {
    let ctx = MockContext::new("mocka", Height::new(0, 11))
        .with_client(ClientId::from_str("client-b-on-a"), Height::new(0, 10));

    let init = ConnectionMsg::ConnectionOpenInit(msg_init("client-b-on-a", "client-a-on-b"));
    assert!(dispatch(&ctx, init).is_ok());

    let tr = ConnectionMsg::ConnectionOpenTry(Box::new(MsgConnectionOpenTry {
        client_state: Some(ClientState::new("mocka", Height::new(0, 10))),
        ..msg_try("client-b-on-a", "client-a-on-b", "connection-0")
    }));
    assert!(dispatch(&ctx, tr).is_ok());

    let confirm = ConnectionMsg::ConnectionOpenConfirm(MsgConnectionOpenConfirm {
        connection_id: ConnectionId::from_str("connection-9"),
        proofs: proofs_at(10, 10),
    });
    match dispatch(&ctx, confirm) {
        Err(Error::ConnectionNotFound { connection_id }) => {
            assert_eq!(connection_id, ConnectionId::from_str("connection-9"));
        },
        r => panic!("expected ConnectionNotFound, got {:?}", r),
    }
}

/// The full handshake: Init on A, Try on B, Ack on A, Confirm on B, each
/// result committed before the next step.  Both sides converge to Open
/// with one agreed version and mutual connection-identifier references.
#[test]
fn handshake_round_trip_converges() {
    // Chain A: host 11, client tracking B registered at height 10.
    let ctx_a = MockContext::new("mocka", Height::new(0, 11))
        .with_client(ClientId::from_str("client-b-on-a"), Height::new(0, 10));

    // Chain B: host 11, client tracking A registered at height 10.
    let mut ctx_b0 = MockContext::new("mockb", Height::new(0, 11));
    ctx_b0.next_connection_id = ConnectionId::from_str("connection-1");
    let ctx_b = ctx_b0.with_client(ClientId::from_str("client-a-on-b"), Height::new(0, 10));

    // Init on A.
    let out_init = conn_open_init::process(&ctx_a, msg_init("client-b-on-a", "client-a-on-b"))
        .unwrap();
    let id_a = out_init.result.connection_id.clone();

    // Try on B, naming A's end.
    let out_try = conn_open_try::process(&ctx_b, msg_try("client-a-on-b", "client-b-on-a", "connection-0"))
        .unwrap();
    let id_b = out_try.result.connection_id.clone();
    let agreed = out_try.result.connection_end.versions[0].clone();

    // Commit A's Init end, then Ack on A with B's identifier and version.
    let ctx_a2 = ctx_a.with_connection(id_a.clone(), out_init.result.connection_end);
    let out_ack = conn_open_ack::process(
        &ctx_a2,
        MsgConnectionOpenAck {
            connection_id: id_a.clone(),
            counterparty_connection_id: id_b.clone(),
            version: agreed.clone(),
            client_state: Some(ClientState::new("mocka", Height::new(0, 10))),
            proofs: proofs_at(10, 10),
        },
    )
    .unwrap();
    let end_a = out_ack.result.connection_end;

    // Commit B's TryOpen end, then Confirm on B.
    let ctx_b2 = ctx_b.with_connection(id_b.clone(), out_try.result.connection_end);
    let out_confirm = conn_open_confirm::process(
        &ctx_b2,
        MsgConnectionOpenConfirm { connection_id: id_b.clone(), proofs: proofs_at(10, 10) },
    )
    .unwrap();
    let end_b = out_confirm.result.connection_end;

    // Both Open, one agreed version, mutual references.
    assert_eq!(end_a.state, State::Open);
    assert_eq!(end_b.state, State::Open);
    assert_eq!(end_a.versions, vec![agreed.clone()]);
    assert_eq!(end_b.versions, vec![agreed]);
    assert_eq!(end_a.counterparty.connection_id, Some(id_b));
    assert_eq!(end_b.counterparty.connection_id, Some(id_a));
}
