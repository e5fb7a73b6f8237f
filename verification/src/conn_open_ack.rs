//! Handler for the third handshake message: the Init side learns the
//! counterparty's connection identifier and the negotiated version, proves
//! the counterparty committed its TryOpen end, and moves its own end to
//! Open.

use vstd::prelude::*;
use crate::context::ReaderContext;
use crate::error::Error;
use crate::error::ErrorV;
use crate::error::ProofArtifact;
use crate::error::ProofSubject;
use crate::events::Attributes;
use crate::events::AttributesV;
use crate::events::IbcEvent;
use crate::events::IbcEventV;
use crate::handler::ConnectionIdState;
use crate::handler::ConnectionResult;
use crate::handler::ConnectionResultV;
use crate::handler::HandlerOutputBuilder;
use crate::handler::HandlerOutputV;
use crate::handler::HandlerResult;
use crate::handler::res_view;
use crate::msgs::MsgConnectionOpenAck;
use crate::types::ConnectionEnd;
use crate::types::ConnectionEndV;
use crate::types::Counterparty;
use crate::types::CounterpartyV;
use crate::types::State;
use crate::types::Version;
use crate::types::height_lte;
use crate::types::versions_contain;
use crate::verify::check_client_consensus_height;
use crate::verify::connection_proof_ok;
use crate::verify::verify_client_proof;
use crate::verify::verify_connection_proof;
use crate::verify::verify_consensus_proof;

verus! {

/// The Ack step continues the handshake only from an end that is Init and
/// proposed the message's version, or TryOpen with it as the first
/// proposed version.
pub open spec fn ack_state_ok(conn: ConnectionEndV, version: Seq<char>) -> bool {
    (conn.state == State::Init && conn.versions.contains(version)) || (conn.state == State::TryOpen
        && conn.versions.len() > 0 && conn.versions[0] == version)
}

/// The local end after a successful Ack: Open, the message's version as the
/// single agreed version, and the counterparty's connection identifier
/// recorded; client identifier, prefix and delay period unchanged.
pub open spec fn ack_new_connection(conn: ConnectionEndV, msg: MsgConnectionOpenAck) -> ConnectionEndV {
    ConnectionEndV {
        state: State::Open,
        client_id: conn.client_id,
        counterparty: CounterpartyV {
            client_id: conn.counterparty.client_id,
            connection_id: Some(msg.counterparty_connection_id@),
            prefix: conn.counterparty.prefix,
        },
        versions: seq![msg.version@],
        delay_period: conn.delay_period,
    }
}

/// The mirror image the counterparty must have committed for the Ack to be
/// honest: its end in TryOpen, pointing back at this chain's client,
/// connection identifier and prefix, with the message's version.
pub open spec fn ack_expected_connection<Ctx: ReaderContext>(
    ctx: &Ctx,
    conn: ConnectionEndV,
    msg: MsgConnectionOpenAck,
) -> ConnectionEndV {
    ConnectionEndV {
        state: State::TryOpen,
        client_id: conn.counterparty.client_id,
        counterparty: CounterpartyV {
            client_id: conn.client_id,
            connection_id: Some(msg.connection_id@),
            prefix: ctx.prefix_spec(),
        },
        versions: seq![msg.version@],
        delay_period: conn.delay_period,
    }
}

/// The full output of a successful Ack: the Reused identifier with the new
/// end, one log line, and one OpenAckConnection event carrying the host
/// height at emission.
pub open spec fn ack_success_output<Ctx: ReaderContext>(
    ctx: &Ctx,
    conn: ConnectionEndV,
    msg: MsgConnectionOpenAck,
) -> HandlerOutputV<ConnectionResultV> {
    HandlerOutputV {
        result: ConnectionResultV {
            connection_id: msg.connection_id@,
            connection_id_state: ConnectionIdState::Reused,
            connection_end: ack_new_connection(conn, msg),
        },
        log: seq!["success: connection verification passed"@],
        events: seq![
            IbcEventV::OpenAckConnection(
                AttributesV {
                    connection_id: Some(msg.connection_id@),
                    height: ctx.host_height_spec(),
                    client_id: conn.client_id,
                    counterparty_connection_id: Some(msg.counterparty_connection_id@),
                    counterparty_client_id: conn.counterparty.client_id,
                },
            ),
        ],
    }
}

/// What processing an Ack message returns, for every context and message:
/// the first violated check's error, or the success output.
pub open spec fn ack_outcome<Ctx: ReaderContext>(ctx: &Ctx, msg: MsgConnectionOpenAck) -> Result<
    HandlerOutputV<ConnectionResultV>,
    ErrorV,
> {
    let host = ctx.host_height_spec();
    if msg.proofs.has_consensus_proof() && !height_lte(msg.proofs.consensus_height_spec(), host) {
        Err(ErrorV::InvalidConsensusHeight {
            consensus_height: msg.proofs.consensus_height_spec(),
            host_height: host,
        })
    } else if !ctx.has_connection(msg.connection_id@) {
        Err(ErrorV::ConnectionNotFound { connection_id: msg.connection_id@ })
    } else {
        let conn = ctx.connection_view(msg.connection_id@);
        if !ack_state_ok(conn, msg.version@) {
            Err(ErrorV::ConnectionMismatch { connection_id: msg.connection_id@ })
        } else if msg.client_state is None {
            Err(ErrorV::MissingProofArtifact { artifact: ProofArtifact::ClientStateArtifact })
        } else if msg.proofs.client_proof is None {
            Err(ErrorV::MissingProofArtifact { artifact: ProofArtifact::ClientProofArtifact })
        } else if msg.proofs.consensus_proof is None {
            Err(ErrorV::MissingProofArtifact { artifact: ProofArtifact::ConsensusProofArtifact })
        } else if !ctx.self_client_ok(msg.client_state->0@) {
            Err(ErrorV::ClientValidationFailed)
        } else {
            let new_conn = ack_new_connection(conn, msg);
            let expected = ack_expected_connection(ctx, conn, msg);
            if !connection_proof_ok(ctx, new_conn, expected, msg.proofs.height, msg.proofs.object_proof@) {
                Err(ErrorV::ProofVerificationFailed { subject: ProofSubject::ConnectionSubject })
            } else if !ctx.client_membership_ok(
                new_conn.client_id,
                msg.proofs.height,
                msg.proofs.client_proof->0@,
                msg.client_state->0@,
            ) {
                Err(ErrorV::ProofVerificationFailed { subject: ProofSubject::ClientSubject })
            } else if !ctx.consensus_membership_ok(
                new_conn.client_id,
                msg.proofs.height,
                msg.proofs.consensus_proof->0.proof@,
                msg.proofs.consensus_proof->0.height,
            ) {
                Err(ErrorV::ProofVerificationFailed { subject: ProofSubject::ConsensusSubject })
            } else {
                Ok(ack_success_output(ctx, conn, msg))
            }
        }
    }
}

/// Process an Ack message: check consensus-height freshness, find and
/// validate the local end, compute the Open end on a local copy, run the
/// three membership checks, and return the output; the first violated
/// check aborts with its error and nothing is mutated.
pub fn process<Ctx: ReaderContext>(ctx: &Ctx, msg: MsgConnectionOpenAck) -> (r: HandlerResult<
    ConnectionResult,
    Error,
>)
    ensures
        res_view(r) == ack_outcome(ctx, msg),
{
    let mut output = HandlerOutputBuilder::new();

    // Check the consensus proof's height for freshness when it is supplied.
    if msg.proofs.consensus_proof.is_some() {
        let claimed = msg.consensus_height();
        match check_client_consensus_height(ctx, claimed) {
            Ok(u) => u,
            Err(e) => {
                return Err(e);
            },
        };
    }

    // Validate the connection end.
    let mut conn_end = match ctx.connection_end(&msg.connection_id) {
        Ok(c) => c,
        Err(e) => {
            return Err(e);
        },
    };
    let ghost conn0 = conn_end@;

    // The end must be Init or TryOpen, proposing the message's version.
    let state_is_consistent = conn_end.state_matches(&State::Init) && versions_contain(
        &conn_end.versions,
        &msg.version,
    ) || conn_end.state_matches(&State::TryOpen) && conn_end.versions.len() > 0
        && conn_end.versions[0].eq_version(&msg.version);

    if !state_is_consistent {
        // The old end is in an inconsistent state; propagate the error.
        return Err(Error::connection_mismatch(msg.connection_id));
    }

    // Record the counterparty connection identifier learned from the
    // message, preserving the prior client identifier and prefix.
    let counterparty = Counterparty::new(
        conn_end.counterparty().client_id().dup(),
        Some(msg.counterparty_connection_id.dup()),
        conn_end.counterparty().prefix().dup(),
    );
    conn_end.set_state(State::Open);
    conn_end.set_version(msg.version.dup());
    conn_end.set_counterparty(counterparty);
    proof {
        assert(conn_end@ =~= ack_new_connection(conn0, msg));
    }

    // The mirror image the counterparty must hold: its end in TryOpen,
    // pointing back at this chain.
    let mut expected_versions: Vec<Version> = Vec::new();
    expected_versions.push(msg.version.dup());
    let expected_conn = ConnectionEnd::new(
        State::TryOpen,
        conn_end.counterparty().client_id().dup(),
        Counterparty::new(
            conn_end.client_id().dup(),
            Some(msg.connection_id.dup()),
            ctx.commitment_prefix(),
        ),
        expected_versions,
        conn_end.delay_period(),
    );
    proof {
        assert(expected_conn@ =~= ack_expected_connection(ctx, conn0, msg));
    }

    let client_state = match &msg.client_state {
        Some(cs) => cs,
        None => {
            return Err(Error::missing_proof_artifact(ProofArtifact::ClientStateArtifact));
        },
    };

    let client_proof = match &msg.proofs.client_proof {
        Some(p) => p,
        None => {
            return Err(Error::missing_proof_artifact(ProofArtifact::ClientProofArtifact));
        },
    };

    let consensus_proof = match &msg.proofs.consensus_proof {
        Some(cp) => cp,
        None => {
            return Err(Error::missing_proof_artifact(ProofArtifact::ConsensusProofArtifact));
        },
    };

    match ctx.validate_self_client(client_state) {
        Ok(u) => u,
        Err(e) => {
            return Err(e);
        },
    };

    match verify_connection_proof(
        ctx,
        msg.proofs.height(),
        &conn_end,
        &expected_conn,
        &msg.proofs.object_proof,
    ) {
        Ok(u) => u,
        Err(e) => {
            return Err(e);
        },
    };

    match verify_client_proof(ctx, msg.proofs.height(), &conn_end, client_state, client_proof) {
        Ok(u) => u,
        Err(e) => {
            return Err(e);
        },
    };

    match verify_consensus_proof(ctx, msg.proofs.height(), &conn_end, consensus_proof) {
        Ok(u) => u,
        Err(e) => {
            return Err(e);
        },
    };

    output.log("success: connection verification passed");

    let event_attributes = Attributes {
        connection_id: Some(msg.connection_id.dup()),
        height: ctx.host_height(),
        client_id: conn_end.client_id().dup(),
        counterparty_connection_id: Some(msg.counterparty_connection_id.dup()),
        counterparty_client_id: conn_end.counterparty().client_id().dup(),
    };

    output.emit(IbcEvent::OpenAckConnection(event_attributes));

    let result = ConnectionResult {
        connection_id: msg.connection_id.dup(),
        connection_id_state: ConnectionIdState::Reused,
        connection_end: conn_end,
    };

    let out = output.with_result(result);
    proof {
        assert(out@ =~~= ack_success_output(ctx, conn0, msg));
    }
    Ok(out)
}

} // verus!
