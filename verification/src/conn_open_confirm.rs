//! Handler for the fourth handshake message: the Try side learns that the
//! counterparty's end is Open and moves its own end to Open.  Terminal for
//! this side of the handshake.

use vstd::prelude::*;
use crate::context::ReaderContext;
use crate::error::Error;
use crate::error::ErrorV;
use crate::error::ProofSubject;
use crate::events::Attributes;
use crate::events::AttributesV;
use crate::events::IbcEvent;
use crate::events::IbcEventV;
use crate::handler::ConnectionIdState;
use crate::handler::ConnectionResult;
use crate::handler::ConnectionResultV;
use crate::handler::HandlerOutputBuilder;
use crate::handler::HandlerOutputV;
use crate::handler::HandlerResult;
use crate::handler::res_view;
use crate::msgs::MsgConnectionOpenConfirm;
use crate::types::ConnectionEnd;
use crate::types::ConnectionEndV;
use crate::types::Counterparty;
use crate::types::CounterpartyV;
use crate::types::State;
use crate::types::dup_versions;
use crate::verify::connection_proof_ok;
use crate::verify::verify_connection_proof;

verus! {

/// The local end after a successful Confirm: Open, with every other field
/// unchanged — the counterparty identifiers are already known from Try.
pub open spec fn confirm_new_connection(conn: ConnectionEndV) -> ConnectionEndV {
    ConnectionEndV { state: State::Open, ..conn }
}

/// The mirror image the counterparty must have committed for the Confirm
/// to be honest: its end Open, with the single agreed version, pointing
/// back at this connection.
pub open spec fn confirm_expected_connection<Ctx: ReaderContext>(
    ctx: &Ctx,
    conn: ConnectionEndV,
    msg: MsgConnectionOpenConfirm,
) -> ConnectionEndV {
    ConnectionEndV {
        state: State::Open,
        client_id: conn.counterparty.client_id,
        counterparty: CounterpartyV {
            client_id: conn.client_id,
            connection_id: Some(msg.connection_id@),
            prefix: ctx.prefix_spec(),
        },
        versions: conn.versions,
        delay_period: conn.delay_period,
    }
}

/// The full output of a successful Confirm: the Reused identifier with the
/// Open end, one log line, one OpenConfirmConnection event.
pub open spec fn confirm_success_output<Ctx: ReaderContext>(
    ctx: &Ctx,
    conn: ConnectionEndV,
    msg: MsgConnectionOpenConfirm,
) -> HandlerOutputV<ConnectionResultV> {
    HandlerOutputV {
        result: ConnectionResultV {
            connection_id: msg.connection_id@,
            connection_id_state: ConnectionIdState::Reused,
            connection_end: confirm_new_connection(conn),
        },
        log: seq!["success: conn_open_confirm verification passed"@],
        events: seq![
            IbcEventV::OpenConfirmConnection(
                AttributesV {
                    connection_id: Some(msg.connection_id@),
                    height: ctx.host_height_spec(),
                    client_id: conn.client_id,
                    counterparty_connection_id: conn.counterparty.connection_id,
                    counterparty_client_id: conn.counterparty.client_id,
                },
            ),
        ],
    }
}

/// What processing a Confirm message returns, for every context and
/// message: the local end must exist and be TryOpen, and the single
/// connection-membership proof must verify.
pub open spec fn confirm_outcome<Ctx: ReaderContext>(
    ctx: &Ctx,
    msg: MsgConnectionOpenConfirm,
) -> Result<HandlerOutputV<ConnectionResultV>, ErrorV> {
    if !ctx.has_connection(msg.connection_id@) {
        Err(ErrorV::ConnectionNotFound { connection_id: msg.connection_id@ })
    } else {
        let conn = ctx.connection_view(msg.connection_id@);
        if conn.state != State::TryOpen {
            Err(ErrorV::ConnectionMismatch { connection_id: msg.connection_id@ })
        } else {
            let new_conn = confirm_new_connection(conn);
            let expected = confirm_expected_connection(ctx, conn, msg);
            if conn.counterparty.connection_id is None {
                Err(ErrorV::ImplementationSpecific {
                    description: "missing counterparty connection id"@,
                })
            } else if !connection_proof_ok(
                ctx,
                new_conn,
                expected,
                msg.proofs.height,
                msg.proofs.object_proof@,
            ) {
                Err(ErrorV::ProofVerificationFailed { subject: ProofSubject::ConnectionSubject })
            } else {
                Ok(confirm_success_output(ctx, conn, msg))
            }
        }
    }
}

/// Process a Confirm message: find the local end, require it to be
/// TryOpen, verify the counterparty's end is Open, and move the local end
/// to Open.
pub fn process<Ctx: ReaderContext>(ctx: &Ctx, msg: MsgConnectionOpenConfirm) -> (r: HandlerResult<
    ConnectionResult,
    Error,
>)
    ensures
        res_view(r) == confirm_outcome(ctx, msg),
{
    let mut output = HandlerOutputBuilder::new();

    // Validate the connection end.
    let mut conn_end = match ctx.connection_end(&msg.connection_id) {
        Ok(c) => c,
        Err(e) => {
            return Err(e);
        },
    };
    let ghost conn0 = conn_end@;

    // Only an end awaiting confirmation can be confirmed.
    if !conn_end.state_matches(&State::TryOpen) {
        return Err(Error::connection_mismatch(msg.connection_id));
    }

    // The mirror image the counterparty must hold: its end Open, with the
    // agreed version, pointing back at this connection.
    let expected_conn = ConnectionEnd::new(
        State::Open,
        conn_end.counterparty().client_id().dup(),
        Counterparty::new(
            conn_end.client_id().dup(),
            Some(msg.connection_id.dup()),
            ctx.commitment_prefix(),
        ),
        dup_versions(&conn_end.versions),
        conn_end.delay_period(),
    );
    proof {
        assert(expected_conn@ =~= confirm_expected_connection(ctx, conn0, msg));
    }

    conn_end.set_state(State::Open);
    proof {
        assert(conn_end@ =~= confirm_new_connection(conn0));
    }

    match verify_connection_proof(
        ctx,
        msg.proofs.height(),
        &conn_end,
        &expected_conn,
        &msg.proofs.object_proof,
    ) {
        Ok(u) => u,
        Err(e) => {
            return Err(e);
        },
    };

    output.log("success: conn_open_confirm verification passed");

    let event_attributes = Attributes {
        connection_id: Some(msg.connection_id.dup()),
        height: ctx.host_height(),
        client_id: conn_end.client_id().dup(),
        counterparty_connection_id: match &conn_end.counterparty.connection_id {
            Some(id) => Some(id.dup()),
            None => None,
        },
        counterparty_client_id: conn_end.counterparty().client_id().dup(),
    };
    output.emit(IbcEvent::OpenConfirmConnection(event_attributes));

    let result = ConnectionResult {
        connection_id: msg.connection_id.dup(),
        connection_id_state: ConnectionIdState::Reused,
        connection_end: conn_end,
    };

    let out = output.with_result(result);
    proof {
        assert(out@ =~~= confirm_success_output(ctx, conn0, msg));
    }
    Ok(out)
}

} // verus!
