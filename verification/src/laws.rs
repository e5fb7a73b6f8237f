//! The general laws of the handshake engine, proved once for every context
//! implementation and every message: when Ack is owed success and what its
//! output is, which error each bad Ack input draws, that a replayed Ack is
//! rejected, and that a full handshake converges both sides to Open with
//! one agreed version and mutual connection-identifier references.

use vstd::prelude::*;
use crate::conn_open_ack::ack_expected_connection;
use crate::conn_open_ack::ack_new_connection;
use crate::conn_open_ack::ack_outcome;
use crate::conn_open_confirm::confirm_outcome;
use crate::conn_open_init::init_outcome;
use crate::conn_open_try::pick_version_spec;
use crate::conn_open_try::supported_version_views;
use crate::conn_open_try::try_outcome;
use crate::context::ReaderContext;
use crate::error::ErrorV;
use crate::events::IbcEventV;
use crate::handler::ConnectionResultV;
use crate::handler::HandlerOutputV;
use crate::msgs::MsgConnectionOpenAck;
use crate::msgs::MsgConnectionOpenConfirm;
use crate::msgs::MsgConnectionOpenInit;
use crate::msgs::MsgConnectionOpenTry;
use crate::types::height_lte;
use crate::types::State;
use crate::types::version_views;
use crate::verify::connection_proof_ok;

verus! {

/// For every connection in Init state whose proposed versions contain the
/// message's version, a well-formed Ack message (client state and both
/// optional proofs present, fresh consensus height) whose proofs validate
/// against the context succeeds: the resulting state is Open, the
/// counterparty connection identifier equals the message's, and exactly
/// one OpenAckConnection event is emitted, carrying the host height.
pub proof fn lemma_ack_success_opens<Ctx: ReaderContext>(ctx: &Ctx, msg: MsgConnectionOpenAck)
    requires
        ctx.has_connection(msg.connection_id@),
        ctx.connection_view(msg.connection_id@).state == State::Init,
        ctx.connection_view(msg.connection_id@).versions.contains(msg.version@),
        msg.client_state is Some,
        msg.proofs.client_proof is Some,
        msg.proofs.consensus_proof is Some,
        height_lte(msg.proofs.consensus_height_spec(), ctx.host_height_spec()),
        ctx.self_client_ok(msg.client_state->0@),
        connection_proof_ok(
            ctx,
            ack_new_connection(ctx.connection_view(msg.connection_id@), msg),
            ack_expected_connection(ctx, ctx.connection_view(msg.connection_id@), msg),
            msg.proofs.height,
            msg.proofs.object_proof@,
        ),
        ctx.client_membership_ok(
            ctx.connection_view(msg.connection_id@).client_id,
            msg.proofs.height,
            msg.proofs.client_proof->0@,
            msg.client_state->0@,
        ),
        ctx.consensus_membership_ok(
            ctx.connection_view(msg.connection_id@).client_id,
            msg.proofs.height,
            msg.proofs.consensus_proof->0.proof@,
            msg.proofs.consensus_proof->0.height,
        ),
    ensures
        ack_outcome(ctx, msg) is Ok,
        ack_outcome(ctx, msg)->Ok_0.result.connection_end.state == State::Open,
        ack_outcome(ctx, msg)->Ok_0.result.connection_end.counterparty.connection_id == Some(
            msg.counterparty_connection_id@,
        ),
        ack_outcome(ctx, msg)->Ok_0.events.len() == 1,
        ack_outcome(ctx, msg)->Ok_0.events[0] matches IbcEventV::OpenAckConnection(a)
            && a.height == ctx.host_height_spec(),
{
}

/// Every Ack message that references a connection identifier absent from
/// the context fails with ConnectionNotFound carrying that identifier —
/// provided its consensus proof, when present, is fresh, since a stale
/// consensus height is rejected before the lookup.
pub proof fn lemma_ack_unknown_connection_fails<Ctx: ReaderContext>(
    ctx: &Ctx,
    msg: MsgConnectionOpenAck,
)
    requires
        !ctx.has_connection(msg.connection_id@),
        msg.proofs.has_consensus_proof() ==> height_lte(
            msg.proofs.consensus_height_spec(),
            ctx.host_height_spec(),
        ),
    ensures
        ack_outcome(ctx, msg) == Err::<HandlerOutputV<ConnectionResultV>, ErrorV>(
            ErrorV::ConnectionNotFound { connection_id: msg.connection_id@ },
        ),
{
}

/// Every Ack message whose referenced connection end is already Open fails
/// with ConnectionMismatch carrying the connection identifier — under the
/// same freshness proviso as the lookup law.
pub proof fn lemma_ack_open_connection_fails<Ctx: ReaderContext>(
    ctx: &Ctx,
    msg: MsgConnectionOpenAck,
)
    requires
        ctx.has_connection(msg.connection_id@),
        ctx.connection_view(msg.connection_id@).state == State::Open,
        msg.proofs.has_consensus_proof() ==> height_lte(
            msg.proofs.consensus_height_spec(),
            ctx.host_height_spec(),
        ),
    ensures
        ack_outcome(ctx, msg) == Err::<HandlerOutputV<ConnectionResultV>, ErrorV>(
            ErrorV::ConnectionMismatch { connection_id: msg.connection_id@ },
        ),
{
}

/// Idempotence of application: once a successful Ack's resulting end is
/// committed, replaying the same message against the updated context
/// fails the state precondition with ConnectionMismatch; it never
/// re-opens or re-mutates.
pub proof fn lemma_ack_replay_fails<Ctx: ReaderContext>(
    ctx: &Ctx,
    ctx_after: &Ctx,
    msg: MsgConnectionOpenAck,
)
    requires
        ack_outcome(ctx, msg) is Ok,
        ctx_after.has_connection(msg.connection_id@),
        ctx_after.connection_view(msg.connection_id@) == ack_outcome(
            ctx,
            msg,
        )->Ok_0.result.connection_end,
        msg.proofs.has_consensus_proof() ==> height_lte(
            msg.proofs.consensus_height_spec(),
            ctx_after.host_height_spec(),
        ),
    ensures
        ack_outcome(ctx_after, msg) == Err::<HandlerOutputV<ConnectionResultV>, ErrorV>(
            ErrorV::ConnectionMismatch { connection_id: msg.connection_id@ },
        ),
{
    assert(ctx_after.connection_view(msg.connection_id@).state == State::Open);
}

/// No handler moves a connection backward: a successful Ack starts from an
/// end in Init or TryOpen and leaves it Open, and a successful Confirm
/// starts from TryOpen and leaves it Open.  Open is terminal: neither
/// handler accepts an Open end.
pub proof fn lemma_state_advances<Ctx: ReaderContext>(
    ctx: &Ctx,
    msg_ack: MsgConnectionOpenAck,
    msg_confirm: MsgConnectionOpenConfirm,
)
    ensures
        ack_outcome(ctx, msg_ack) is Ok ==> {
            let before = ctx.connection_view(msg_ack.connection_id@).state;
            (before == State::Init || before == State::TryOpen) && ack_outcome(
                ctx,
                msg_ack,
            )->Ok_0.result.connection_end.state == State::Open
        },
        confirm_outcome(ctx, msg_confirm) is Ok ==> ctx.connection_view(
            msg_confirm.connection_id@,
        ).state == State::TryOpen && confirm_outcome(
            ctx,
            msg_confirm,
        )->Ok_0.result.connection_end.state == State::Open,
{
}

/// Round-trip closure: a handshake Init on chain A, Try on chain B, Ack on
/// A and Confirm on B, with each step's result committed before the next
/// and the relayer carrying identifiers and version faithfully, leaves
/// both ends Open with the same single agreed version and correct mutual
/// connection-identifier references.
pub proof fn lemma_handshake_round_trip<Ctx: ReaderContext>(
    ctx_a: &Ctx,
    ctx_b: &Ctx,
    ctx_a2: &Ctx,
    ctx_b2: &Ctx,
    msg_init: MsgConnectionOpenInit,
    msg_try: MsgConnectionOpenTry,
    msg_ack: MsgConnectionOpenAck,
    msg_confirm: MsgConnectionOpenConfirm,
)
    requires
        // A opens towards B.
        init_outcome(ctx_a, msg_init) is Ok,
        // B answers, naming A's end as its counterparty.
        try_outcome(ctx_b, msg_try) is Ok,
        msg_try.counterparty@.connection_id == Some(
            init_outcome(ctx_a, msg_init)->Ok_0.result.connection_id,
        ),
        // A acknowledges: its own end is the committed Init end, and the
        // message carries B's identifier and B's negotiated version.
        ack_outcome(ctx_a2, msg_ack) is Ok,
        msg_ack.connection_id@ == init_outcome(ctx_a, msg_init)->Ok_0.result.connection_id,
        msg_ack.counterparty_connection_id@ == try_outcome(ctx_b, msg_try)->Ok_0.result.connection_id,
        msg_ack.version@ == try_outcome(ctx_b, msg_try)->Ok_0.result.connection_end.versions[0],
        ctx_a2.connection_view(msg_ack.connection_id@) == init_outcome(
            ctx_a,
            msg_init,
        )->Ok_0.result.connection_end,
        // B confirms on its committed TryOpen end.
        confirm_outcome(ctx_b2, msg_confirm) is Ok,
        msg_confirm.connection_id@ == try_outcome(ctx_b, msg_try)->Ok_0.result.connection_id,
        ctx_b2.connection_view(msg_confirm.connection_id@) == try_outcome(
            ctx_b,
            msg_try,
        )->Ok_0.result.connection_end,
    ensures
        // Both sides converge to Open.
        ack_outcome(ctx_a2, msg_ack)->Ok_0.result.connection_end.state == State::Open,
        confirm_outcome(ctx_b2, msg_confirm)->Ok_0.result.connection_end.state == State::Open,
        // One agreed version, the same on both sides.
        ack_outcome(ctx_a2, msg_ack)->Ok_0.result.connection_end.versions == seq![msg_ack.version@],
        confirm_outcome(ctx_b2, msg_confirm)->Ok_0.result.connection_end.versions == seq![
            msg_ack.version@,
        ],
        // Mutual connection-identifier references.
        ack_outcome(ctx_a2, msg_ack)->Ok_0.result.connection_end.counterparty.connection_id
            == Some(try_outcome(ctx_b, msg_try)->Ok_0.result.connection_id),
        confirm_outcome(ctx_b2, msg_confirm)->Ok_0.result.connection_end.counterparty.connection_id
            == Some(init_outcome(ctx_a, msg_init)->Ok_0.result.connection_id),
{
    let chosen = pick_version_spec(
        supported_version_views(),
        version_views(msg_try.counterparty_versions@),
    )->0;
    assert(try_outcome(ctx_b, msg_try)->Ok_0.result.connection_end.versions == seq![chosen]);
    assert(msg_ack.version@ == chosen);
}

} // verus!
