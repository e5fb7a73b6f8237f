//! Handler for the second handshake message: the counterparty-initiated
//! path.  This chain checks the initiator's proofs, negotiates a version,
//! and creates (or, on the crossing-hellos path, re-uses) an end in
//! TryOpen.

use vstd::prelude::*;
use crate::context::ReaderContext;
use crate::error::Error;
use crate::error::ErrorV;
use crate::error::ProofArtifact;
use crate::error::ProofSubject;
use crate::events::Attributes;
use crate::events::AttributesV;
use crate::events::IbcEvent;
use crate::events::IbcEventV;
use crate::handler::ConnectionIdState;
use crate::handler::ConnectionResult;
use crate::handler::ConnectionResultV;
use crate::handler::HandlerOutputBuilder;
use crate::handler::HandlerOutputV;
use crate::handler::HandlerResult;
use crate::handler::res_view;
use crate::msgs::MsgConnectionOpenTry;
use crate::types::ConnectionEnd;
use crate::types::ConnectionEndV;
use crate::types::ConnectionId;
use crate::types::Counterparty;
use crate::types::CounterpartyV;
use crate::types::State;
use crate::types::Version;
use crate::types::dup_versions;
use crate::types::height_lte;
use crate::types::version_views;
use crate::types::versions_contain;
use crate::verify::check_client_consensus_height;
use crate::verify::connection_proof_ok;
use crate::verify::verify_client_proof;
use crate::verify::verify_connection_proof;
use crate::verify::verify_consensus_proof;

verus! {

/// The versions this chain supports, in preference order.
pub open spec fn supported_version_views() -> Seq<Seq<char>> {
    seq!["1"@]
}

/// The versions this chain supports, as values.
pub fn compatible_versions() -> (vs: Vec<Version>)
    ensures
        version_views(vs@) == supported_version_views(),
{
    let mut vs: Vec<Version> = Vec::new();
    vs.push(Version::from_str("1"));
    proof {
        assert(version_views(vs@) =~= supported_version_views());
    }
    vs
}

/// Version negotiation: the first entry of the counterparty's offered
/// order that this chain supports, if any.
pub open spec fn pick_version_spec(supported: Seq<Seq<char>>, offered: Seq<Seq<char>>) -> Option<
    Seq<char>,
>
    decreases offered.len(),
{
    if offered.len() == 0 {
        None
    } else if supported.contains(offered[0]) {
        Some(offered[0])
    } else {
        pick_version_spec(supported, offered.drop_first())
    }
}

/// Pick the first offered version that is supported.
pub fn pick_version(supported: &Vec<Version>, offered: &Vec<Version>) -> (r: Option<Version>)
    ensures
        match r {
            Some(v) => pick_version_spec(version_views(supported@), version_views(offered@))
                == Some(v@),
            None => pick_version_spec(version_views(supported@), version_views(offered@)) is None,
        },
{
    let ghost sup = version_views(supported@);
    let ghost off = version_views(offered@);
    let mut i: usize = 0;
    proof {
        assert(off.skip(0) =~= off);
    }
    while i < offered.len()
        invariant
            0 <= i <= offered@.len(),
            off == version_views(offered@),
            sup == version_views(supported@),
            pick_version_spec(sup, off) == pick_version_spec(sup, off.skip(i as int)),
        decreases offered@.len() - i,
    {
        proof {
            assert(off.skip(i as int)[0] == off[i as int]);
            assert(off[i as int] == offered@[i as int]@);
        }
        if versions_contain(supported, &offered[i]) {
            return Some(offered[i].dup());
        }
        proof {
            assert(off.skip(i as int).drop_first() =~= off.skip(i as int + 1));
        }
        i += 1;
    }
    proof {
        assert(off.skip(i as int) =~= Seq::<Seq<char>>::empty());
    }
    None
}

/// The local end after a successful Try: TryOpen, the counterparty as the
/// message describes it (its connection identifier recorded when
/// supplied), the single negotiated version, and the message's delay
/// period.
pub open spec fn try_new_connection(msg: MsgConnectionOpenTry, chosen: Seq<char>) -> ConnectionEndV {
    ConnectionEndV {
        state: State::TryOpen,
        client_id: msg.client_id@,
        counterparty: msg.counterparty@,
        versions: seq![chosen],
        delay_period: msg.delay_period,
    }
}

/// The mirror image the initiator must have committed for the Try to be
/// honest: its end in Init, pointing at this chain's client and prefix and
/// at the identifier this end is stored under, with the full offered
/// version set.
pub open spec fn try_expected_connection<Ctx: ReaderContext>(
    ctx: &Ctx,
    msg: MsgConnectionOpenTry,
    local_id: Seq<char>,
) -> ConnectionEndV {
    ConnectionEndV {
        state: State::Init,
        client_id: msg.counterparty@.client_id,
        counterparty: CounterpartyV {
            client_id: msg.client_id@,
            connection_id: Some(local_id),
            prefix: ctx.prefix_spec(),
        },
        versions: version_views(msg.counterparty_versions@),
        delay_period: msg.delay_period,
    }
}

/// The identifier and provenance of the end a successful Try results in:
/// the previous identifier (Reused) on the crossing-hellos path, else a
/// fresh one (New).
pub open spec fn try_chosen_id<Ctx: ReaderContext>(ctx: &Ctx, msg: MsgConnectionOpenTry) -> (
    Seq<char>,
    ConnectionIdState,
) {
    match msg.previous_connection_id {
        Some(pid) => (pid@, ConnectionIdState::Reused),
        None => (ctx.fresh_connection_id(), ConnectionIdState::New),
    }
}

/// The full output of a successful Try.
pub open spec fn try_success_output<Ctx: ReaderContext>(
    ctx: &Ctx,
    msg: MsgConnectionOpenTry,
    chosen: Seq<char>,
) -> HandlerOutputV<ConnectionResultV> {
    HandlerOutputV {
        result: ConnectionResultV {
            connection_id: try_chosen_id(ctx, msg).0,
            connection_id_state: try_chosen_id(ctx, msg).1,
            connection_end: try_new_connection(msg, chosen),
        },
        log: seq!["success: conn_open_try verification passed"@],
        events: seq![
            IbcEventV::OpenTryConnection(
                AttributesV {
                    connection_id: Some(try_chosen_id(ctx, msg).0),
                    height: ctx.host_height_spec(),
                    client_id: msg.client_id@,
                    counterparty_connection_id: msg.counterparty@.connection_id,
                    counterparty_client_id: msg.counterparty@.client_id,
                },
            ),
        ],
    }
}

/// What processing a Try message returns, for every context and message:
/// the local client must exist; the client state and all three proofs are
/// mandatory at this step; the consensus height must be fresh; a version
/// must be negotiable; a previous end, when named, must be Init and have
/// proposed the negotiated version; and the three membership checks must
/// pass against the expected mirror image.
pub open spec fn try_outcome<Ctx: ReaderContext>(ctx: &Ctx, msg: MsgConnectionOpenTry) -> Result<
    HandlerOutputV<ConnectionResultV>,
    ErrorV,
> {
    let host = ctx.host_height_spec();
    if !ctx.has_client(msg.client_id@) {
        Err(ErrorV::ClientNotFound { client_id: msg.client_id@ })
    } else if msg.client_state is None {
        Err(ErrorV::MissingProofArtifact { artifact: ProofArtifact::ClientStateArtifact })
    } else if msg.proofs.client_proof is None {
        Err(ErrorV::MissingProofArtifact { artifact: ProofArtifact::ClientProofArtifact })
    } else if msg.proofs.consensus_proof is None {
        Err(ErrorV::MissingProofArtifact { artifact: ProofArtifact::ConsensusProofArtifact })
    } else if !height_lte(msg.proofs.consensus_height_spec(), host) {
        Err(ErrorV::InvalidConsensusHeight {
            consensus_height: msg.proofs.consensus_height_spec(),
            host_height: host,
        })
    } else if pick_version_spec(
        supported_version_views(),
        version_views(msg.counterparty_versions@),
    ) is None {
        Err(ErrorV::ImplementationSpecific { description: "no common version"@ })
    } else {
        let chosen = pick_version_spec(
            supported_version_views(),
            version_views(msg.counterparty_versions@),
        )->0;
        let prev_ok = match msg.previous_connection_id {
            Some(pid) => ctx.has_connection(pid@),
            None => true,
        };
        if !prev_ok {
            Err(ErrorV::ConnectionNotFound {
                connection_id: msg.previous_connection_id->0@,
            })
        } else {
            let prev_consistent = match msg.previous_connection_id {
                Some(pid) => {
                    let prev = ctx.connection_view(pid@);
                    prev.state == State::Init && prev.versions.contains(chosen)
                },
                None => true,
            };
            if !prev_consistent {
                Err(ErrorV::ConnectionMismatch {
                    connection_id: msg.previous_connection_id->0@,
                })
            } else if !ctx.self_client_ok(msg.client_state->0@) {
                Err(ErrorV::ClientValidationFailed)
            } else {
                let local_id = try_chosen_id(ctx, msg).0;
                let new_conn = try_new_connection(msg, chosen);
                let expected = try_expected_connection(ctx, msg, local_id);
                if msg.counterparty@.connection_id is None {
                    Err(ErrorV::ImplementationSpecific {
                        description: "missing counterparty connection id"@,
                    })
                } else if !connection_proof_ok(
                    ctx,
                    new_conn,
                    expected,
                    msg.proofs.height,
                    msg.proofs.object_proof@,
                ) {
                    Err(ErrorV::ProofVerificationFailed {
                        subject: ProofSubject::ConnectionSubject,
                    })
                } else if !ctx.client_membership_ok(
                    msg.client_id@,
                    msg.proofs.height,
                    msg.proofs.client_proof->0@,
                    msg.client_state->0@,
                ) {
                    Err(ErrorV::ProofVerificationFailed { subject: ProofSubject::ClientSubject })
                } else if !ctx.consensus_membership_ok(
                    msg.client_id@,
                    msg.proofs.height,
                    msg.proofs.consensus_proof->0.proof@,
                    msg.proofs.consensus_proof->0.height,
                ) {
                    Err(ErrorV::ProofVerificationFailed { subject: ProofSubject::ConsensusSubject })
                } else {
                    Ok(try_success_output(ctx, msg, chosen))
                }
            }
        }
    }
}

/// Process a Try message: check preconditions and proof freshness,
/// negotiate the version, handle the crossing-hellos path, run the three
/// membership checks against the expected mirror image, and return the
/// TryOpen end; the first violated check aborts with its error.
pub fn process<Ctx: ReaderContext>(ctx: &Ctx, msg: MsgConnectionOpenTry) -> (r: HandlerResult<
    ConnectionResult,
    Error,
>)
    ensures
        res_view(r) == try_outcome(ctx, msg),
{
    let mut output = HandlerOutputBuilder::new();

    if !ctx.client_exists(&msg.client_id) {
        return Err(Error::ClientNotFound { client_id: msg.client_id });
    }

    let client_state = match &msg.client_state {
        Some(cs) => cs,
        None => {
            return Err(Error::missing_proof_artifact(ProofArtifact::ClientStateArtifact));
        },
    };

    let client_proof = match &msg.proofs.client_proof {
        Some(p) => p,
        None => {
            return Err(Error::missing_proof_artifact(ProofArtifact::ClientProofArtifact));
        },
    };

    let consensus_proof = match &msg.proofs.consensus_proof {
        Some(cp) => cp,
        None => {
            return Err(Error::missing_proof_artifact(ProofArtifact::ConsensusProofArtifact));
        },
    };

    // The consensus proof's embedded height must not be ahead of this
    // chain.
    match check_client_consensus_height(ctx, consensus_proof.height) {
        Ok(u) => u,
        Err(e) => {
            return Err(e);
        },
    };

    // Version negotiation: the first mutually compatible entry in the
    // counterparty's offered order.
    let supported = compatible_versions();
    let chosen = match pick_version(&supported, &msg.counterparty_versions) {
        Some(v) => v,
        None => {
            return Err(Error::implementation_specific("no common version"));
        },
    };

    // Crossing hellos: a previous end under the named identifier must be
    // Init and have proposed the negotiated version; otherwise a new end
    // is created under a fresh identifier.
    let (conn_id, id_state) = match &msg.previous_connection_id {
        Some(pid) => {
            let prev = match ctx.connection_end(pid) {
                Ok(c) => c,
                Err(e) => {
                    return Err(e);
                },
            };
            if !(prev.state_matches(&State::Init) && versions_contain(&prev.versions, &chosen)) {
                return Err(Error::connection_mismatch(pid.dup()));
            }
            (pid.dup(), ConnectionIdState::Reused)
        },
        None => (ctx.new_connection_id(), ConnectionIdState::New),
    };

    match ctx.validate_self_client(client_state) {
        Ok(u) => u,
        Err(e) => {
            return Err(e);
        },
    };

    let mut chosen_versions: Vec<Version> = Vec::new();
    chosen_versions.push(chosen);
    let conn_end = ConnectionEnd::new(
        State::TryOpen,
        msg.client_id.dup(),
        msg.counterparty.dup(),
        chosen_versions,
        msg.delay_period,
    );
    proof {
        assert(conn_end@ =~= try_new_connection(
            msg,
            pick_version_spec(
                supported_version_views(),
                version_views(msg.counterparty_versions@),
            )->0,
        ));
    }

    let expected_conn = ConnectionEnd::new(
        State::Init,
        msg.counterparty.client_id.dup(),
        Counterparty::new(msg.client_id.dup(), Some(conn_id.dup()), ctx.commitment_prefix()),
        dup_versions(&msg.counterparty_versions),
        msg.delay_period,
    );
    proof {
        assert(expected_conn@ =~= try_expected_connection(ctx, msg, conn_id@));
    }

    match verify_connection_proof(
        ctx,
        msg.proofs.height(),
        &conn_end,
        &expected_conn,
        &msg.proofs.object_proof,
    ) {
        Ok(u) => u,
        Err(e) => {
            return Err(e);
        },
    };

    match verify_client_proof(ctx, msg.proofs.height(), &conn_end, client_state, client_proof) {
        Ok(u) => u,
        Err(e) => {
            return Err(e);
        },
    };

    match verify_consensus_proof(ctx, msg.proofs.height(), &conn_end, consensus_proof) {
        Ok(u) => u,
        Err(e) => {
            return Err(e);
        },
    };

    output.log("success: conn_open_try verification passed");

    let event_attributes = Attributes {
        connection_id: Some(conn_id.dup()),
        height: ctx.host_height(),
        client_id: msg.client_id.dup(),
        counterparty_connection_id: match &msg.counterparty.connection_id {
            Some(id) => Some(id.dup()),
            None => None,
        },
        counterparty_client_id: msg.counterparty.client_id.dup(),
    };
    output.emit(IbcEvent::OpenTryConnection(event_attributes));

    let result = ConnectionResult {
        connection_id: conn_id,
        connection_id_state: id_state,
        connection_end: conn_end,
    };

    let out = output.with_result(result);
    proof {
        assert(out@ =~~= try_success_output(
            ctx,
            msg,
            pick_version_spec(
                supported_version_views(),
                version_views(msg.counterparty_versions@),
            )->0,
        ));
    }
    Ok(out)
}

} // verus!
