//! The proof verifier: the four named checks a step handler runs, in its
//! order, against its expected values.  Each delegates the cryptographic
//! membership test to the light-client capability of the `ReaderContext`,
//! keyed by the connection's client identifier, and maps failures to the
//! error taxonomy.

use vstd::prelude::*;
use crate::context::ReaderContext;
use crate::error::Error;
use crate::error::ErrorV;
use crate::error::ProofSubject;
use crate::msgs::ConsensusProof;
use crate::types::ClientState;
use crate::types::CommitmentProofBytes;
use crate::types::ConnectionEnd;
use crate::types::ConnectionEndV;
use crate::types::Height;
use crate::types::height_lte;

verus! {

/// Whether the connection-membership check passes: the local end must
/// already know the counterparty's connection identifier, which is the
/// path the expected end is committed under.
pub open spec fn connection_proof_ok<Ctx: ReaderContext>(
    ctx: &Ctx,
    conn_end: ConnectionEndV,
    expected: ConnectionEndV,
    proof_height: Height,
    proof: Seq<u8>,
) -> bool {
    match conn_end.counterparty.connection_id {
        Some(path) => ctx.connection_membership_ok(
            conn_end.client_id,
            proof_height,
            proof,
            path,
            expected,
        ),
        None => false,
    }
}

/// Freshness of a consensus height claimed by a proof: it must not exceed
/// the current host height.
pub fn check_client_consensus_height<Ctx: ReaderContext>(ctx: &Ctx, claimed: Height) -> (r: Result<
    (),
    Error,
>)
    ensures
        r is Ok <==> height_lte(claimed, ctx.host_height_spec()),
        r is Err ==> r->Err_0@ == (ErrorV::InvalidConsensusHeight {
            consensus_height: claimed,
            host_height: ctx.host_height_spec(),
        }),
{
    let host = ctx.host_height();
    if claimed.lte(&host) {
        Ok(())
    } else {
        Err(Error::invalid_consensus_height(claimed, host))
    }
}

/// Verify that the counterparty's committed state contains `expected_conn`
/// under its connection identifier, at `proof_height`.
pub fn verify_connection_proof<Ctx: ReaderContext>(
    ctx: &Ctx,
    proof_height: Height,
    conn_end: &ConnectionEnd,
    expected_conn: &ConnectionEnd,
    proof: &CommitmentProofBytes,
) -> (r: Result<(), Error>)
    ensures
        r is Ok <==> connection_proof_ok(ctx, conn_end@, expected_conn@, proof_height, proof@),
        r is Err && conn_end@.counterparty.connection_id is None ==> r->Err_0@
            == (ErrorV::ImplementationSpecific {
            description: "missing counterparty connection id"@,
        }),
        r is Err && conn_end@.counterparty.connection_id is Some ==> r->Err_0@
            == (ErrorV::ProofVerificationFailed { subject: ProofSubject::ConnectionSubject }),
{
    match &conn_end.counterparty.connection_id {
        None => Err(Error::implementation_specific("missing counterparty connection id")),
        Some(path) => {
            if ctx.check_connection_membership(
                &conn_end.client_id,
                proof_height,
                proof,
                path,
                expected_conn,
            ) {
                Ok(())
            } else {
                Err(Error::proof_verification_failed(ProofSubject::ConnectionSubject))
            }
        },
    }
}

/// Verify that the counterparty's committed state contains `client_state`
/// as its view of this chain, at `proof_height`.
pub fn verify_client_proof<Ctx: ReaderContext>(
    ctx: &Ctx,
    proof_height: Height,
    conn_end: &ConnectionEnd,
    client_state: &ClientState,
    proof: &CommitmentProofBytes,
) -> (r: Result<(), Error>)
    ensures
        r is Ok <==> ctx.client_membership_ok(
            conn_end@.client_id,
            proof_height,
            proof@,
            client_state@,
        ),
        r is Err ==> r->Err_0@ == (ErrorV::ProofVerificationFailed {
            subject: ProofSubject::ClientSubject,
        }),
{
    if ctx.check_client_membership(&conn_end.client_id, proof_height, proof, client_state) {
        Ok(())
    } else {
        Err(Error::proof_verification_failed(ProofSubject::ClientSubject))
    }
}

/// Verify that the counterparty's committed state contains the consensus
/// state this chain expects it to hold, at the proof's embedded height.
pub fn verify_consensus_proof<Ctx: ReaderContext>(
    ctx: &Ctx,
    proof_height: Height,
    conn_end: &ConnectionEnd,
    consensus_proof: &ConsensusProof,
) -> (r: Result<(), Error>)
    ensures
        r is Ok <==> ctx.consensus_membership_ok(
            conn_end@.client_id,
            proof_height,
            consensus_proof.proof@,
            consensus_proof.height,
        ),
        r is Err ==> r->Err_0@ == (ErrorV::ProofVerificationFailed {
            subject: ProofSubject::ConsensusSubject,
        }),
{
    if ctx.check_consensus_membership(
        &conn_end.client_id,
        proof_height,
        &consensus_proof.proof,
        consensus_proof.height,
    ) {
        Ok(())
    } else {
        Err(Error::proof_verification_failed(ProofSubject::ConsensusSubject))
    }
}

} // verus!
