//! The read-only capability surface the handlers consume: connection and
//! client stores, host parameters, and the light-client membership checks,
//! keyed by client identifier.  The abstract spec functions model what the
//! capability holds; every executable method is tied to them, so handler
//! contracts are exact for any implementation.

use vstd::prelude::*;
use crate::error::Error;
use crate::error::ErrorV;
use crate::types::ClientId;
use crate::types::ClientState;
use crate::types::ClientStateV;
use crate::types::CommitmentPrefix;
use crate::types::ConnectionEnd;
use crate::types::ConnectionEndV;
use crate::types::ConnectionId;
use crate::types::Height;

verus! {

/// Read-only access to the stores and the light-client capability, as one
/// internally consistent snapshot: one height, one view of the stores.
pub trait ReaderContext: Sized {
    /// Whether a connection end is stored under this identifier.
    spec fn has_connection(&self, id: Seq<char>) -> bool;

    /// The stored connection end for an identifier that `has_connection`.
    spec fn connection_view(&self, id: Seq<char>) -> ConnectionEndV;

    /// Whether a client is registered in the local client store.
    spec fn has_client(&self, id: Seq<char>) -> bool;

    /// Whether a client state is acceptable as this chain's self-description.
    spec fn self_client_ok(&self, cs: ClientStateV) -> bool;

    /// The current height of this chain.
    spec fn host_height_spec(&self) -> Height;

    /// The commitment prefix of this chain.
    spec fn prefix_spec(&self) -> Seq<u8>;

    /// The identifier this chain hands to the next new connection.
    spec fn fresh_connection_id(&self) -> Seq<char>;

    /// Whether the light client `client_id` accepts `proof` at
    /// `proof_height` as a membership proof that the counterparty committed
    /// `expected` under its connection identifier `counterparty_conn_id`.
    spec fn connection_membership_ok(
        &self,
        client_id: Seq<char>,
        proof_height: Height,
        proof: Seq<u8>,
        counterparty_conn_id: Seq<char>,
        expected: ConnectionEndV,
    ) -> bool;

    /// Whether the light client `client_id` accepts `proof` at
    /// `proof_height` as a membership proof that the counterparty committed
    /// the client state `expected` for its view of this chain.
    spec fn client_membership_ok(
        &self,
        client_id: Seq<char>,
        proof_height: Height,
        proof: Seq<u8>,
        expected: ClientStateV,
    ) -> bool;

    /// Whether the light client `client_id` accepts `proof` at
    /// `proof_height` as a membership proof of the consensus state the
    /// counterparty holds about this chain at `consensus_height`.
    spec fn consensus_membership_ok(
        &self,
        client_id: Seq<char>,
        proof_height: Height,
        proof: Seq<u8>,
        consensus_height: Height,
    ) -> bool;

    /// Look up a connection end; `ConnectionNotFound` exactly when the
    /// identifier is absent.
    fn connection_end(&self, id: &ConnectionId) -> (r: Result<ConnectionEnd, Error>)
        ensures
            match r {
                Ok(c) => self.has_connection(id@) && c@ == self.connection_view(id@),
                Err(e) => !self.has_connection(id@) && e@ == (ErrorV::ConnectionNotFound {
                    connection_id: id@,
                }),
            },
    ;

    /// Whether a client is registered under `id`.
    fn client_exists(&self, id: &ClientId) -> (b: bool)
        ensures
            b == self.has_client(id@),
    ;

    /// Validate a client state as a self-description of this chain.
    fn validate_self_client(&self, cs: &ClientState) -> (r: Result<(), Error>)
        ensures
            r is Ok <==> self.self_client_ok(cs@),
            r is Err ==> r->Err_0@ == ErrorV::ClientValidationFailed,
    ;

    /// The current host height.
    fn host_height(&self) -> (h: Height)
        ensures
            h == self.host_height_spec(),
    ;

    /// This chain's commitment prefix.
    fn commitment_prefix(&self) -> (p: CommitmentPrefix)
        ensures
            p@ == self.prefix_spec(),
    ;

    /// A fresh connection identifier for a newly created end.
    fn new_connection_id(&self) -> (id: ConnectionId)
        ensures
            id@ == self.fresh_connection_id(),
    ;

    /// Run the connection-membership check of the light client `client_id`.
    fn check_connection_membership(
        &self,
        client_id: &ClientId,
        proof_height: Height,
        proof: &crate::types::CommitmentProofBytes,
        counterparty_conn_id: &ConnectionId,
        expected: &ConnectionEnd,
    ) -> (b: bool)
        ensures
            b == self.connection_membership_ok(
                client_id@,
                proof_height,
                proof@,
                counterparty_conn_id@,
                expected@,
            ),
    ;

    /// Run the client-state membership check of the light client `client_id`.
    fn check_client_membership(
        &self,
        client_id: &ClientId,
        proof_height: Height,
        proof: &crate::types::CommitmentProofBytes,
        expected: &ClientState,
    ) -> (b: bool)
        ensures
            b == self.client_membership_ok(client_id@, proof_height, proof@, expected@),
    ;

    /// Run the consensus-state membership check of the light client
    /// `client_id`.
    fn check_consensus_membership(
        &self,
        client_id: &ClientId,
        proof_height: Height,
        proof: &crate::types::CommitmentProofBytes,
        consensus_height: Height,
    ) -> (b: bool)
        ensures
            b == self.consensus_membership_ok(client_id@, proof_height, proof@, consensus_height),
    ;
}

} // verus!
