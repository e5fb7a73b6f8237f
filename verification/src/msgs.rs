//! The four handshake message shapes (fields, not wire bytes — encoding is
//! an external collaborator) and the proofs bundle they carry.

use vstd::prelude::*;
use crate::types::ClientId;
use crate::types::ClientState;
use crate::types::CommitmentPrefix;
use crate::types::CommitmentProofBytes;
use crate::types::ConnectionId;
use crate::types::Counterparty;
use crate::types::Height;
use crate::types::Version;

verus! {

/// A consensus-state membership proof together with the counterparty height
/// it speaks about.
#[derive(Clone, Debug, PartialEq, Eq)]
pub struct ConsensusProof {
    pub proof: CommitmentProofBytes,
    pub height: Height,
}

/// The proofs bundle carried by Try, Ack and Confirm messages: the height
/// the proofs were generated at, the connection-membership proof, and the
/// client-state and consensus-state proofs where the step needs them.
#[derive(Clone, Debug, PartialEq, Eq)]
pub struct Proofs {
    pub object_proof: CommitmentProofBytes,
    pub client_proof: Option<CommitmentProofBytes>,
    pub consensus_proof: Option<ConsensusProof>,
    pub height: Height,
}

impl Proofs {
    pub fn height(&self) -> (h: Height)
        ensures
            h == self.height,
    {
        self.height
    }

    /// The height embedded in the consensus proof; meaningful only when the
    /// consensus proof is present.
    pub open spec fn consensus_height_spec(&self) -> Height {
        match self.consensus_proof {
            Some(cp) => cp.height,
            None => Height { revision_number: 0, revision_height: 0 },
        }
    }

    pub open spec fn has_consensus_proof(&self) -> bool {
        self.consensus_proof is Some
    }
}

/// First handshake message: this chain opens a connection towards the
/// counterparty.  No proofs — the counterparty's state is still unknown.
#[derive(Clone, Debug, PartialEq, Eq)]
pub struct MsgConnectionOpenInit {
    pub candidate_connection_id: Option<ConnectionId>,
    pub client_id: ClientId,
    pub counterparty_client_id: ClientId,
    pub counterparty_prefix: CommitmentPrefix,
    pub versions: Vec<Version>,
    pub delay_period: u64,
}

/// Second handshake message: the counterparty-initiated path, carrying the
/// proofs that the initiator committed its Init end.
#[derive(Clone, Debug, PartialEq, Eq)]
pub struct MsgConnectionOpenTry {
    pub previous_connection_id: Option<ConnectionId>,
    pub client_id: ClientId,
    pub client_state: Option<ClientState>,
    pub counterparty: Counterparty,
    pub counterparty_versions: Vec<Version>,
    pub proofs: Proofs,
    pub delay_period: u64,
}

/// Third handshake message: the initiator learns the counterparty's
/// connection id and the negotiated version, and proves the counterparty
/// committed its TryOpen end.
#[derive(Clone, Debug, PartialEq, Eq)]
pub struct MsgConnectionOpenAck {
    pub connection_id: ConnectionId,
    pub counterparty_connection_id: ConnectionId,
    pub version: Version,
    pub client_state: Option<ClientState>,
    pub proofs: Proofs,
}

impl MsgConnectionOpenAck {
    /// The height embedded in the consensus proof; meaningful only when
    /// that proof is present.
    pub fn consensus_height(&self) -> (h: Height)
        ensures
            h == self.proofs.consensus_height_spec(),
    {
        match &self.proofs.consensus_proof {
            Some(cp) => cp.height,
            None => Height { revision_number: 0, revision_height: 0 },
        }
    }
}

/// Fourth handshake message: the counterparty proves the initiator's end is
/// Open; only the connection proof is needed.
#[derive(Clone, Debug, PartialEq, Eq)]
pub struct MsgConnectionOpenConfirm {
    pub connection_id: ConnectionId,
    pub proofs: Proofs,
}

/// A handshake message tagged with its step kind, as handed to the
/// dispatcher.
#[derive(Clone, Debug, PartialEq, Eq)]
pub enum ConnectionMsg {
    ConnectionOpenInit(MsgConnectionOpenInit),
    ConnectionOpenTry(Box<MsgConnectionOpenTry>),
    ConnectionOpenAck(Box<MsgConnectionOpenAck>),
    ConnectionOpenConfirm(MsgConnectionOpenConfirm),
}

} // verus!
