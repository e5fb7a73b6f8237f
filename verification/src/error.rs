//! The closed error taxonomy of the handshake engine.  Callers match it
//! exhaustively; every handler's contract says exactly which variant comes
//! back on which input.

use vstd::prelude::*;
use crate::types::ClientId;
use crate::types::ConnectionId;
use crate::types::Height;

verus! {

/// Which mandatory artifact a message failed to carry.
#[derive(Clone, Copy, Debug, PartialEq, Eq, Structural)]
pub enum ProofArtifact {
    ClientStateArtifact,
    ClientProofArtifact,
    ConsensusProofArtifact,
}

/// Which membership check against the counterparty's committed state failed.
#[derive(Clone, Copy, Debug, PartialEq, Eq, Structural)]
pub enum ProofSubject {
    ConnectionSubject,
    ClientSubject,
    ConsensusSubject,
}

/// A handshake failure.  The first violated check aborts the handler with
/// the matching variant; no partial mutation is ever visible.
#[derive(Clone, Debug, PartialEq, Eq)]
pub enum Error {
    /// The referenced connection id is absent from the context.
    ConnectionNotFound { connection_id: ConnectionId },
    /// The existing connection end's state or versions are inconsistent
    /// with the step being processed.
    ConnectionMismatch { connection_id: ConnectionId },
    /// A mandatory proof or field is absent for the step.
    MissingProofArtifact { artifact: ProofArtifact },
    /// The consensus height embedded in a proof is ahead of the host height.
    InvalidConsensusHeight { consensus_height: Height, host_height: Height },
    /// A membership check against the counterparty's committed state failed.
    ProofVerificationFailed { subject: ProofSubject },
    /// The supplied client state was rejected as a self-description.
    ClientValidationFailed,
    /// The referenced client is absent from the local client store.
    ClientNotFound { client_id: ClientId },
    /// Step-specific precondition failure described by text.
    ImplementationSpecific { description: String },
}

/// Mathematical view of an `Error`.
#[verifier::ext_equal]
pub enum ErrorV {
    ConnectionNotFound { connection_id: Seq<char> },
    ConnectionMismatch { connection_id: Seq<char> },
    MissingProofArtifact { artifact: ProofArtifact },
    InvalidConsensusHeight { consensus_height: Height, host_height: Height },
    ProofVerificationFailed { subject: ProofSubject },
    ClientValidationFailed,
    ClientNotFound { client_id: Seq<char> },
    ImplementationSpecific { description: Seq<char> },
}

impl View for Error {
    type V = ErrorV;

    open spec fn view(&self) -> ErrorV {
        match self {
            Error::ConnectionNotFound { connection_id } => ErrorV::ConnectionNotFound {
                connection_id: connection_id@,
            },
            Error::ConnectionMismatch { connection_id } => ErrorV::ConnectionMismatch {
                connection_id: connection_id@,
            },
            Error::MissingProofArtifact { artifact } => ErrorV::MissingProofArtifact {
                artifact: *artifact,
            },
            Error::InvalidConsensusHeight { consensus_height, host_height } => ErrorV::InvalidConsensusHeight {
                consensus_height: *consensus_height,
                host_height: *host_height,
            },
            Error::ProofVerificationFailed { subject } => ErrorV::ProofVerificationFailed {
                subject: *subject,
            },
            Error::ClientValidationFailed => ErrorV::ClientValidationFailed,
            Error::ClientNotFound { client_id } => ErrorV::ClientNotFound { client_id: client_id@ },
            Error::ImplementationSpecific { description } => ErrorV::ImplementationSpecific {
                description: description@,
            },
        }
    }
}

impl Error {
    pub fn connection_not_found(connection_id: ConnectionId) -> (e: Error)
        ensures
            e@ == (ErrorV::ConnectionNotFound { connection_id: connection_id@ }),
    {
        Error::ConnectionNotFound { connection_id }
    }

    pub fn connection_mismatch(connection_id: ConnectionId) -> (e: Error)
        ensures
            e@ == (ErrorV::ConnectionMismatch { connection_id: connection_id@ }),
    {
        Error::ConnectionMismatch { connection_id }
    }

    pub fn missing_proof_artifact(artifact: ProofArtifact) -> (e: Error)
        ensures
            e@ == (ErrorV::MissingProofArtifact { artifact }),
    {
        Error::MissingProofArtifact { artifact }
    }

    pub fn invalid_consensus_height(consensus_height: Height, host_height: Height) -> (e: Error)
        ensures
            e@ == (ErrorV::InvalidConsensusHeight { consensus_height, host_height }),
    {
        Error::InvalidConsensusHeight { consensus_height, host_height }
    }

    pub fn proof_verification_failed(subject: ProofSubject) -> (e: Error)
        ensures
            e@ == (ErrorV::ProofVerificationFailed { subject }),
    {
        Error::ProofVerificationFailed { subject }
    }

    pub fn implementation_specific(description: &str) -> (e: Error)
        ensures
            e@ == (ErrorV::ImplementationSpecific { description: description@ }),
    {
        Error::ImplementationSpecific { description: description.to_owned() }
    }
}

} // verus!
