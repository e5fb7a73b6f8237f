//! Events emitted by the handlers, one per successful handshake step.  They
//! carry enough identifiers to correlate both sides of the handshake and
//! the host height at emission.

use vstd::prelude::*;
use crate::types::ClientId;
use crate::types::ConnectionId;
use crate::types::Height;

verus! {

/// The identifying fields carried by every handshake event.
#[derive(Clone, Debug, PartialEq, Eq)]
pub struct Attributes {
    pub connection_id: Option<ConnectionId>,
    pub height: Height,
    pub client_id: ClientId,
    pub counterparty_connection_id: Option<ConnectionId>,
    pub counterparty_client_id: ClientId,
}

/// Mathematical view of `Attributes`.
#[verifier::ext_equal]
pub struct AttributesV {
    pub connection_id: Option<Seq<char>>,
    pub height: Height,
    pub client_id: Seq<char>,
    pub counterparty_connection_id: Option<Seq<char>>,
    pub counterparty_client_id: Seq<char>,
}

impl View for Attributes {
    type V = AttributesV;

    open spec fn view(&self) -> AttributesV {
        AttributesV {
            connection_id: match self.connection_id {
                Some(id) => Some(id@),
                None => None,
            },
            height: self.height,
            client_id: self.client_id@,
            counterparty_connection_id: match self.counterparty_connection_id {
                Some(id) => Some(id@),
                None => None,
            },
            counterparty_client_id: self.counterparty_client_id@,
        }
    }
}

/// One event per handshake step.
#[derive(Clone, Debug, PartialEq, Eq)]
pub enum IbcEvent {
    OpenInitConnection(Attributes),
    OpenTryConnection(Attributes),
    OpenAckConnection(Attributes),
    OpenConfirmConnection(Attributes),
}

/// Mathematical view of an `IbcEvent`.
#[verifier::ext_equal]
pub enum IbcEventV {
    OpenInitConnection(AttributesV),
    OpenTryConnection(AttributesV),
    OpenAckConnection(AttributesV),
    OpenConfirmConnection(AttributesV),
}

impl View for IbcEvent {
    type V = IbcEventV;

    open spec fn view(&self) -> IbcEventV {
        match self {
            IbcEvent::OpenInitConnection(a) => IbcEventV::OpenInitConnection(a@),
            IbcEvent::OpenTryConnection(a) => IbcEventV::OpenTryConnection(a@),
            IbcEvent::OpenAckConnection(a) => IbcEventV::OpenAckConnection(a@),
            IbcEvent::OpenConfirmConnection(a) => IbcEventV::OpenConfirmConnection(a@),
        }
    }
}

impl IbcEvent {
    /// The emission height carried by the event's attributes.
    pub fn height(&self) -> (h: Height)
        ensures
            h == self.attributes_view().height,
    {
        match self {
            IbcEvent::OpenInitConnection(a) => a.height,
            IbcEvent::OpenTryConnection(a) => a.height,
            IbcEvent::OpenAckConnection(a) => a.height,
            IbcEvent::OpenConfirmConnection(a) => a.height,
        }
    }

    /// The attributes of the event, whichever step it belongs to.
    pub open spec fn attributes_view(&self) -> AttributesV {
        match self {
            IbcEvent::OpenInitConnection(a) => a@,
            IbcEvent::OpenTryConnection(a) => a@,
            IbcEvent::OpenAckConnection(a) => a@,
            IbcEvent::OpenConfirmConnection(a) => a@,
        }
    }
}

} // verus!
