//! Handler for the first handshake message: this chain creates a new
//! connection end in Init towards the counterparty.  No proof verification
//! — the counterparty's state is still unknown.

use vstd::prelude::*;
use crate::context::ReaderContext;
use crate::error::Error;
use crate::error::ErrorV;
use crate::events::Attributes;
use crate::events::AttributesV;
use crate::events::IbcEvent;
use crate::events::IbcEventV;
use crate::handler::ConnectionIdState;
use crate::handler::ConnectionResult;
use crate::handler::ConnectionResultV;
use crate::handler::HandlerOutputBuilder;
use crate::handler::HandlerOutputV;
use crate::handler::HandlerResult;
use crate::handler::res_view;
use crate::msgs::MsgConnectionOpenInit;
use crate::types::ConnectionEnd;
use crate::types::ConnectionEndV;
use crate::types::Counterparty;
use crate::types::CounterpartyV;
use crate::types::State;
use crate::types::dup_versions;
use crate::types::version_views;

verus! {

/// The identifier the new end is stored under: the caller's candidate when
/// one is supplied, else a fresh one produced by this chain.
pub open spec fn init_chosen_id<Ctx: ReaderContext>(ctx: &Ctx, msg: MsgConnectionOpenInit) -> Seq<
    char,
> {
    match msg.candidate_connection_id {
        Some(id) => id@,
        None => ctx.fresh_connection_id(),
    }
}

/// The end created by Init: state Init, counterparty connection identifier
/// still unknown, the caller-supplied candidate version set and delay
/// period.
pub open spec fn init_new_connection(msg: MsgConnectionOpenInit) -> ConnectionEndV {
    ConnectionEndV {
        state: State::Init,
        client_id: msg.client_id@,
        counterparty: CounterpartyV {
            client_id: msg.counterparty_client_id@,
            connection_id: None,
            prefix: msg.counterparty_prefix@,
        },
        versions: version_views(msg.versions@),
        delay_period: msg.delay_period,
    }
}

/// The full output of a successful Init: a New identifier with the Init
/// end, one log line, one OpenInitConnection event.
pub open spec fn init_success_output<Ctx: ReaderContext>(
    ctx: &Ctx,
    msg: MsgConnectionOpenInit,
) -> HandlerOutputV<ConnectionResultV> {
    HandlerOutputV {
        result: ConnectionResultV {
            connection_id: init_chosen_id(ctx, msg),
            connection_id_state: ConnectionIdState::New,
            connection_end: init_new_connection(msg),
        },
        log: seq!["success: conn_open_init verification passed"@],
        events: seq![
            IbcEventV::OpenInitConnection(
                AttributesV {
                    connection_id: Some(init_chosen_id(ctx, msg)),
                    height: ctx.host_height_spec(),
                    client_id: msg.client_id@,
                    counterparty_connection_id: None,
                    counterparty_client_id: msg.counterparty_client_id@,
                },
            ),
        ],
    }
}

/// What processing an Init message returns, for every context and message:
/// the local client must exist; nothing else is checked at this step.
pub open spec fn init_outcome<Ctx: ReaderContext>(ctx: &Ctx, msg: MsgConnectionOpenInit) -> Result<
    HandlerOutputV<ConnectionResultV>,
    ErrorV,
> {
    if !ctx.has_client(msg.client_id@) {
        Err(ErrorV::ClientNotFound { client_id: msg.client_id@ })
    } else {
        Ok(init_success_output(ctx, msg))
    }
}

/// Process an Init message: check the local client exists, construct the
/// Init end under a new identifier, and emit the OpenInitConnection event.
pub fn process<Ctx: ReaderContext>(ctx: &Ctx, msg: MsgConnectionOpenInit) -> (r: HandlerResult<
    ConnectionResult,
    Error,
>)
    ensures
        res_view(r) == init_outcome(ctx, msg),
{
    let mut output = HandlerOutputBuilder::new();

    if !ctx.client_exists(&msg.client_id) {
        return Err(Error::ClientNotFound { client_id: msg.client_id });
    }

    let conn_id = match &msg.candidate_connection_id {
        Some(id) => id.dup(),
        None => ctx.new_connection_id(),
    };

    let counterparty = Counterparty::new(
        msg.counterparty_client_id.dup(),
        None,
        msg.counterparty_prefix.dup(),
    );
    let conn_end = ConnectionEnd::new(
        State::Init,
        msg.client_id.dup(),
        counterparty,
        dup_versions(&msg.versions),
        msg.delay_period,
    );
    proof {
        assert(conn_end@ =~= init_new_connection(msg));
    }

    output.log("success: conn_open_init verification passed");

    let event_attributes = Attributes {
        connection_id: Some(conn_id.dup()),
        height: ctx.host_height(),
        client_id: msg.client_id.dup(),
        counterparty_connection_id: None,
        counterparty_client_id: msg.counterparty_client_id.dup(),
    };
    output.emit(IbcEvent::OpenInitConnection(event_attributes));

    let result = ConnectionResult {
        connection_id: conn_id,
        connection_id_state: ConnectionIdState::New,
        connection_end: conn_end,
    };

    let out = output.with_result(result);
    proof {
        assert(out@ =~~= init_success_output(ctx, msg));
    }
    Ok(out)
}

} // verus!
