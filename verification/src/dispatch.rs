//! The dispatcher: route a handshake message to the matching step handler
//! and return its result unmodified.

use vstd::prelude::*;
use crate::conn_open_ack;
use crate::conn_open_confirm;
use crate::conn_open_init;
use crate::conn_open_try;
use crate::context::ReaderContext;
use crate::error::Error;
use crate::error::ErrorV;
use crate::handler::ConnectionResult;
use crate::handler::ConnectionResultV;
use crate::handler::HandlerOutputV;
use crate::handler::HandlerResult;
use crate::handler::res_view;
use crate::msgs::ConnectionMsg;

verus! {

/// What dispatching a message returns: exactly the matching handler's
/// outcome.
pub open spec fn dispatch_outcome<Ctx: ReaderContext>(ctx: &Ctx, msg: ConnectionMsg) -> Result<
    HandlerOutputV<ConnectionResultV>,
    ErrorV,
> {
    match msg {
        ConnectionMsg::ConnectionOpenInit(m) => conn_open_init::init_outcome(ctx, m),
        ConnectionMsg::ConnectionOpenTry(m) => conn_open_try::try_outcome(ctx, *m),
        ConnectionMsg::ConnectionOpenAck(m) => conn_open_ack::ack_outcome(ctx, *m),
        ConnectionMsg::ConnectionOpenConfirm(m) => conn_open_confirm::confirm_outcome(ctx, m),
    }
}

/// Invoke exactly the handler matching the message's step kind; no other
/// side effect.
pub fn dispatch<Ctx: ReaderContext>(ctx: &Ctx, msg: ConnectionMsg) -> (r: HandlerResult<
    ConnectionResult,
    Error,
>)
    ensures
        res_view(r) == dispatch_outcome(ctx, msg),
{
    match msg {
        ConnectionMsg::ConnectionOpenInit(m) => conn_open_init::process(ctx, m),
        ConnectionMsg::ConnectionOpenTry(m) => conn_open_try::process(ctx, *m),
        ConnectionMsg::ConnectionOpenAck(m) => conn_open_ack::process(ctx, *m),
        ConnectionMsg::ConnectionOpenConfirm(m) => conn_open_confirm::process(ctx, m),
    }
}

} // verus!
