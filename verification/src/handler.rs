//! Deferred-commit handler output: each handler returns its result, the
//! events it emits and its log lines as one value; the caller alone applies
//! anything to durable state.

use vstd::prelude::*;
use crate::error::Error;
use crate::error::ErrorV;
use crate::events::IbcEvent;
use crate::events::IbcEventV;
use crate::types::ConnectionEnd;
use crate::types::ConnectionEndV;
use crate::types::ConnectionId;

verus! {

/// Whether the connection identifier in a result was freshly produced by
/// this chain or reused from an earlier step.
#[derive(Clone, Copy, Debug, PartialEq, Eq, Structural)]
pub enum ConnectionIdState {
    New,
    Reused,
}

/// The sole value carried out of a successful handler: the identifier, its
/// provenance, and the resulting connection end.
#[derive(Clone, Debug, PartialEq, Eq)]
pub struct ConnectionResult {
    pub connection_id: ConnectionId,
    pub connection_id_state: ConnectionIdState,
    pub connection_end: ConnectionEnd,
}

/// Mathematical view of a `ConnectionResult`.
#[verifier::ext_equal]
pub struct ConnectionResultV {
    pub connection_id: Seq<char>,
    pub connection_id_state: ConnectionIdState,
    pub connection_end: ConnectionEndV,
}

impl View for ConnectionResult {
    type V = ConnectionResultV;

    open spec fn view(&self) -> ConnectionResultV {
        ConnectionResultV {
            connection_id: self.connection_id@,
            connection_id_state: self.connection_id_state,
            connection_end: self.connection_end@,
        }
    }
}

/// A handler's accumulated output: log lines, emitted events, and the
/// resulting value.
#[derive(Clone, Debug, PartialEq, Eq)]
pub struct HandlerOutput<T> {
    pub result: T,
    pub log: Vec<String>,
    pub events: Vec<IbcEvent>,
}

/// Mathematical view of a `HandlerOutput`.
#[verifier::ext_equal]
pub struct HandlerOutputV<R> {
    pub result: R,
    pub log: Seq<Seq<char>>,
    pub events: Seq<IbcEventV>,
}

impl<T: View> View for HandlerOutput<T> {
    type V = HandlerOutputV<T::V>;

    open spec fn view(&self) -> HandlerOutputV<T::V> {
        HandlerOutputV {
            result: self.result@,
            log: self.log@.map_values(|s: String| s@),
            events: self.events@.map_values(|e: IbcEvent| e@),
        }
    }
}

/// What a handler returns: its full output, or the first violated check's
/// error.
pub type HandlerResult<T, E> = Result<HandlerOutput<T>, E>;

/// The mathematical view of a handler result: the output's view on
/// success, the error's view on failure.
pub open spec fn res_view<T: View>(r: HandlerResult<T, Error>) -> Result<
    HandlerOutputV<T::V>,
    ErrorV,
> {
    match r {
        Ok(o) => Ok(o@),
        Err(e) => Err(e@),
    }
}

/// Accumulates log lines and events until the handler supplies its result.
pub struct HandlerOutputBuilder {
    pub log: Vec<String>,
    pub events: Vec<IbcEvent>,
}

impl HandlerOutputBuilder {
    pub open spec fn log_views(&self) -> Seq<Seq<char>> {
        self.log@.map_values(|s: String| s@)
    }

    pub open spec fn events_views(&self) -> Seq<IbcEventV> {
        self.events@.map_values(|e: IbcEvent| e@)
    }

    pub fn new() -> (b: HandlerOutputBuilder)
        ensures
            b.log_views() == Seq::<Seq<char>>::empty(),
            b.events_views() == Seq::<IbcEventV>::empty(),
    {
        let b = HandlerOutputBuilder { log: Vec::new(), events: Vec::new() };
        proof {
            assert(b.log_views() =~= Seq::<Seq<char>>::empty());
            assert(b.events_views() =~= Seq::<IbcEventV>::empty());
        }
        b
    }

    pub fn log(&mut self, entry: &str)
        ensures
            final(self).log_views() == old(self).log_views().push(entry@),
            final(self).events_views() == old(self).events_views(),
    {
        self.log.push(entry.to_owned());
        proof {
            assert(self.log_views() =~= old(self).log_views().push(entry@));
            assert(self.events_views() =~= old(self).events_views());
        }
    }

    pub fn emit(&mut self, event: IbcEvent)
        ensures
            final(self).events_views() == old(self).events_views().push(event@),
            final(self).log_views() == old(self).log_views(),
    {
        self.events.push(event);
        proof {
            assert(self.events_views() =~= old(self).events_views().push(event@));
            assert(self.log_views() =~= old(self).log_views());
        }
    }

    pub fn with_result<T: View>(self, result: T) -> (o: HandlerOutput<T>)
        ensures
            o@ == (HandlerOutputV {
                result: result@,
                log: self.log_views(),
                events: self.events_views(),
            }),
    {
        HandlerOutput { result, log: self.log, events: self.events }
    }
}

} // verus!
