//! Connection-handshake engine for an inter-chain communication stack.
//!
//! Two independently operated ledgers, each tracking the other through a
//! light client, establish a mutually authenticated connection by a
//! four-message handshake: Init, Try, Ack, Confirm.  Each handler here is a
//! pure function from a read-only context snapshot and a message to either a
//! handler output (result, events, log lines) or a typed error; nothing is
//! committed to durable state by this crate.  Wire encoding, the light-client
//! proof cryptography and the persistent stores are external collaborators,
//! reached only through the `ReaderContext` capability trait.

pub mod types;
pub mod error;
pub mod events;
pub mod handler;
pub mod msgs;
pub mod context;
pub mod mock_context;
pub mod verify;
pub mod conn_open_init;
pub mod conn_open_try;
pub mod conn_open_ack;
pub mod conn_open_confirm;
pub mod dispatch;
pub mod laws;
