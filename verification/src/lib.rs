//! Request dispatch and streaming body transformation for a small echo
//! service, together with the command dispatch and the periodic announcer of
//! its companion chat client.
//!
//! Every function here is a pure decision or computation on plain values; the
//! sockets, timers and gateways that feed them live with the caller.

pub mod announcer;
pub mod command;
pub mod router;
pub mod text;
pub mod transform;
