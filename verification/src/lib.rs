//! Synchronisation of a shell history store with another machine over the
//! standard input and output of a remote command.
//!
//! The library holds every decision of the exchange and none of its I/O: the
//! framing of messages, what a client asks and makes of the answers, how a
//! server answers, and the two sessions that the command line starts. Each of
//! the last three is a state machine over plain values. The program around it
//! performs the actions that a machine asks for and hands back what came of them.

pub mod error;
pub mod exchange_laws;
pub mod laws;
pub mod record;
pub mod session_laws;
pub mod ssh_client;
pub mod ssh_protocol;
pub mod ssh_server;
pub mod ssh_sync;
pub mod text;
