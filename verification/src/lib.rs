//! Core of an IMAP4rev1 client: the response demultiplexer and the IDLE
//! handle, verified.
//!
//! A server connection yields a stream of parsed response records.  The
//! demultiplexers in [`demux`] separate the replies that belong to one
//! in-flight command from the unilateral updates the server pushes at any
//! time, routing the latter into a sink; the IDLE handle in [`idle`]
//! opens the RFC 2177 push-reception mode and terminates it with `DONE`.

pub mod demux;
pub mod error;
pub mod idle;
pub mod laws;
pub mod parse;
pub mod response;
pub mod session;
pub mod stream;
pub mod text;
pub mod types;
