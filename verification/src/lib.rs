//! A local bridge that runs a command-line program on behalf of callers that
//! reach it over a Unix domain socket.
//!
//! The crate holds the rules of the bridge: how an exit status becomes an exit
//! code, which executable is run, what a child process is started with, who is
//! admitted while a concurrency limit is in force, and how the socket and the
//! server are brought up and taken down. Everything that touches the outside
//! world is performed by the program around this library, which carries out
//! the actions decided here and reports back what happened.

pub mod admission;
pub mod error;
pub mod exit;
pub mod invocation;
pub mod paths;
pub mod service;
pub mod shutdown;
pub mod socket;
pub mod status;
