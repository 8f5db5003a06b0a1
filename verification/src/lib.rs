//! Finds the process at the far end of a TCP connection whose two endpoints are
//! on this host.
//!
//! The library holds the rules and leaves the doing to its caller: which
//! connections are accepted, where the inspector may be found and how it is
//! invoked, how its output is read, and which one process, if any, is the
//! answer. See [`resolve`] for the way through a resolution.

pub mod address;
pub mod c_api;
pub mod decimal;
pub mod error;
pub mod inspector;
pub mod output;
pub mod resolve;
pub mod text;

pub use address::Endpoint;
pub use error::{Cause, RemotePidError};
pub use inspector::{Inspection, Invocation};
pub use resolve::{addr_pair, first_address, raw_fd, RemotePid, Search, Step};
