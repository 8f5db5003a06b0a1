//! Resolving a connection to the PID at its far end.
//!
//! A resolution needs the file system, to find the inspector, and a child
//! process, to run it. This library does neither. It decides: it says which
//! path to probe and what to run, the caller does so and reports what came
//! of it.
//!
//! - [`first_address`] picks the address of each end, and [`addr_pair`]
//!   accepts the connection or refuses it.
//! - The [`Search`] names one trusted path after the other, and
//!   [`Search::probed`] takes the answer for each, until there is an
//!   [`Invocation`] to run or no path is left.
//! - What the run printed and how it ended is an
//!   [`Inspection`](crate::inspector::Inspection), which resolves to the PID
//!   by [`RemotePid::remote_pid`].

use crate::address::{ConnectionPair, Endpoint};
use crate::error::{Cause, RemotePidError};
use crate::inspector::{trusted_path, trusted_paths, Invocation, TRUSTED_PATHS};
use vstd::prelude::*;

verus! {

/// An interface to get the PID of a remote connection endpoint.
pub trait RemotePid {
    /// What resolving this value comes to.
    spec fn resolution(&self) -> Result<u32, RemotePidError>;

    /// The PID of the remote endpoint.
    ///
    /// This fails if both endpoints belong to the caller's own process.
    fn remote_pid(&self) -> (result: Result<u32, RemotePidError>)
        ensures
            result == self.resolution(),
    ;
}

/// The address that a lookup stands for, given all the addresses it yielded
/// in their order: the first of them. A lookup that yielded none is an
/// invalid input.
pub fn first_address(addresses: &[Endpoint]) -> (first: Result<Endpoint, RemotePidError>)
    ensures
        first == if addresses@.len() > 0 {
            Ok::<Endpoint, RemotePidError>(addresses@[0])
        } else {
            Err(RemotePidError::Other(Cause::InvalidInput))
        },
{
    if addresses.len() > 0 {
        Ok(addresses[0])
    } else {
        Err(RemotePidError::Other(Cause::InvalidInput))
    }
}

/// A resolution that is looking for the inspector.
#[derive(Debug)]
pub struct Search {
    pair: ConnectionPair,
    index: usize,
}

/// What the caller of a resolution is to do once a path was probed.
#[derive(Debug)]
pub enum Step {
    /// Probe the path of this search and go on with [`Search::probed`].
    Probe(Search),
    /// Run this invocation, capture what it prints and how it ends, and
    /// resolve that [`Inspection`](crate::inspector::Inspection).
    Inspect(Invocation),
    /// Give up with this failure. Nothing was run.
    Failed(RemotePidError),
}

impl Search {
    #[verifier::type_invariant]
    spec fn in_range(self) -> bool {
        self.index < TRUSTED_PATHS
    }

    /// The connection that is being resolved.
    pub closed spec fn pair(&self) -> (Endpoint, Endpoint) {
        self.pair@
    }

    /// The place of the path to probe among the trusted paths.
    pub closed spec fn index(&self) -> nat {
        self.index as nat
    }

    /// The path to probe: the caller finds out whether it names a regular
    /// file and says so to [`Search::probed`].
    pub fn path(&self) -> (path: &'static str)
        ensures
            self.index() < trusted_paths().len(),
            path@ == trusted_paths()[self.index() as int],
    {
        proof {
            use_type_invariant(self);
        }
        trusted_path(self.index)
    }

    /// Goes on with the answer to the probe of [`Search::path`]. The first
    /// trusted path that names a regular file is the inspector to run; when
    /// the last one names none, the inspector is not found.
    pub fn probed(self, is_file: bool) -> (step: Step)
        ensures
            match step {
                Step::Inspect(invocation) => is_file && invocation.pair() == self.pair()
                    && invocation.index() == self.index(),
                Step::Probe(next) => !is_file && self.index() + 1 < trusted_paths().len()
                    && next.pair() == self.pair() && next.index() == self.index() + 1,
                Step::Failed(error) => !is_file && self.index() + 1 == trusted_paths().len()
                    && error == RemotePidError::Other(Cause::BinaryNotFound),
            },
    {
        proof {
            use_type_invariant(&self);
        }
        if is_file {
            Step::Inspect(Invocation::new(self.pair, self.index))
        } else if self.index + 1 < TRUSTED_PATHS {
            Step::Probe(Search { pair: self.pair, index: self.index + 1 })
        } else {
            Step::Failed(RemotePidError::Other(Cause::BinaryNotFound))
        }
    }
}

/// Starts the resolution of the connection between `local` and `remote`.
///
/// A connection with an end that is not a loopback address is refused with
/// `NonLocalConnection`: there is then no search, and so nothing to probe or
/// to run. Any other connection starts a search at the first trusted path.
pub fn addr_pair(local: Endpoint, remote: Endpoint) -> (search: Result<Search, RemotePidError>)
    ensures
        match search {
            Ok(s) => local.is_loopback() && remote.is_loopback() && s.pair() == (local, remote)
                && s.index() == 0,
            Err(e) => !(local.is_loopback() && remote.is_loopback()) && e
                == RemotePidError::NonLocalConnection,
        },
{
    match ConnectionPair::new(local, remote) {
        Ok(pair) => Ok(Search { pair, index: 0 }),
        Err(error) => Err(error),
    }
}

/// The descriptor that the number `fd` names, if it names one: a descriptor
/// is a 32-bit signed integer that is not negative.
pub fn raw_fd(fd: u64) -> (descriptor: Result<i32, RemotePidError>)
    ensures
        descriptor == if fd <= i32::MAX {
            Ok::<i32, RemotePidError>(fd as i32)
        } else {
            Err(RemotePidError::Other(Cause::InvalidInput))
        },
{
    if fd > i32::MAX as u64 {
        Err(RemotePidError::Other(Cause::InvalidInput))
    } else {
        Ok(fd as i32)
    }
}

} // verus!
