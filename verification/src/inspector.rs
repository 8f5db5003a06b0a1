//! The process inspector: where it may be found, how it is invoked, and what
//! one run of it comes to.

use crate::address::{ConnectionPair, Endpoint};
use crate::error::{Cause, RemotePidError};
use crate::output::{
    candidates, is_pid_record, lemma_candidates_finite, lines, malformed, record_pid, reports,
    resolve_text, text_outcome,
};
use crate::resolve::RemotePid;
use crate::text::decode;
use vstd::prelude::*;
use vstd::utf8::valid_utf8;

verus! {

/// How many paths are trusted to hold the inspector.
pub const TRUSTED_PATHS: usize = 2;

/// The absolute paths that are trusted to hold the inspector, in the order in
/// which they are tried. The inspector is never looked up by the search path.
pub open spec fn trusted_paths() -> Seq<Seq<char>> {
    seq!["/usr/sbin/lsof"@, "/usr/bin/lsof"@]
}

/// The trusted path at `index`.
pub(crate) fn trusted_path(index: usize) -> (path: &'static str)
    requires
        index < TRUSTED_PATHS,
    ensures
        path@ == trusted_paths()[index as int],
{
    if index == 0 {
        "/usr/sbin/lsof"
    } else {
        "/usr/bin/lsof"
    }
}

/// The filter that selects the TCP sockets at the loopback endpoint `end`:
/// the protocol tag `TCP@`, then the endpoint.
pub open spec fn filter(end: Endpoint) -> Seq<char>
    recommends
        end.is_loopback(),
{
    seq!['T', 'C', 'P', '@'] + end.text()
}

/// The arguments of one inspection of `pair`: print PIDs only, of every
/// process that holds a TCP socket at the local or at the remote endpoint.
pub open spec fn arguments(pair: (Endpoint, Endpoint)) -> Seq<Seq<char>> {
    seq![seq!['-', 'F', 'p'], seq!['-', 'i'], filter(pair.0), seq!['-', 'i'], filter(pair.1)]
}

/// One invocation of the inspector: a trusted path, and the arguments for one
/// connection between loopback endpoints. No other invocation can be made.
#[derive(Debug)]
pub struct Invocation {
    pair: ConnectionPair,
    index: usize,
}

/// The text of the filter for the loopback endpoint `end`.
fn filter_text(end: &Endpoint) -> (text: String)
    requires
        end.is_loopback(),
    ensures
        text@ == filter(*end),
{
    proof {
        reveal_strlit("TCP@");
    }
    let mut text = String::from_str("TCP@");
    end.push_text(&mut text);
    text
}

impl Invocation {
    #[verifier::type_invariant]
    spec fn in_range(self) -> bool {
        self.index < TRUSTED_PATHS
    }

    /// The connection that the invocation is for.
    pub closed spec fn pair(&self) -> (Endpoint, Endpoint) {
        self.pair@
    }

    /// The place of the program among the trusted paths.
    pub closed spec fn index(&self) -> nat {
        self.index as nat
    }

    /// The invocation of the inspector at the trusted path `index` for `pair`.
    pub(crate) fn new(pair: ConnectionPair, index: usize) -> (invocation: Invocation)
        requires
            index < TRUSTED_PATHS,
        ensures
            invocation.pair() == pair@,
            invocation.index() == index,
    {
        Invocation { pair, index }
    }

    /// The two ends of the connection that the invocation is for, both of
    /// them loopback addresses.
    pub fn connection(&self) -> (pair: (Endpoint, Endpoint))
        ensures
            pair == self.pair(),
            pair.0.is_loopback(),
            pair.1.is_loopback(),
    {
        (self.pair.local(), self.pair.remote())
    }

    /// The path of the program to run, one of the trusted paths.
    pub fn program(&self) -> (path: &'static str)
        ensures
            self.index() < trusted_paths().len(),
            path@ == trusted_paths()[self.index() as int],
    {
        proof {
            use_type_invariant(self);
        }
        trusted_path(self.index)
    }

    /// The arguments to run the program with, its own name not among them.
    pub fn arguments(&self) -> (list: Vec<String>)
        ensures
            list.deep_view() == arguments(self.pair()),
    {
        proof {
            reveal_strlit("-Fp");
            reveal_strlit("-i");
        }
        let local = self.pair.local();
        let remote = self.pair.remote();
        let mut list: Vec<String> = Vec::new();
        list.push(String::from_str("-Fp"));
        list.push(String::from_str("-i"));
        list.push(filter_text(&local));
        list.push(String::from_str("-i"));
        list.push(filter_text(&remote));
        proof {
            let expected = arguments(self.pair());
            assert(list@[0]@ =~= expected[0]);
            assert(list@[3]@ =~= expected[3]);
        }
        list
    }
}

/// What one run of the inspector comes to, for a caller with PID `own_pid`:
/// a run that did not end with status zero fails with that status, output
/// that is not valid UTF-8 fails as such, and any other output resolves as
/// its text does.
pub open spec fn outcome(exit_code: Option<i32>, stdout: Seq<u8>, own_pid: u32) -> Result<
    u32,
    RemotePidError,
> {
    if exit_code != Some(0i32) {
        Err(RemotePidError::Other(Cause::NonZeroExitCode { exit_code }))
    } else if !valid_utf8(stdout) {
        Err(RemotePidError::Other(Cause::InvalidUtf8))
    } else {
        text_outcome(stdout, own_pid)
    }
}

/// One finished run of the inspector, as captured by the process that ran it.
#[derive(Debug)]
pub struct Inspection {
    /// The status the inspector ended with, if it ended with one.
    pub exit_code: Option<i32>,
    /// All that the inspector wrote to its standard output.
    pub stdout: Vec<u8>,
    /// The PID of the process that ran the inspector.
    pub own_pid: u32,
}

impl RemotePid for Inspection {
    open spec fn resolution(&self) -> Result<u32, RemotePidError> {
        outcome(self.exit_code, self.stdout@, self.own_pid)
    }

    /// The PID of the one other process that the inspector found at the
    /// connection.
    fn remote_pid(&self) -> (result: Result<u32, RemotePidError>) {
        match self.exit_code {
            Some(0) => match decode(self.stdout.as_slice()) {
                Ok(text) => resolve_text(text.as_bytes(), self.own_pid),
                Err(e) => Err(e),
            },
            exit_code => Err(RemotePidError::Other(Cause::NonZeroExitCode { exit_code })),
        }
    }
}

/// Where every PID record of the output holds a PID and the candidate set
/// has exactly one member, the text resolves to that member, and so does a
/// run that ended with status zero and printed this text.
pub proof fn lemma_one_candidate_is_returned(stdout: Seq<u8>, own_pid: u32, pid: u32)
    requires
        !malformed(lines(stdout)),
        candidates(lines(stdout), own_pid).len() == 1,
        candidates(lines(stdout), own_pid).contains(pid),
    ensures
        text_outcome(stdout, own_pid) == Ok::<u32, RemotePidError>(pid),
        valid_utf8(stdout) ==> outcome(Some(0), stdout, own_pid) == Ok::<u32, RemotePidError>(pid),
{
    let set = candidates(lines(stdout), own_pid);
    lemma_candidates_finite(lines(stdout), own_pid);
    vstd::set::axiom_set_choose_len(set);
    let chosen = set.choose();
    if chosen != pid {
        assert(set.remove(pid).len() == 0);
    }
}

/// Where every PID record of the output holds a PID and the candidate set is
/// empty, the resolution fails because the remote PID is unknown.
pub proof fn lemma_no_candidate_is_unknown(stdout: Seq<u8>, own_pid: u32)
    requires
        !malformed(lines(stdout)),
        candidates(lines(stdout), own_pid).len() == 0,
    ensures
        text_outcome(stdout, own_pid) == Err::<u32, RemotePidError>(
            RemotePidError::Other(Cause::UnknownRemotePid),
        ),
        valid_utf8(stdout) ==> outcome(Some(0), stdout, own_pid) == Err::<u32, RemotePidError>(
            RemotePidError::Other(Cause::UnknownRemotePid),
        ),
{
}

/// Where every PID record of the output holds a PID and the candidate set
/// has two members or more, the resolution fails because they are several:
/// none is picked.
pub proof fn lemma_several_candidates_are_ambiguous(stdout: Seq<u8>, own_pid: u32)
    requires
        !malformed(lines(stdout)),
        candidates(lines(stdout), own_pid).len() >= 2,
    ensures
        text_outcome(stdout, own_pid) == Err::<u32, RemotePidError>(
            RemotePidError::Other(Cause::InvalidMultipleRemotePids),
        ),
        valid_utf8(stdout) ==> outcome(Some(0), stdout, own_pid) == Err::<u32, RemotePidError>(
            RemotePidError::Other(Cause::InvalidMultipleRemotePids),
        ),
{
}

/// The caller's own PID is never a candidate, whether or not the output
/// reports it, and every other PID that the output reports is one.
pub proof fn lemma_own_pid_is_no_candidate(stdout: Seq<u8>, own_pid: u32)
    ensures
        !candidates(lines(stdout), own_pid).contains(own_pid),
        forall|pid: u32|
            pid != own_pid ==> (candidates(lines(stdout), own_pid).contains(pid)
                <==> reports(lines(stdout), pid)),
{
}

/// One PID record that holds no PID fails the whole resolution with
/// `InvalidPid`, whatever the other lines hold.
pub proof fn lemma_invalid_pid_fails_all(stdout: Seq<u8>, own_pid: u32, line: int)
    requires
        0 <= line < lines(stdout).len(),
        is_pid_record(lines(stdout)[line]),
        record_pid(lines(stdout)[line]) is None,
    ensures
        text_outcome(stdout, own_pid) == Err::<u32, RemotePidError>(
            RemotePidError::Other(Cause::InvalidPid),
        ),
        valid_utf8(stdout) ==> outcome(Some(0), stdout, own_pid) == Err::<u32, RemotePidError>(
            RemotePidError::Other(Cause::InvalidPid),
        ),
{
}

} // verus!
