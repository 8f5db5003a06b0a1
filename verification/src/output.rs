//! Reading what the inspector printed: lines, PID records, and the set of
//! candidate processes they name.
//!
//! The text is read as the bytes of its UTF-8 form. All that is looked for
//! is ASCII (the line feed, the carriage return, the marker, the sign and
//! the digits), and in UTF-8 a byte of ASCII is never part of another
//! character: what is found by bytes is what is there by characters.

use crate::decimal::{parse_pid, parse_u32};
use crate::error::{Cause, RemotePidError};
use vstd::prelude::*;

verus! {

/// The byte that ends a line.
pub const LINE_FEED: u8 = 0x0a;

/// The byte that may stand before a line feed and then belongs to the line ending.
pub const CARRIAGE_RETURN: u8 = 0x0d;

/// The byte `p`, which opens a PID record.
pub const PID_MARKER: u8 = 0x70;

/// How many bytes stand before the first line feed of `text`: all of them if
/// it holds none.
pub open spec fn line_end(text: Seq<u8>) -> int
    decreases text.len(),
{
    if text.len() == 0 || text[0] == LINE_FEED {
        0
    } else {
        1 + line_end(text.skip(1))
    }
}

/// `line` without the carriage return at its end, if it has one.
pub open spec fn without_carriage_return(line: Seq<u8>) -> Seq<u8> {
    if line.len() > 0 && line.last() == CARRIAGE_RETURN {
        line.drop_last()
    } else {
        line
    }
}

/// The lines of `text`. A line ends at a line feed, or at a carriage return
/// directly followed by one; the ending is not part of the line. What follows
/// the last line feed is a line too unless it is empty, and a carriage return
/// at its end stays.
pub open spec fn lines(text: Seq<u8>) -> Seq<Seq<u8>>
    decreases text.len(),
{
    let end = line_end(text);
    if text.len() == 0 {
        Seq::empty()
    } else if 0 <= end < text.len() {
        seq![without_carriage_return(text.take(end))] + lines(text.skip(end + 1))
    } else {
        seq![text]
    }
}

/// Whether `line` is a PID record: it begins with the marker.
pub open spec fn is_pid_record(line: Seq<u8>) -> bool {
    line.len() > 0 && line[0] == PID_MARKER
}

/// The PID that a PID record holds: what follows the marker, read as an
/// unsigned 32-bit decimal number.
pub open spec fn record_pid(line: Seq<u8>) -> Option<u32> {
    parse_u32(line.skip(1))
}

/// Whether one of `lines` is a PID record that holds no PID.
pub open spec fn malformed(lines: Seq<Seq<u8>>) -> bool {
    exists|i: int|
        0 <= i < lines.len() && is_pid_record(#[trigger] lines[i]) && record_pid(lines[i]) is None
}

/// Whether one of `lines` is a PID record that holds `pid`.
pub open spec fn reports(lines: Seq<Seq<u8>>, pid: u32) -> bool {
    exists|i: int|
        0 <= i < lines.len() && is_pid_record(#[trigger] lines[i]) && record_pid(lines[i]) == Some(
            pid,
        )
}

/// The candidate set: every PID that `lines` report, but for the caller's own.
pub open spec fn candidates(lines: Seq<Seq<u8>>, own_pid: u32) -> Set<u32> {
    Set::new(|pid: u32| pid != own_pid && reports(lines, pid))
}

/// The single-candidate rule: one candidate is the answer, none and several
/// are two different failures.
pub open spec fn single_candidate(candidates: Set<u32>) -> Result<u32, RemotePidError> {
    if candidates.len() == 1 {
        Ok(candidates.choose())
    } else if candidates.len() == 0 {
        Err(RemotePidError::Other(Cause::UnknownRemotePid))
    } else {
        Err(RemotePidError::Other(Cause::InvalidMultipleRemotePids))
    }
}

/// What the text that the inspector printed resolves to for a caller with PID
/// `own_pid`. One PID record without a PID fails the whole text, whatever the
/// other lines hold.
pub open spec fn text_outcome(text: Seq<u8>, own_pid: u32) -> Result<u32, RemotePidError> {
    if malformed(lines(text)) {
        Err(RemotePidError::Other(Cause::InvalidPid))
    } else {
        single_candidate(candidates(lines(text), own_pid))
    }
}

/// `line_end` is the place of the first line feed.
pub proof fn lemma_line_end(text: Seq<u8>, n: int)
    requires
        0 <= n <= text.len(),
        forall|k: int| 0 <= k < n ==> text[k] != LINE_FEED,
        n == text.len() || text[n] == LINE_FEED,
    ensures
        line_end(text) == n,
    decreases n,
{
    if n > 0 {
        lemma_line_end(text.skip(1), n - 1);
    }
}

/// What one more line adds to the PIDs reported and to the malformed records.
pub proof fn lemma_one_more_line(lines: Seq<Seq<u8>>, line: Seq<u8>, own_pid: u32)
    ensures
        malformed(lines.push(line)) <==> malformed(lines) || (is_pid_record(line) && record_pid(
            line,
        ) is None),
        candidates(lines.push(line), own_pid) == if is_pid_record(line) && record_pid(line) is Some
            && record_pid(line)->0 != own_pid {
            candidates(lines, own_pid).insert(record_pid(line)->0)
        } else {
            candidates(lines, own_pid)
        },
{
    let longer = lines.push(line);
    let last = lines.len() as int;
    assert forall|i: int| 0 <= i < lines.len() implies #[trigger] longer[i] == lines[i] by {}
    if malformed(lines) {
        let i = choose|i: int|
            0 <= i < lines.len() && is_pid_record(#[trigger] lines[i]) && record_pid(lines[i])
                is None;
        assert(is_pid_record(longer[i]) && record_pid(longer[i]) is None);
    }
    assert forall|pid: u32|
        reports(longer, pid) <==> reports(lines, pid) || (is_pid_record(line) && record_pid(line)
            == Some(pid)) by {
        if reports(lines, pid) {
            let i = choose|i: int|
                0 <= i < lines.len() && is_pid_record(#[trigger] lines[i]) && record_pid(lines[i])
                    == Some(pid);
            assert(is_pid_record(longer[i]) && record_pid(longer[i]) == Some(pid));
        }
        if is_pid_record(line) && record_pid(line) == Some(pid) {
            assert(is_pid_record(longer[last]) && record_pid(longer[last]) == Some(pid));
        }
    }
}

/// A malformed record stays one when more lines follow.
pub proof fn lemma_malformed_prefix(lines: Seq<Seq<u8>>, more: Seq<Seq<u8>>)
    requires
        malformed(lines),
    ensures
        malformed(lines + more),
{
    let i = choose|i: int|
        0 <= i < lines.len() && is_pid_record(#[trigger] lines[i]) && record_pid(lines[i]) is None;
    let all = lines + more;
    assert(is_pid_record(all[i]) && record_pid(all[i]) is None);
}

/// The candidate set of any lines is finite.
pub proof fn lemma_candidates_finite(lines: Seq<Seq<u8>>, own_pid: u32)
    ensures
        candidates(lines, own_pid).finite(),
    decreases lines.len(),
{
    if lines.len() == 0 {
        assert(candidates(lines, own_pid) =~= Set::<u32>::empty());
    } else {
        let shorter = lines.drop_last();
        lemma_candidates_finite(shorter, own_pid);
        lemma_one_more_line(shorter, lines.last(), own_pid);
        assert(shorter.push(lines.last()) =~= lines);
    }
}

/// A set of candidate PIDs.
#[derive(Debug)]
pub struct Candidates {
    pids: Vec<u32>,
}

impl View for Candidates {
    type V = Set<u32>;

    closed spec fn view(&self) -> Set<u32> {
        self.pids@.to_set()
    }
}

impl Candidates {
    #[verifier::type_invariant]
    spec fn distinct(self) -> bool {
        self.pids@.no_duplicates()
    }

    /// The empty set.
    pub fn new() -> (set: Candidates)
        ensures
            set@ == Set::<u32>::empty(),
    {
        Candidates { pids: Vec::new() }
    }

    /// Whether `pid` is in the set.
    pub fn contains(&self, pid: u32) -> (found: bool)
        ensures
            found == self@.contains(pid),
    {
        let mut i: usize = 0;
        while i < self.pids.len()
            invariant
                i <= self.pids.len(),
                forall|k: int| 0 <= k < i ==> self.pids@[k] != pid,
            decreases self.pids.len() - i,
        {
            if self.pids[i] == pid {
                return true;
            }
            i += 1;
        }
        false
    }

    /// Puts `pid` into the set.
    pub fn insert(&mut self, pid: u32)
        ensures
            final(self)@ == old(self)@.insert(pid),
    {
        proof {
            use_type_invariant(&*self);
        }
        if !self.contains(pid) {
            let mut taken = Candidates { pids: Vec::new() };
            core::mem::swap(self, &mut taken);
            let mut pids: Vec<u32> = taken.pids;
            pids.push(pid);
            assert(pids@.to_set() =~= old(self)@.insert(pid)) by {
                assert forall|p: u32| pids@.contains(p) <==> old(self).pids@.contains(p) || p
                    == pid by {
                    if old(self).pids@.contains(p) {
                        let k = choose|k: int|
                            0 <= k < old(self).pids@.len() && old(self).pids@[k] == p;
                        assert(pids@[k] == p);
                    }
                    if p == pid {
                        assert(pids@[pids@.len() - 1] == p);
                    }
                }
            }
            *self = Candidates { pids };
        }
    }

    /// How many PIDs the set holds.
    pub fn len(&self) -> (n: usize)
        ensures
            self@.finite(),
            n == self@.len(),
    {
        proof {
            use_type_invariant(self);
            self.pids@.unique_seq_to_set();
            vstd::seq_lib::seq_to_set_is_finite(self.pids@);
        }
        self.pids.len()
    }

    /// Applies the single-candidate rule to the set.
    pub fn single(&self) -> (result: Result<u32, RemotePidError>)
        ensures
            result == single_candidate(self@),
    {
        proof {
            use_type_invariant(self);
            self.pids@.unique_seq_to_set();
        }
        let n: usize = self.pids.len();
        if n == 1 {
            let pid: u32 = self.pids[0];
            proof {
                vstd::set::axiom_set_choose_len(self@);
            }
            Ok(pid)
        } else if n == 0 {
            Err(RemotePidError::Other(Cause::UnknownRemotePid))
        } else {
            Err(RemotePidError::Other(Cause::InvalidMultipleRemotePids))
        }
    }
}

/// Collects the candidate set from the text that the inspector printed, for a
/// caller with PID `own_pid`.
pub fn collect_candidates(text: &[u8], own_pid: u32) -> (result: Result<Candidates, RemotePidError>)
    ensures
        match result {
            Ok(set) => !malformed(lines(text@)) && set@ == candidates(lines(text@), own_pid),
            Err(e) => malformed(lines(text@)) && e == RemotePidError::Other(Cause::InvalidPid),
        },
{
    let mut found = Candidates::new();
    let mut pos: usize = 0;
    let ghost mut done: Seq<Seq<u8>> = Seq::empty();
    proof {
        assert(text@.skip(0) =~= text@);
    }
    while pos < text.len()
        invariant
            pos <= text.len(),
            lines(text@) == done + lines(text@.skip(pos as int)),
            !malformed(done),
            found@ == candidates(done, own_pid),
        decreases text.len() - pos,
    {
        let mut end: usize = pos;
        while end < text.len() && text[end] != LINE_FEED
            invariant
                pos <= end <= text.len(),
                forall|k: int| pos <= k < end ==> text@[k] != LINE_FEED,
            decreases text.len() - end,
        {
            end += 1;
        }
        let ended: bool = end < text.len();
        let stop: usize = if ended && end > pos && text[end - 1] == CARRIAGE_RETURN {
            end - 1
        } else {
            end
        };
        let next: usize = if ended {
            end + 1
        } else {
            end
        };
        let line: &[u8] = &text[pos..stop];
        let ghost rest = text@.skip(pos as int);
        proof {
            lemma_line_end(rest, end - pos);
            if ended {
                assert(line@ =~= without_carriage_return(rest.take(end - pos)));
                assert(rest.skip(end - pos + 1) =~= text@.skip(next as int));
            }
            assert(lines(text@) =~= done.push(line@) + lines(text@.skip(next as int)));
            lemma_one_more_line(done, line@, own_pid);
        }
        if line.len() > 0 && line[0] == PID_MARKER {
            let token: &[u8] = &line[1..line.len()];
            match parse_pid(token) {
                Some(pid) => {
                    if pid != own_pid {
                        found.insert(pid);
                    }
                },
                None => {
                    proof {
                        lemma_malformed_prefix(done.push(line@), lines(text@.skip(next as int)));
                    }
                    return Err(RemotePidError::Other(Cause::InvalidPid));
                },
            }
        }
        proof {
            done = done.push(line@);
        }
        pos = next;
    }
    Ok(found)
}

/// Resolves the text that the inspector printed to the one remote PID, for a
/// caller with PID `own_pid`.
pub fn resolve_text(text: &[u8], own_pid: u32) -> (result: Result<u32, RemotePidError>)
    ensures
        result == text_outcome(text@, own_pid),
{
    match collect_candidates(text, own_pid) {
        Ok(set) => set.single(),
        Err(e) => Err(e),
    }
}

} // verus!
