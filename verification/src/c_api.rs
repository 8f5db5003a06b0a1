//! What a foreign caller is told: a 32-bit value for each call, and a slot
//! that holds the last failure as a code and a description free of NUL bytes.
//!
//! The slot belongs to one thread. Whoever owns it passes it in; a call
//! clears it first and fills it only if the call fails.

use crate::error::{Cause, RemotePidError};
use crate::text::decode;
use vstd::prelude::*;
use vstd::string::StringSliceAdditionalSpecFns;
use vstd::utf8::{encode_utf8, valid_utf8};

verus! {

/// The value a call returns in place of a PID when it fails.
pub const FAILURE: u32 = 0xffff_ffff;

/// The code that is read when the last call did not fail.
pub const NO_ERROR: u8 = 0x00;

/// The code of a failure for a connection with a non-local endpoint.
pub const NON_LOCAL_CONNECTION: u8 = 0x01;

/// The code of any other failure.
pub const OTHER: u8 = 0xff;

/// The code of `error`.
pub open spec fn error_code(error: RemotePidError) -> u8 {
    match error {
        RemotePidError::NonLocalConnection => NON_LOCAL_CONNECTION,
        RemotePidError::Other(_) => OTHER,
    }
}

/// The three bytes that stand in for one NUL byte: U+FFFD in UTF-8.
pub open spec fn replacement() -> Seq<u8> {
    seq![0xefu8, 0xbfu8, 0xbdu8]
}

/// `bytes` with each NUL byte replaced by the replacement character.
pub open spec fn without_nul(bytes: Seq<u8>) -> Seq<u8>
    decreases bytes.len(),
{
    if bytes.len() == 0 {
        Seq::empty()
    } else if bytes.last() == 0 {
        without_nul(bytes.drop_last()) + replacement()
    } else {
        without_nul(bytes.drop_last()).push(bytes.last())
    }
}

/// Whether `bytes` holds no NUL byte, so that a NUL can end it.
pub open spec fn nul_free(bytes: Seq<u8>) -> bool {
    forall|i: int| 0 <= i < bytes.len() ==> #[trigger] bytes[i] != 0
}

/// Replacing the NUL bytes leaves none.
pub proof fn lemma_without_nul_is_nul_free(bytes: Seq<u8>)
    ensures
        nul_free(without_nul(bytes)),
    decreases bytes.len(),
{
    if bytes.len() > 0 {
        lemma_without_nul_is_nul_free(bytes.drop_last());
    }
}

/// Copies `bytes`, replacing each NUL byte by the replacement character.
pub fn replace_nul(bytes: &[u8]) -> (clean: Vec<u8>)
    ensures
        clean@ == without_nul(bytes@),
        nul_free(clean@),
{
    let mut clean: Vec<u8> = Vec::new();
    let mut i: usize = 0;
    while i < bytes.len()
        invariant
            i <= bytes.len(),
            clean@ == without_nul(bytes@.take(i as int)),
        decreases bytes.len() - i,
    {
        let byte: u8 = bytes[i];
        assert(bytes@.take(i + 1).drop_last() =~= bytes@.take(i as int));
        if byte == 0 {
            clean.push(0xef);
            clean.push(0xbf);
            clean.push(0xbd);
        } else {
            clean.push(byte);
        }
        i += 1;
    }
    proof {
        assert(bytes@.take(i as int) =~= bytes@);
        lemma_without_nul_is_nul_free(bytes@);
    }
    clean
}

/// A failure as a foreign caller sees it.
#[derive(Debug)]
pub struct CError {
    code: u8,
    desc: Vec<u8>,
}

impl CError {
    #[verifier::type_invariant]
    spec fn well_formed(self) -> bool {
        nul_free(self.desc@)
    }

    /// The code of the failure.
    pub closed spec fn code_of(&self) -> u8 {
        self.code
    }

    /// The description of the failure, as bytes with no NUL among them.
    pub closed spec fn desc_of(&self) -> Seq<u8> {
        self.desc@
    }

    /// Whether this is `error` as a foreign caller sees it: its code, and its
    /// description in UTF-8 with the NUL bytes replaced.
    pub open spec fn shows(&self, error: RemotePidError) -> bool {
        &&& self.code_of() == error_code(error)
        &&& self.desc_of() == without_nul(encode_utf8(error.text()))
    }

    /// `error` as a foreign caller sees it.
    pub fn new(error: RemotePidError) -> (shown: CError)
        ensures
            shown.shows(error),
    {
        let code: u8 = match error {
            RemotePidError::NonLocalConnection => NON_LOCAL_CONNECTION,
            RemotePidError::Other(_) => OTHER,
        };
        let text = error.description();
        let desc = replace_nul(text.as_str().as_bytes());
        CError { code, desc }
    }

    /// Puts `error` into `slot` as the last failure.
    pub fn set(slot: &mut Option<CError>, error: RemotePidError)
        ensures
            holds(*final(slot), Err(error)),
    {
        *slot = Some(CError::new(error));
    }

    /// Empties `slot`.
    pub fn clear(slot: &mut Option<CError>)
        ensures
            *final(slot) is None,
    {
        *slot = None;
    }

    /// The code of the failure.
    #[verifier::when_used_as_spec(code_of)]
    pub fn code(&self) -> (code: u8)
        ensures
            code == self.code_of(),
    {
        self.code
    }

    /// The description of the failure. It holds no NUL byte.
    pub fn desc(&self) -> (desc: &[u8])
        ensures
            desc@ == self.desc_of(),
            nul_free(desc@),
    {
        proof {
            use_type_invariant(self);
        }
        self.desc.as_slice()
    }
}

/// Whether `slot` is as a call that came to `result` leaves it: empty after
/// a PID, and showing the failure after one.
pub open spec fn holds(slot: Option<CError>, result: Result<u32, RemotePidError>) -> bool {
    match result {
        Ok(_) => slot is None,
        Err(error) => slot matches Some(shown) && shown.shows(error),
    }
}

/// The code that `slot` gives to read.
pub open spec fn last_code(slot: Option<CError>) -> u8 {
    match slot {
        None => NO_ERROR,
        Some(shown) => shown.code_of(),
    }
}

/// The description that `slot` gives to read, if any.
pub open spec fn last_desc(slot: Option<CError>) -> Option<Seq<u8>> {
    match slot {
        None => None,
        Some(shown) => Some(shown.desc_of()),
    }
}

/// The code of the last failure, or `NO_ERROR` if the last call did not fail.
pub fn remote_pid_err_code(slot: &Option<CError>) -> (code: u8)
    ensures
        code == last_code(*slot),
{
    match slot {
        None => NO_ERROR,
        Some(shown) => shown.code(),
    }
}

/// The description of the last failure, or nothing if the last call did not
/// fail: the caller hands out a null pointer then.
pub fn remote_pid_err_desc(slot: &Option<CError>) -> (desc: Option<&[u8]>)
    ensures
        match desc {
            None => last_desc(*slot) is None,
            Some(bytes) => last_desc(*slot) == Some(bytes@) && nul_free(bytes@),
        },
{
    match slot {
        None => None,
        Some(shown) => Some(shown.desc()),
    }
}

/// Reads the two address texts of a call by strings. Both must be valid
/// UTF-8; the local one is read first.
pub fn address_texts<'a>(local: &'a [u8], remote: &'a [u8]) -> (texts: Result<
    (&'a str, &'a str),
    RemotePidError,
>)
    ensures
        match texts {
            Ok((l, r)) => valid_utf8(local@) && valid_utf8(remote@) && l.spec_bytes() == local@
                && r.spec_bytes() == remote@,
            Err(e) => !(valid_utf8(local@) && valid_utf8(remote@)) && e == RemotePidError::Other(
                Cause::InvalidUtf8,
            ),
        },
{
    let l = match decode(local) {
        Ok(l) => l,
        Err(e) => {
            return Err(e);
        },
    };
    match decode(remote) {
        Ok(r) => Ok((l, r)),
        Err(e) => Err(e),
    }
}

/// Ends a call that came to `result`: the PID is the value to return and the
/// slot is left empty, or the failure goes into the slot and the value to
/// return is `FAILURE`.
pub fn finish(slot: &mut Option<CError>, result: Result<u32, RemotePidError>) -> (value: u32)
    ensures
        holds(*final(slot), result),
        value == match result {
            Ok(pid) => pid,
            Err(_) => FAILURE,
        },
{
    CError::clear(slot);
    match result {
        Ok(pid) => pid,
        Err(error) => {
            CError::set(slot, error);
            FAILURE
        },
    }
}

/// After a call, the code to read is `0x01` if the call failed for a
/// non-local endpoint, `0xff` if it failed for any other reason, and `0x00`
/// if it did not fail; a description is there to read exactly if it failed.
pub proof fn lemma_code_tells_the_result(slot: Option<CError>, result: Result<u32, RemotePidError>)
    requires
        holds(slot, result),
    ensures
        last_code(slot) == match result {
            Ok(_) => 0x00u8,
            Err(RemotePidError::NonLocalConnection) => 0x01u8,
            Err(RemotePidError::Other(_)) => 0xffu8,
        },
        last_desc(slot) is None <==> result is Ok,
{
}

} // verus!
