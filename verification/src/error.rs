//! The failures a resolution can end in.

use crate::decimal::{push_signed_decimal, signed_decimal};
use vstd::prelude::*;

verus! {

/// Why a resolution failed although both endpoints are local.
///
/// The cause is meant for diagnostics: callers are expected to tell
/// [`RemotePidError::NonLocalConnection`] from [`RemotePidError::Other`], not to
/// branch on the cause.
#[derive(Debug, Clone, PartialEq, Eq)]
pub enum Cause {
    /// An address lookup yielded no address, or a descriptor does not fit the
    /// platform's descriptor type.
    InvalidInput,
    /// The operating system reported a failure; the text is its diagnostic rendering.
    Io(String),
    /// A text handed in as bytes is not valid UTF-8.
    InvalidUtf8,
    /// None of the trusted paths names a regular file.
    BinaryNotFound,
    /// The inspector ended with a status other than zero, or without one.
    NonZeroExitCode { exit_code: Option<i32> },
    /// A PID record does not hold an unsigned 32-bit decimal number.
    InvalidPid,
    /// No process but the caller holds a matching socket.
    UnknownRemotePid,
    /// More than one process besides the caller holds a matching socket.
    InvalidMultipleRemotePids,
}

/// A failed resolution.
#[derive(Debug, Clone, PartialEq, Eq)]
pub enum RemotePidError {
    /// The connection has a non-local endpoint.
    NonLocalConnection,
    /// Any other failure, with its cause.
    Other(Cause),
}

impl Cause {
    /// The text that describes the cause.
    pub open spec fn text(self) -> Seq<char> {
        match self {
            Cause::InvalidInput => "InvalidInput"@,
            Cause::Io(text) => text@,
            Cause::InvalidUtf8 => "InvalidUtf8"@,
            Cause::BinaryNotFound => "BinaryNotFound"@,
            Cause::NonZeroExitCode { exit_code: Some(code) } => "NonZeroExitCode { exit_code: Some("@
                + signed_decimal(code as int) + ") }"@,
            Cause::NonZeroExitCode { exit_code: None } => "NonZeroExitCode { exit_code: None }"@,
            Cause::InvalidPid => "InvalidPid"@,
            Cause::UnknownRemotePid => "UnknownRemotePid"@,
            Cause::InvalidMultipleRemotePids => "InvalidMultipleRemotePids"@,
        }
    }

    /// Appends the text that describes the cause to `out`.
    fn push_text(&self, out: &mut String)
        ensures
            final(out)@ == old(out)@ + self.text(),
    {
        match self {
            Cause::InvalidInput => out.append("InvalidInput"),
            Cause::Io(text) => out.append(text.as_str()),
            Cause::InvalidUtf8 => out.append("InvalidUtf8"),
            Cause::BinaryNotFound => out.append("BinaryNotFound"),
            Cause::NonZeroExitCode { exit_code: Some(code) } => {
                out.append("NonZeroExitCode { exit_code: Some(");
                push_signed_decimal(out, *code);
                out.append(") }");
            },
            Cause::NonZeroExitCode { exit_code: None } => out.append(
                "NonZeroExitCode { exit_code: None }",
            ),
            Cause::InvalidPid => out.append("InvalidPid"),
            Cause::UnknownRemotePid => out.append("UnknownRemotePid"),
            Cause::InvalidMultipleRemotePids => out.append("InvalidMultipleRemotePids"),
        }
    }
}

impl RemotePidError {
    /// The text that describes the failure: the name of its kind, with the
    /// cause in brackets behind it where it has one.
    pub open spec fn text(self) -> Seq<char> {
        match self {
            RemotePidError::NonLocalConnection => "NonLocalConnection"@,
            RemotePidError::Other(cause) => "Other("@ + cause.text() + ")"@,
        }
    }

    /// Describes the failure in words, for a person to read.
    pub fn description(&self) -> (text: String)
        ensures
            text@ == self.text(),
    {
        match self {
            RemotePidError::NonLocalConnection => String::from_str("NonLocalConnection"),
            RemotePidError::Other(cause) => {
                let mut text = String::from_str("Other(");
                cause.push_text(&mut text);
                text.append(")");
                text
            },
        }
    }

    /// The cause behind the failure, if it carries one.
    pub fn source(&self) -> (cause: Option<&Cause>)
        ensures
            cause == match *self {
                RemotePidError::Other(c) => Some(&c),
                RemotePidError::NonLocalConnection => None,
            },
    {
        match self {
            RemotePidError::Other(cause) => Some(cause),
            RemotePidError::NonLocalConnection => None,
        }
    }
}

impl From<Cause> for RemotePidError {
    /// The failure that has `cause` for its cause.
    fn from(cause: Cause) -> (error: RemotePidError) {
        RemotePidError::Other(cause)
    }
}

impl vstd::std_specs::convert::FromSpecImpl<Cause> for RemotePidError {
    open spec fn obeys_from_spec() -> bool {
        true
    }

    open spec fn from_spec(cause: Cause) -> RemotePidError {
        RemotePidError::Other(cause)
    }
}

} // verus!
