//! The unified error type and its textual rendering.

use vstd::prelude::*;

use crate::cmd::Cmd;
use crate::cmd::rendered;

verus! {

/// An underlying input/output fault, carried as plain text so that the cause
/// is not lost when it is reported.
#[derive(Debug)]
pub struct IoFault {
    /// A human-readable description of the fault.
    pub message: String,
}

/// The unified error type.
#[derive(Debug)]
pub enum Error {
    /// The process ran but exited with a non-success status. Holds the
    /// invocation descriptor that failed and the best-effort text decodings
    /// of its captured standard output and standard error.
    CmdFailed(Cmd, String, String),
    /// The external `bundletool` utility could not be located.
    BundletoolNotFound,
    /// The process could not be spawned, or its output could not be
    /// collected: an input/output fault from a lower layer.
    Io(IoFault),
    /// An arbitrary error from a lower layer, carried as text so that it is
    /// propagated without losing information.
    OtherError(String),
}

/// What `String::from_utf8_lossy` decodes the given bytes to: best-effort
/// text, with invalid sequences replaced, determined by the bytes alone.
pub uninterp spec fn lossy_decode(bytes: Seq<u8>) -> Seq<char>;

/// Relies on `String::from_utf8_lossy`: decodes bytes to text best-effort,
/// replacing invalid sequences with the replacement character and never
/// failing; the result depends on the bytes alone.
#[verifier::external_body]
pub(crate) fn lossy_utf8(bytes: &Vec<u8>) -> (r: String)
    ensures
        r@ == lossy_decode(bytes@),
        bytes@.len() == 0 ==> r@.len() == 0,
{
    String::from_utf8_lossy(bytes).to_string()
}

/// The one-line message of an error, over the views of its parts.
pub open spec fn message_spec(e: Error) -> Seq<char> {
    match e {
        Error::CmdFailed(cmd, out_text, err_text) => "Command '"@ + rendered(cmd)
            + "' had a non-zero exit code. Stdout: "@ + out_text@ + " Stderr: "@ + err_text@,
        Error::BundletoolNotFound => "Bundletool is not found"@,
        Error::Io(_) => "IO error"@,
        Error::OtherError(_) => "Other error"@,
    }
}

impl Error {
    /// A human-readable message describing the error. A command failure
    /// shows the command line that failed and both captured streams; the
    /// wrapped faults keep their description in their own fields.
    pub fn message(&self) -> (r: String)
        ensures
            r@ == message_spec(*self),
    {
        match self {
            Error::CmdFailed(cmd, out_text, err_text) => {
                let mut m: String = String::new();
                m.append("Command '");
                let line = cmd.render();
                m.append(line.as_str());
                m.append("' had a non-zero exit code. Stdout: ");
                m.append(out_text.as_str());
                m.append(" Stderr: ");
                m.append(err_text.as_str());
                m
            },
            Error::BundletoolNotFound => {
                let mut m: String = String::new();
                m.append("Bundletool is not found");
                m
            },
            Error::Io(_) => {
                let mut m: String = String::new();
                m.append("IO error");
                m
            },
            Error::OtherError(_) => {
                let mut m: String = String::new();
                m.append("Other error");
                m
            },
        }
    }
}

} // verus!
