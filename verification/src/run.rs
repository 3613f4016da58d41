//! Turning the outcome of one child-process run into a typed result.
//!
//! Spawning and waiting are input/output and live with the caller; what is
//! decided here, and verified, is the translation of the outcome: an
//! input/output fault is wrapped as is, a successful run hands the captured
//! output back unchanged, and a non-success exit status becomes a
//! command-failure error carrying the descriptor and the decoded streams.

use vstd::prelude::*;

use crate::cmd::Cmd;
use crate::cmd::CapturedOutput;
use crate::error::Error;
use crate::error::IoFault;
use crate::error::lossy_decode;
use crate::error::lossy_utf8;

verus! {

impl Cmd {
    /// Classifies the outcome of running this command.
    ///
    /// `outcome` is what the caller's spawn-and-wait step produced: the
    /// captured output of a finished process, or the input/output fault
    /// that kept one from being obtained.
    ///
    /// A fault is returned as `Error::Io`, never as a command failure. A
    /// finished process with a success status has its captured output
    /// returned unchanged. A finished process with any other status becomes
    /// `Error::CmdFailed`, carrying this descriptor and the best-effort
    /// text decodings of the captured standard output and standard error.
    pub fn output_err(self, outcome: Result<CapturedOutput, IoFault>) -> (r: Result<
        CapturedOutput,
        Error,
    >)
        ensures
            (match outcome {
                Err(fault) => r == Result::<CapturedOutput, Error>::Err(Error::Io(fault)),
                Ok(out) => if out.status.success() {
                    r == Result::<CapturedOutput, Error>::Ok(out)
                } else {
                    &&& r matches Err(e)
                    &&& e matches Error::CmdFailed(c, out_text, err_text)
                    &&& c == self
                    &&& out_text@ == lossy_decode(out.stdout@)
                    &&& err_text@ == lossy_decode(out.stderr@)
                },
            }),
    {
        match outcome {
            Err(fault) => Err(Error::Io(fault)),
            Ok(out) => {
                if out.status.is_success() {
                    Ok(out)
                } else {
                    let out_text = lossy_utf8(&out.stdout);
                    let err_text = lossy_utf8(&out.stderr);
                    Err(Error::CmdFailed(self, out_text, err_text))
                }
            },
        }
    }
}

} // verus!
