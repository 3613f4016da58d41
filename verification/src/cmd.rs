//! The invocation descriptor and the values that describe a finished child
//! process.

use vstd::prelude::*;

verus! {

/// A process invocation descriptor: the executable to run and its ordered
/// arguments. Built by the caller, consumed by the execution step, and kept
/// inside a command-failure error for later display.
#[derive(Debug)]
pub struct Cmd {
    /// Path or name of the executable.
    pub program: String,
    /// Ordered argument list, handed to the child as given.
    pub args: Vec<String>,
}

impl Cmd {
    /// A descriptor for `program` with no arguments yet.
    pub fn new(program: String) -> (c: Cmd)
        ensures
            c.program@ == program@,
            c.args@ =~= Seq::<String>::empty(),
    {
        Cmd { program, args: Vec::new() }
    }

    /// Appends one argument.
    pub fn arg(self, a: String) -> (c: Cmd)
        ensures
            c.program@ == self.program@,
            c.args@ == self.args@.push(a),
    {
        let mut c = self;
        c.args.push(a);
        c
    }

    /// Appends every argument of `more`, in order.
    pub fn args(self, more: Vec<String>) -> (c: Cmd)
        ensures
            c.program@ == self.program@,
            c.args@ == self.args@ + more@,
    {
        let mut c = self;
        let mut more = more;
        let ghost orig = c.args@;
        let ghost added = more@;
        let n = more.len();
        let mut i: usize = 0;
        while i < n
            invariant
                n == added.len(),
                i <= n,
                more@ == added,
                c.program@ == self.program@,
                c.args@ == orig + added.take(i as int),
            decreases n - i,
        {
            let a = more[i].clone();
            proof {
                assert(a@ == added[i as int]@);
                assert(added.take(i + 1) =~= added.take(i as int).push(added[i as int]));
            }
            c.args.push(a);
            i += 1;
        }
        proof {
            assert(added.take(n as int) =~= added);
        }
        c
    }
}

/// The quoted form of one token: the token between double quotes.
pub open spec fn quoted(s: Seq<char>) -> Seq<char> {
    seq!['"'] + s + seq!['"']
}

/// The rendered argument tail: one leading space and one quoted token for
/// each argument, in order.
pub open spec fn rendered_args(args: Seq<String>) -> Seq<char>
    decreases args.len(),
{
    if args.len() == 0 {
        Seq::empty()
    } else {
        rendered_args(args.drop_last()) + seq![' '] + quoted(args.last()@)
    }
}

/// The rendered command line: the quoted program followed by each argument,
/// quoted and space-separated.
pub open spec fn rendered(cmd: Cmd) -> Seq<char> {
    quoted(cmd.program@) + rendered_args(cmd.args@)
}

impl Cmd {
    /// The command line as a single displayable string, each token between
    /// double quotes: `"prog" "arg1" "arg2"`. Tokens are not escaped.
    pub fn render(&self) -> (r: String)
        ensures
            r@ == rendered(*self),
    {
        proof {
            reveal_strlit("\"");
            reveal_strlit(" \"");
        }
        let mut out: String = String::new();
        out.append("\"");
        out.append(self.program.as_str());
        out.append("\"");
        proof {
            assert(out@ =~= quoted(self.program@));
        }
        let n = self.args.len();
        let mut i: usize = 0;
        while i < n
            invariant
                n == self.args@.len(),
                i <= n,
                out@ == quoted(self.program@) + rendered_args(self.args@.take(i as int)),
            decreases n - i,
        {
            let ghost before = out@;
            out.append(" \"");
            out.append(self.args[i].as_str());
            out.append("\"");
            proof {
                reveal_strlit("\"");
                reveal_strlit(" \"");
                assert(" \""@ =~= seq![' ', '"']);
                assert("\""@ =~= seq!['"']);
                let prefix = self.args@.take(i + 1);
                assert(prefix.drop_last() =~= self.args@.take(i as int));
                assert(prefix.last() == self.args@[i as int]);
                assert(out@ =~= quoted(self.program@) + rendered_args(prefix));
            }
            i += 1;
        }
        proof {
            assert(self.args@.take(n as int) =~= self.args@);
        }
        out
    }
}

/// The exit status of a finished child process: the exit code, or `None`
/// where the process was terminated without one (for instance by a signal).
#[derive(Clone, Copy, Debug, PartialEq, Eq, Structural)]
pub struct ExitStatus {
    /// The numeric exit code, if the process exited with one.
    pub code: Option<i32>,
}

impl ExitStatus {
    /// Success means the process exited with code zero.
    pub open spec fn success(self) -> bool {
        self.code == Some(0i32)
    }

    /// Whether the status reports success (exit code zero).
    pub fn is_success(&self) -> (b: bool)
        ensures
            b == self.success(),
    {
        match self.code {
            Some(c) => c == 0,
            None => false,
        }
    }
}

/// Everything a finished child process produced: its exit status and the raw
/// bytes it wrote to standard output and standard error. Immutable once
/// produced.
#[derive(Debug)]
pub struct CapturedOutput {
    /// The exit status the process finished with.
    pub status: ExitStatus,
    /// Raw bytes written to standard output.
    pub stdout: Vec<u8>,
    /// Raw bytes written to standard error.
    pub stderr: Vec<u8>,
}

/// How the child's standard streams are handled while it runs.
///
/// `Buffered` captures them silently: nothing reaches the caller's own
/// inherited streams. `Echoed` lets the output pass through live as well,
/// while the run still returns whatever was captured.
#[derive(Clone, Copy, Debug, PartialEq, Eq, Structural)]
pub enum CaptureMode {
    /// Capture silently; nothing is echoed to the inherited streams.
    Buffered,
    /// Echo output live to the inherited streams, in addition to capturing.
    Echoed,
}

impl CaptureMode {
    /// The mode a `print_logs` flag selects: logging means echoing.
    pub fn from_print_logs(print_logs: bool) -> (m: CaptureMode)
        ensures
            m == (if print_logs {
                CaptureMode::Echoed
            } else {
                CaptureMode::Buffered
            }),
    {
        if print_logs {
            CaptureMode::Echoed
        } else {
            CaptureMode::Buffered
        }
    }
}

} // verus!
