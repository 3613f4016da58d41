//! A process-invocation error model: an invocation descriptor, a captured
//! output value, and a unified error type covering command failure, a missing
//! tool, I/O faults and opaque lower-layer errors, together with the decision
//! logic that turns a finished child process into a typed result.

pub mod cmd;
pub mod error;
pub mod run;
