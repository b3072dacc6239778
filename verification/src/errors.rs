use vstd::prelude::*;

verus! {

/// How the external mount helper failed: a non-zero exit code, or
/// termination by a signal.
#[derive(Clone, Copy, Debug, PartialEq, Eq, Structural)]
pub enum HelperFailure {
    ExitCode(i32),
    Signal(i32),
}

/// Terminal errors of one mount invocation. None is retried internally.
#[derive(Clone, Copy, Debug, PartialEq, Eq, Structural)]
pub enum XarError {
    /// No mount root with permission bits exactly 01777 was available.
    Configuration,
    /// The archive header ended before a sentinel terminator line.
    HeaderFormat,
    /// A directory or lockfile operation failed.
    Io,
    /// The external mount helper exited non-zero or was killed by a signal.
    Helper(HelperFailure),
    /// The mount never became visible within the deadline.
    Timeout,
}

} // verus!
