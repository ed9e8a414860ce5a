//! Per-stream redirection policies.
use vstd::prelude::*;

verus! {

/// Where a standard stream of the child goes.
#[derive(Clone, Copy, Debug, PartialEq, Eq, Structural)]
pub enum StdioPolicy {
    /// The parent's own stream is passed through.
    Inherit,
    /// The stream is discarded.
    Null,
    /// The stream goes through a pipe that the parent reads or writes.
    Piped,
}

/// The stdio configuration as the host supplies it.
#[derive(Debug)]
pub struct StdioOptions {
    pub stdin: StdioPolicy,
    /// Bytes to write to stdin before closing it; only meaningful when
    /// stdin is piped.
    pub stdin_payload: Option<Vec<u8>>,
    pub stdout: StdioPolicy,
    pub stderr: StdioPolicy,
}

/// How stdin is set up once the configuration has been checked.
#[derive(Debug)]
pub enum StdinSetup {
    Inherit,
    Null,
    /// Piped, with the payload to write before closing, if any.
    Piped(Option<Vec<u8>>),
}

impl StdioOptions {
    /// The host's default: no stdin, stdout and stderr captured.
    pub fn new() -> (r: StdioOptions)
        ensures
            r.stdin == StdioPolicy::Null,
            r.stdin_payload is None,
            r.stdout == StdioPolicy::Piped,
            r.stderr == StdioPolicy::Piped,
    {
        StdioOptions {
            stdin: StdioPolicy::Null,
            stdin_payload: None,
            stdout: StdioPolicy::Piped,
            stderr: StdioPolicy::Piped,
        }
    }
}

/// Options are contradictory when a payload is given for a stdin that is not
/// piped.
pub open spec fn contradictory(o: StdioOptions) -> bool {
    o.stdin_payload is Some && o.stdin != StdioPolicy::Piped
}

/// The stdin setup that consistent options describe.
pub open spec fn stdin_setup_of(o: StdioOptions) -> StdinSetup {
    match o.stdin {
        StdioPolicy::Inherit => StdinSetup::Inherit,
        StdioPolicy::Null => StdinSetup::Null,
        StdioPolicy::Piped => StdinSetup::Piped(o.stdin_payload),
    }
}

/// The policy that a host names as text: `pipe` (or `default`), `inherit`
/// (or `forward`) and `none`.
pub open spec fn policy_named(name: Seq<char>) -> Option<StdioPolicy> {
    if name == "pipe"@ || name == "default"@ {
        Some(StdioPolicy::Piped)
    } else if name == "inherit"@ || name == "forward"@ {
        Some(StdioPolicy::Inherit)
    } else if name == "none"@ {
        Some(StdioPolicy::Null)
    } else {
        None
    }
}

/// Relies on `<str as PartialEq>::eq`: two strings are equal when they hold
/// the same characters.
#[verifier::external_body]
fn same_text(a: &str, b: &str) -> (r: bool)
    ensures
        r == (a@ == b@),
{
    a == b
}

/// The policy that `name` names, if any.
pub fn policy_from_name(name: &str) -> (r: Option<StdioPolicy>)
    ensures
        r == policy_named(name@),
{
    if same_text(name, "pipe") || same_text(name, "default") {
        Some(StdioPolicy::Piped)
    } else if same_text(name, "inherit") || same_text(name, "forward") {
        Some(StdioPolicy::Inherit)
    } else if same_text(name, "none") {
        Some(StdioPolicy::Null)
    } else {
        None
    }
}

impl StdinSetup {
    /// Whether the child's stdin is a pipe held by the parent.
    pub fn is_piped(&self) -> (r: bool)
        ensures
            r == (*self is Piped),
    {
        match self {
            StdinSetup::Piped(_) => true,
            _ => false,
        }
    }
}

} // verus!
