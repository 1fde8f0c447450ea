//! Error taxonomy shared by every component of the benchmark core.

use vstd::prelude::*;

verus! {

/// What went wrong during a benchmark run.
///
/// `Configuration` covers mistakes found before any transport work starts
/// (an unknown protocol name, an empty destination list). `Connect` covers
/// failures to acquire a transport resource (unreachable destination, port
/// in use). `Io` covers read/write failures in the middle of a transfer,
/// including idle-timeout-triggered read failures. `Channel` marks the
/// reporting channel closing unexpectedly, which is a defect rather than an
/// operational condition.
#[derive(Clone, Copy, Debug, PartialEq, Eq, Structural)]
pub enum Error {
    Configuration,
    Connect,
    Io,
    Channel,
}

impl Error {
    /// A short human-readable description, for callers that print errors.
    pub fn describe(&self) -> (r: &'static str)
        ensures
            self is Configuration ==> r@ == "invalid configuration"@,
            self is Connect ==> r@ == "connection failed"@,
            self is Io ==> r@ == "transfer failed"@,
            self is Channel ==> r@ == "reporting channel closed unexpectedly"@,
    {
        match self {
            Error::Configuration => "invalid configuration",
            Error::Connect => "connection failed",
            Error::Io => "transfer failed",
            Error::Channel => "reporting channel closed unexpectedly",
        }
    }
}

} // verus!
