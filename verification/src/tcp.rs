//! The stream-socket engine's decisions.
//!
//! The stream transport connects one socket per transmitter and, on the
//! server side, binds a listening socket and reads connections in the
//! background. The sockets themselves live outside the library; this
//! module holds the engine value and computes the listening address. The
//! per-connection accounting is in `reader`, the chunked sending in
//! `transfer`.

use vstd::prelude::*;
use vstd::string::StringExecFns;
use crate::errors::Error;
use crate::text::{decimal_chars, decimal_string};

verus! {

/// The stream-socket transport. Carries no state: every transmitter and
/// receiver acquires its own socket.
pub struct TcpEngine {}

impl TcpEngine {
    /// Building the engine acquires no resource and always succeeds.
    pub fn new() -> (r: Result<Box<TcpEngine>, Error>)
        ensures
            r is Ok,
    {
        Ok(Box::new(TcpEngine {  }))
    }
}

/// The address a receiver listens on: every interface, at the given port.
pub fn listen_addr(port: u16) -> (s: String)
    ensures
        s@ == "0.0.0.0:"@ + decimal_chars(port as int),
{
    let mut s = "0.0.0.0:".to_owned();
    s.append(decimal_string(port).as_str());
    s
}

} // verus!
