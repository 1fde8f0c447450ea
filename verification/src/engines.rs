//! Transport selection: mapping the protocol name to an engine.
//!
//! The transport is chosen once at startup from a protocol string. The
//! recognized transports form a closed set — a stream-socket engine and a
//! message-queue engine in one of three wiring modes; anything else is a
//! configuration error, raised before any engine work starts.

use vstd::prelude::*;
use crate::errors::Error;
use crate::text::str_eq;
use crate::zmq::ZmqMode;

verus! {

/// The closed set of transports the benchmark can run over.
#[derive(Clone, Copy, Debug, PartialEq, Eq, Structural)]
pub enum EngineKind {
    /// Connection-oriented stream sockets.
    Tcp,
    /// Message-queue sockets in the given wiring mode.
    Zmq(ZmqMode),
}

/// Which engine each protocol name selects. `tcp` names the stream
/// transport; `zmq` and `zmq:pushpull` the message-queue transport in
/// push/pull wiring, `zmq:pubsub` in publish/subscribe wiring and
/// `zmq:pair` in exclusive pair wiring. Every other name is rejected.
pub open spec fn engine_for(proto: Seq<char>) -> Result<EngineKind, Error> {
    if proto == "tcp"@ {
        Ok(EngineKind::Tcp)
    } else if proto == "zmq"@ || proto == "zmq:pushpull"@ {
        Ok(EngineKind::Zmq(ZmqMode::PushPull))
    } else if proto == "zmq:pubsub"@ {
        Ok(EngineKind::Zmq(ZmqMode::PubSub))
    } else if proto == "zmq:pair"@ {
        Ok(EngineKind::Zmq(ZmqMode::Pair))
    } else {
        Err(Error::Configuration)
    }
}

/// Selects the engine for a protocol name.
pub fn select_engine(proto: &str) -> (r: Result<EngineKind, Error>)
    ensures
        r == engine_for(proto@),
{
    if str_eq(proto, "tcp") {
        Ok(EngineKind::Tcp)
    } else if str_eq(proto, "zmq") || str_eq(proto, "zmq:pushpull") {
        Ok(EngineKind::Zmq(ZmqMode::PushPull))
    } else if str_eq(proto, "zmq:pubsub") {
        Ok(EngineKind::Zmq(ZmqMode::PubSub))
    } else if str_eq(proto, "zmq:pair") {
        Ok(EngineKind::Zmq(ZmqMode::Pair))
    } else {
        Err(Error::Configuration)
    }
}

} // verus!
