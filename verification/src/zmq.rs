//! The message-queue engine's decisions.
//!
//! The message-queue transport frames the payload into chunk-sized
//! messages over a messaging library's sockets, wired in one of three
//! patterns: push/pull for unicast work distribution, publish/subscribe
//! for fan-out, or an exclusive pair. This module picks the socket kind
//! for each side, builds the endpoint strings, names the symbolic peers,
//! and counts what a polling receiver sees; the messaging sockets
//! themselves live outside the library. The chunked sending is in
//! `transfer`.

use vstd::prelude::*;
use vstd::string::StringExecFns;
use crate::errors::Error;
use crate::stats::{PeerInfo, Stats, RECV_REPORT_INTERVAL};
use crate::text::{decimal_chars, decimal_string};

verus! {

/// The wiring pattern of the message-queue transport.
#[derive(Clone, Copy, Debug, PartialEq, Eq, Structural)]
pub enum ZmqMode {
    PushPull,
    PubSub,
    Pair,
}

/// The kind of messaging socket each side opens.
#[derive(Clone, Copy, Debug, PartialEq, Eq, Structural)]
pub enum SocketKind {
    Push,
    Pull,
    Publish,
    Subscribe,
    Pair,
}

/// The message-queue transport, in a fixed wiring mode.
pub struct ZmqEngine {
    pub mode: ZmqMode,
}

impl ZmqEngine {
    /// Building the engine fixes the wiring mode; the messaging context is
    /// acquired outside the library.
    pub fn new(mode: ZmqMode) -> (r: Result<Box<ZmqEngine>, Error>)
        ensures
            r matches Ok(e) && e.mode == mode,
    {
        Ok(Box::new(ZmqEngine { mode }))
    }

    /// The socket kind a transmitter opens: the sending end of the wiring.
    pub fn transmit_socket_kind(&self) -> (r: SocketKind)
        ensures
            r == (match self.mode {
                ZmqMode::PushPull => SocketKind::Push,
                ZmqMode::PubSub => SocketKind::Publish,
                ZmqMode::Pair => SocketKind::Pair,
            }),
    {
        match self.mode {
            ZmqMode::PushPull => SocketKind::Push,
            ZmqMode::PubSub => SocketKind::Publish,
            ZmqMode::Pair => SocketKind::Pair,
        }
    }

    /// The socket kind a receiver opens: the receiving end of the wiring.
    pub fn receive_socket_kind(&self) -> (r: SocketKind)
        ensures
            r == (match self.mode {
                ZmqMode::PushPull => SocketKind::Pull,
                ZmqMode::PubSub => SocketKind::Subscribe,
                ZmqMode::Pair => SocketKind::Pair,
            }),
    {
        match self.mode {
            ZmqMode::PushPull => SocketKind::Pull,
            ZmqMode::PubSub => SocketKind::Subscribe,
            ZmqMode::Pair => SocketKind::Pair,
        }
    }
}

/// Whether a receiver's socket must subscribe before it can see messages.
/// A subscriber subscribes to the empty prefix, i.e. to every message.
pub fn needs_subscribe(kind: SocketKind) -> (r: bool)
    ensures
        r == (kind is Subscribe),
{
    match kind {
        SocketKind::Subscribe => true,
        _ => false,
    }
}

/// The endpoint a transmitter connects to.
pub fn connect_endpoint(destination: &str) -> (s: String)
    ensures
        s@ == "tcp://"@ + destination@,
{
    let mut s = "tcp://".to_owned();
    s.append(destination);
    s
}

/// The endpoint a receiver binds: every interface, at the given port.
pub fn bind_endpoint(port: u16) -> (s: String)
    ensures
        s@ == "tcp://*:"@ + decimal_chars(port as int),
{
    let mut s = "tcp://*:".to_owned();
    s.append(decimal_string(port).as_str());
    s
}

/// The local address a receiver reports in its statistics.
pub fn local_addr(port: u16) -> (s: String)
    ensures
        s@ == "0.0.0.0:"@ + decimal_chars(port as int),
{
    let mut s = "0.0.0.0:".to_owned();
    s.append(decimal_string(port).as_str());
    s
}

/// True endpoint addresses are unavailable at the messaging-socket layer,
/// so a transmitter reports the symbolic source "local".
pub fn transmit_peers(destination: &str) -> (r: PeerInfo)
    ensures
        r@ == ("local"@, destination@),
{
    PeerInfo::new("local", destination)
}

/// A receiver reports the symbolic source "remote" and its own local
/// address as the destination.
pub fn receive_peers(local: &str) -> (r: PeerInfo)
    ensures
        r@ == ("remote"@, local@),
{
    PeerInfo::new("remote", local)
}

/// Frame counters of one polling receive call. Unlike the stream
/// transport, the message-queue receiver has no background reader: each
/// `receive` call polls frames itself until the received bytes exceed the
/// reporting threshold, then reports once; the outer run loop calls
/// `receive` again to keep the receiver alive.
#[derive(Clone, Copy, Debug, PartialEq, Eq, Structural)]
pub struct MqRecvState {
    pub total: usize,
    pub reads: usize,
}

impl MqRecvState {
    /// Counters for one fresh receive call.
    pub fn new() -> (r: MqRecvState)
        ensures
            r.total == 0,
            r.reads == 0,
    {
        MqRecvState { total: 0, reads: 0 }
    }

    /// Absorbs one received frame of `size` bytes.
    pub fn on_frame(&mut self, size: usize)
        requires
            old(self).total + size <= usize::MAX,
            old(self).reads < usize::MAX,
        ensures
            final(self).total == old(self).total + size,
            final(self).reads == old(self).reads + 1,
    {
        self.total = self.total + size;
        self.reads = self.reads + 1;
    }

    /// Whether the call should poll for another frame: it stops once the
    /// received bytes exceed the reporting threshold.
    pub fn wants_more(&self) -> (r: bool)
        ensures
            r == (self.total <= RECV_REPORT_INTERVAL),
    {
        self.total <= RECV_REPORT_INTERVAL
    }

    /// The partial record one receive call reports: the bytes and frames
    /// it absorbed, over the measured period.
    pub fn report(&self, period_nanos: u64) -> (r: Stats)
        ensures
            r == (Stats {
                summary: false,
                period_nanos,
                bytes: self.total,
                operations: self.reads,
            }),
    {
        Stats::partial(period_nanos, self.total, self.reads)
    }
}

} // verus!
