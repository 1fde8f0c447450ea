use netbench::engines::{select_engine, EngineKind};
use netbench::errors::Error;
use netbench::tcp::{listen_addr, TcpEngine};
use netbench::text::{decimal_string, str_eq};
use netbench::zmq::{
    bind_endpoint, connect_endpoint, local_addr, needs_subscribe, receive_peers, transmit_peers,
    MqRecvState, SocketKind, ZmqEngine, ZmqMode,
};

#[test]
fn protocol_names_select_engines() {
    assert_eq!(select_engine("tcp"), Ok(EngineKind::Tcp));
    assert_eq!(select_engine("zmq"), Ok(EngineKind::Zmq(ZmqMode::PushPull)));
    assert_eq!(select_engine("zmq:pushpull"), Ok(EngineKind::Zmq(ZmqMode::PushPull)));
    assert_eq!(select_engine("zmq:pubsub"), Ok(EngineKind::Zmq(ZmqMode::PubSub)));
    assert_eq!(select_engine("zmq:pair"), Ok(EngineKind::Zmq(ZmqMode::Pair)));
}

#[test]
fn unknown_protocol_is_a_configuration_error() {
    assert_eq!(select_engine("udp"), Err(Error::Configuration));
    assert_eq!(select_engine(""), Err(Error::Configuration));
    assert_eq!(select_engine("TCP"), Err(Error::Configuration));
    assert_eq!(select_engine("zmq:"), Err(Error::Configuration));
}

#[test]
fn tcp_engine_builds() {
    assert!(TcpEngine::new().is_ok());
}

#[test]
fn zmq_engine_keeps_its_mode() {
    let engine = ZmqEngine::new(ZmqMode::PubSub).unwrap();
    assert_eq!(engine.mode, ZmqMode::PubSub);
}

#[test]
fn wiring_modes_pick_socket_kinds() {
    let push_pull = ZmqEngine::new(ZmqMode::PushPull).unwrap();
    assert_eq!(push_pull.transmit_socket_kind(), SocketKind::Push);
    assert_eq!(push_pull.receive_socket_kind(), SocketKind::Pull);

    let pub_sub = ZmqEngine::new(ZmqMode::PubSub).unwrap();
    assert_eq!(pub_sub.transmit_socket_kind(), SocketKind::Publish);
    assert_eq!(pub_sub.receive_socket_kind(), SocketKind::Subscribe);

    let pair = ZmqEngine::new(ZmqMode::Pair).unwrap();
    assert_eq!(pair.transmit_socket_kind(), SocketKind::Pair);
    assert_eq!(pair.receive_socket_kind(), SocketKind::Pair);
}

#[test]
fn only_subscribers_subscribe() {
    assert!(needs_subscribe(SocketKind::Subscribe));
    assert!(!needs_subscribe(SocketKind::Push));
    assert!(!needs_subscribe(SocketKind::Pull));
    assert!(!needs_subscribe(SocketKind::Publish));
    assert!(!needs_subscribe(SocketKind::Pair));
}

#[test]
fn endpoint_strings() {
    assert_eq!(listen_addr(10000), "0.0.0.0:10000");
    assert_eq!(local_addr(80), "0.0.0.0:80");
    assert_eq!(bind_endpoint(10000), "tcp://*:10000");
    assert_eq!(connect_endpoint("10.1.2.3:4567"), "tcp://10.1.2.3:4567");
}

#[test]
fn decimal_formatting() {
    assert_eq!(decimal_string(0), "0");
    assert_eq!(decimal_string(7), "7");
    assert_eq!(decimal_string(10), "10");
    assert_eq!(decimal_string(10000), "10000");
    assert_eq!(decimal_string(65535), "65535");
}

#[test]
fn string_comparison() {
    assert!(str_eq("tcp", "tcp"));
    assert!(str_eq("", ""));
    assert!(!str_eq("tcp", "tc"));
    assert!(!str_eq("tcp", "tcq"));
    assert!(!str_eq("tcp", "Tcp"));
}

#[test]
fn message_queue_peers_are_symbolic() {
    let t = transmit_peers("10.0.0.1:10000");
    assert_eq!(t.src(), "local");
    assert_eq!(t.dest(), "10.0.0.1:10000");
    let r = receive_peers("0.0.0.0:10000");
    assert_eq!(r.src(), "remote");
    assert_eq!(r.dest(), "0.0.0.0:10000");
}

#[test]
fn polling_receiver_stops_past_threshold() {
    // Frames are absorbed until the byte total exceeds the reporting
    // threshold; the report covers exactly what was absorbed.
    let frame = 64 * 1024 * 1024;
    let mut state = MqRecvState::new();
    let mut frames = 0;
    while state.wants_more() {
        state.on_frame(frame);
        frames += 1;
    }
    // 200 MiB threshold, 64 MiB frames: the fourth frame pushes the total
    // past the threshold.
    assert_eq!(frames, 4);
    let report = state.report(55);
    assert!(!report.summary);
    assert_eq!(report.bytes, 4 * frame);
    assert_eq!(report.operations, 4);
    assert_eq!(report.period_nanos, 55);
}
