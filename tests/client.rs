use speednet::args::ArgsClient;
use speednet::client::{Coordinator, Phase, Stream};
use speednet::error::SpeedError;
use speednet::message::Message;
use speednet::pktgenerator::Role;

fn config(parallel: u32, revert: bool) -> ArgsClient {
    ArgsClient { hostname: "127.0.0.1".to_string(), port: 4000, parallel, revert, len: 1000, time: 1, ..ArgsClient::default() }
}

#[test]
fn negotiation_runs_to_completion() {
    let args = config(3, false);
    let mut c = Coordinator::new(&args);
    assert_eq!(c.phase, Phase::Idle);
    c.hello_sent();
    assert_eq!(c.phase, Phase::HelloSent);
    assert_eq!(c.on_reply(&Message::ServerHello(7)), Ok(7));
    assert_eq!(c.phase, Phase::Negotiated);
    let streams = c.start_streams(&args);
    assert_eq!(streams.len(), 3);
    for (i, s) in streams.iter().enumerate() {
        assert_eq!(s.testid, 7);
        assert_eq!(s.streamid, i as u32);
        assert!(matches!(s.hello(), Message::ClientStreamHello(7, id) if id == i as u32));
    }
    assert_eq!(c.phase, Phase::StreamsRunning);
    c.stream_finished();
    c.stream_finished();
    assert_eq!(c.phase, Phase::StreamsRunning);
    c.stream_finished();
    assert_eq!(c.phase, Phase::Completed);
    assert_eq!(c.finished, 3);
}

#[test]
fn unexpected_reply_ends_run() {
    let args = config(1, false);
    let mut c = Coordinator::new(&args);
    c.hello_sent();
    assert_eq!(c.on_reply(&Message::ServerStreamHello), Err(SpeedError::ProtocolViolation));
    assert_eq!(c.phase, Phase::Completed);
    assert_eq!(c.testid, None);
}

#[test]
fn zero_streams_complete_at_once() {
    let args = config(0, false);
    let mut c = Coordinator::new(&args);
    c.hello_sent();
    c.on_reply(&Message::ServerHello(0)).unwrap();
    assert!(c.start_streams(&args).is_empty());
    assert_eq!(c.phase, Phase::Completed);
}

#[test]
fn stream_role_follows_direction() {
    assert_eq!(Stream::new(&config(1, false), 0, 0).role(), Role::Send);
    assert_eq!(Stream::new(&config(1, true), 0, 0).role(), Role::Receive);
}
