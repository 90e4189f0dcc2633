use speednet::args::{ArgsClient, ArgsServer};
use speednet::error::SpeedError;
use speednet::message::Message;
use speednet::pktgenerator::Role;
use speednet::server::{check_start_test, classify_request, server_role, Request, Server, Speedtest};
use std::sync::{Arc, RwLock};

fn config(revert: bool, port: u16) -> ArgsClient {
    ArgsClient { hostname: "::1".to_string(), port, revert, parallel: 1, len: 1000, time: 1, ..ArgsClient::default() }
}

fn server() -> Server {
    Server::new(ArgsServer { bind: None, port: 4000 }).unwrap()
}

#[test]
fn new_server_is_empty() {
    let s = server();
    assert_eq!(s.next_testid(), 0);
    assert_eq!(s.args().port, 4000);
}

#[test]
fn ids_start_at_zero_and_increase() {
    let mut s = server();
    for i in 0..5u32 {
        assert_eq!(s.register(config(false, 5000 + i as u16)), Ok(i));
    }
    assert_eq!(s.next_testid(), 5);
    assert_eq!(s.lookup(3).unwrap().port, 5003);
}

#[test]
fn ids_unique_when_registered_from_shared_handlers() {
    let shared = Arc::new(RwLock::new(server()));
    let mut ids: Vec<u32> = Vec::new();
    for i in 0..16u16 {
        let handle = Arc::clone(&shared);
        let id = handle.write().unwrap().register(config(false, i)).unwrap();
        ids.push(id);
    }
    ids.sort();
    assert_eq!(ids, (0..16u32).collect::<Vec<u32>>());
}

#[test]
fn unknown_test_id_is_refused() {
    let s = server();
    assert_eq!(s.lookup(999).err(), Some(SpeedError::UnknownTest(999)));
}

#[test]
fn lookup_returns_registered_config() {
    let mut s = server();
    let id = s.register(config(true, 4242)).unwrap();
    let c = s.lookup(id).unwrap();
    assert_eq!(*c, config(true, 4242));
    assert_eq!(s.lookup(id + 1).err(), Some(SpeedError::UnknownTest(id + 1)));
}

#[test]
fn classify_hello_and_stream() {
    match classify_request(Message::ClientHello(config(false, 1))) {
        Ok(Request::Hello(c)) => assert_eq!(c.port, 1),
        other => panic!("unexpected {:?}", other),
    }
    match classify_request(Message::ClientStreamHello(7, 2)) {
        Ok(Request::Stream(t)) => assert_eq!(t, 7),
        other => panic!("unexpected {:?}", other),
    }
}

#[test]
fn classify_refuses_other_messages() {
    for m in [Message::ServerHello(0), Message::ServerStreamHello, Message::ClientStartTest, Message::ServerTestUpdate] {
        assert!(matches!(classify_request(m), Err(SpeedError::ProtocolViolation)));
    }
}

#[test]
fn start_test_expected_after_hello() {
    assert_eq!(check_start_test(&Message::ClientStartTest), Ok(()));
    assert_eq!(check_start_test(&Message::ServerHello(1)), Err(SpeedError::ProtocolViolation));
}

#[test]
fn server_role_complements_direction() {
    assert_eq!(server_role(&config(false, 1)), Role::Receive);
    assert_eq!(server_role(&config(true, 1)), Role::Send);
}

#[test]
fn speedtest_keeps_config() {
    let t = Speedtest::new(config(true, 9));
    assert_eq!(t.config.port, 9);
}
