use enclave_relay::bridge::{Action, Connection, Event, Phase, Side};
use enclave_relay::error::ConnectionError;

fn bridged() -> Connection {
    let (mut connection, first) = Connection::accept();
    assert_eq!(first, Action::Connect);
    assert_eq!(connection.on_event(Event::Connected), Action::Idle);
    assert_eq!(connection.current(), Phase::Bridging);
    connection
}

fn data(from: Side, bytes: &[u8]) -> Event {
    Event::Data { from, bytes: bytes.to_vec() }
}

fn forward(to: Side, bytes: &[u8]) -> Action {
    Action::Forward { to, bytes: bytes.to_vec() }
}

#[test]
fn accept_asks_to_connect() {
    let (connection, first) = Connection::accept();
    assert_eq!(first, Action::Connect);
    assert_eq!(connection.current(), Phase::Connecting);
    assert!(!connection.is_closed());
}

#[test]
fn sides_are_each_other_s_peer() {
    assert_eq!(Side::Client.peer(), Side::Enclave);
    assert_eq!(Side::Enclave.peer(), Side::Client);
    assert_eq!(Side::Client.failure(), ConnectionError::ClientFailed);
    assert_eq!(Side::Enclave.failure(), ConnectionError::EnclaveFailed);
}

#[test]
fn bytes_are_forwarded_unchanged_to_the_other_side() {
    let mut connection = bridged();
    let payload: Vec<u8> = (0..=255).collect();
    assert_eq!(connection.on_event(data(Side::Client, &payload)), forward(Side::Enclave, &payload));
    assert_eq!(connection.on_event(data(Side::Enclave, b"\x16\x03\x01")), forward(Side::Client, b"\x16\x03\x01"));
    assert_eq!(connection.on_event(data(Side::Client, b"")), forward(Side::Enclave, b""));
    assert_eq!(connection.current(), Phase::Bridging);
}

#[test]
fn each_direction_keeps_its_order() {
    let mut connection = bridged();
    let events = [
        data(Side::Client, b"GET "),
        data(Side::Enclave, b"HTTP"),
        data(Side::Client, b"/ "),
        data(Side::Client, b"HTTP/1.1"),
        data(Side::Enclave, b"/1.1 200"),
    ];
    let mut to_enclave = Vec::new();
    let mut to_client = Vec::new();
    for event in events {
        match connection.on_event(event) {
            Action::Forward { to: Side::Enclave, bytes } => to_enclave.extend(bytes),
            Action::Forward { to: Side::Client, bytes } => to_client.extend(bytes),
            other => panic!("unexpected {other:?}"),
        }
    }
    assert_eq!(to_enclave, b"GET / HTTP/1.1");
    assert_eq!(to_client, b"HTTP/1.1 200");
}

#[test]
fn closing_the_client_closes_the_enclave_side_at_once() {
    let mut connection = bridged();
    assert_eq!(connection.on_event(Event::Eof { from: Side::Client }), Action::Close { reason: None });
    assert!(connection.is_closed());
    assert_eq!(connection.current(), Phase::Closed);
}

#[test]
fn closing_the_enclave_closes_the_client_side_at_once() {
    let mut connection = bridged();
    assert_eq!(connection.on_event(data(Side::Client, b"x")), forward(Side::Enclave, b"x"));
    assert_eq!(connection.on_event(Event::Eof { from: Side::Enclave }), Action::Close { reason: None });
    assert!(connection.is_closed());
}

#[test]
fn a_failure_on_either_side_closes_both() {
    let mut connection = bridged();
    assert_eq!(
        connection.on_event(Event::Failed { from: Side::Client }),
        Action::Close { reason: Some(ConnectionError::ClientFailed) }
    );
    assert!(connection.is_closed());

    let mut connection = bridged();
    assert_eq!(
        connection.on_event(Event::Failed { from: Side::Enclave }),
        Action::Close { reason: Some(ConnectionError::EnclaveFailed) }
    );
    assert!(connection.is_closed());
}

#[test]
fn nothing_happens_after_teardown() {
    let mut connection = bridged();
    connection.on_event(Event::Eof { from: Side::Client });
    let later = [
        data(Side::Client, b"late"),
        data(Side::Enclave, b"late"),
        Event::Eof { from: Side::Enclave },
        Event::Failed { from: Side::Client },
        Event::Connected,
        Event::ConnectFailed,
    ];
    for event in later {
        assert_eq!(connection.on_event(event), Action::Idle);
        assert!(connection.is_closed());
    }
}

#[test]
fn failed_connect_ends_only_this_connection() {
    let (mut failing, _) = Connection::accept();
    let mut healthy = bridged();
    assert_eq!(
        failing.on_event(Event::ConnectFailed),
        Action::Close { reason: Some(ConnectionError::EnclaveUnreachable) }
    );
    assert!(failing.is_closed());
    assert_eq!(healthy.current(), Phase::Bridging);
    assert_eq!(healthy.on_event(data(Side::Client, b"still here")), forward(Side::Enclave, b"still here"));
}

#[test]
fn while_connecting_anything_but_the_outcome_ends_the_connection() {
    let (mut connection, _) = Connection::accept();
    assert_eq!(
        connection.on_event(data(Side::Client, b"early")),
        Action::Close { reason: Some(ConnectionError::EnclaveUnreachable) }
    );
    assert!(connection.is_closed());

    let (mut connection, _) = Connection::accept();
    assert_eq!(connection.on_event(Event::Eof { from: Side::Client }), Action::Close { reason: None });
    assert!(connection.is_closed());

    let (mut connection, _) = Connection::accept();
    assert_eq!(
        connection.on_event(Event::Failed { from: Side::Client }),
        Action::Close { reason: Some(ConnectionError::ClientFailed) }
    );
    assert!(connection.is_closed());
}

#[test]
fn a_second_connect_notice_is_passed_over() {
    let mut connection = bridged();
    assert_eq!(connection.on_event(Event::Connected), Action::Idle);
    assert_eq!(connection.on_event(Event::ConnectFailed), Action::Idle);
    assert_eq!(connection.current(), Phase::Bridging);
}

#[test]
fn two_connections_never_mix_their_streams() {
    let mut first = bridged();
    let mut second = bridged();
    let mut first_out: Vec<u8> = Vec::new();
    let mut second_out: Vec<u8> = Vec::new();
    let mut first_in: Vec<u8> = Vec::new();
    let mut second_in: Vec<u8> = Vec::new();
    for round in 0u32..500 {
        let chunk_a: Vec<u8> = (0..(round % 7 + 1)).map(|i| b'a' + ((round + i) % 26) as u8).collect();
        let chunk_b: Vec<u8> = (0..(round % 5 + 1)).map(|i| b'A' + ((round * 3 + i) % 26) as u8).collect();
        first_in.extend(&chunk_a);
        second_in.extend(&chunk_b);
        let turns = if round % 2 == 0 { [true, false] } else { [false, true] };
        for of_first in turns {
            let (connection, chunk, out) = if of_first {
                (&mut first, &chunk_a, &mut first_out)
            } else {
                (&mut second, &chunk_b, &mut second_out)
            };
            match connection.on_event(data(Side::Client, chunk)) {
                Action::Forward { to: Side::Enclave, bytes } => out.extend(bytes),
                other => panic!("unexpected {other:?}"),
            }
        }
    }
    assert_eq!(first_out, first_in);
    assert_eq!(second_out, second_in);
    assert!(first_out.iter().all(|b| b.is_ascii_lowercase()));
    assert!(second_out.iter().all(|b| b.is_ascii_uppercase()));
}

#[test]
fn closing_one_connection_leaves_the_other_bridging() {
    let mut first = bridged();
    let mut second = bridged();
    assert_eq!(first.on_event(Event::Eof { from: Side::Client }), Action::Close { reason: None });
    assert_eq!(second.current(), Phase::Bridging);
    assert_eq!(second.on_event(data(Side::Enclave, b"reply")), forward(Side::Client, b"reply"));
    assert_eq!(first.on_event(data(Side::Enclave, b"reply")), Action::Idle);
}
