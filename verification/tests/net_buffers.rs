use wosim::net::{
    certificate_name, connect_outcome, login_outcome, login_reply, EstablishConnectionError, Ports, Reader,
    SessionMessage, Writer,
};

#[test]
fn writer_appends() {
    let mut w = Writer::new();
    w.write_bytes(&[1, 2]);
    w.write_bytes(&[3]);
    assert_eq!(w.into_inner(), vec![1, 2, 3]);
}

#[test]
fn reader_consumes_from_front() {
    let mut r = Reader::new(vec![1, 2, 3, 4]);
    assert_eq!(r.remaining(), &[1, 2, 3, 4]);
    r.advance(3);
    assert_eq!(r.remaining(), &[4]);
}

#[test]
fn ports_bind_once_until_released() {
    let mut p: Ports<&str> = Ports::new();
    assert!(p.bind(7, "a"));
    assert!(!p.bind(7, "b"));
    assert_eq!(p.get(7), Some(&"a"));
    p.release(7);
    assert_eq!(p.get(7), None);
    assert!(p.bind(7, "b"));
    assert_eq!(p.get(7), Some(&"b"));
}

#[test]
fn session_message_variants() {
    let m: SessionMessage<u8, &str> = SessionMessage::Message(1, "x");
    assert!(matches!(m, SessionMessage::Message(1, "x")));
}

#[test]
fn granted_login_reply_gives_connection_id() {
    let reply = login_reply(&Ok(7)).ok().unwrap();
    assert_eq!(reply, vec![0, 0, 0, 0, 7, 0, 0, 0, 0, 0, 0, 0]);
    assert_eq!(connect_outcome(&reply), Ok(7));
    assert_eq!(login_outcome(Ok(7)), Ok(7));
}

#[test]
fn refused_login_reply_gives_reason() {
    let reply = login_reply(&Err("bad token".to_string())).ok().unwrap();
    assert_eq!(reply[0..4].to_vec(), vec![1, 0, 0, 0]);
    let expected = Err(EstablishConnectionError::TokenRejected("bad token".to_string()));
    assert_eq!(connect_outcome(&reply), expected);
    assert_eq!(login_outcome(Err("bad token".to_string())), expected);
}

#[test]
fn undecodable_reply_is_a_deserialize_error() {
    assert_eq!(connect_outcome(&[2, 0, 0, 0]), Err(EstablishConnectionError::Deserialize));
    assert_eq!(connect_outcome(&[0, 0]), Err(EstablishConnectionError::Deserialize));
}

#[test]
fn ip_servers_are_checked_as_localhost() {
    assert_eq!(certificate_name("127.0.0.1", true), "localhost");
    assert_eq!(certificate_name("wosim.net", false), "wosim.net");
}
