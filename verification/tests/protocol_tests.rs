use clipsynk::clipboard::{clipboard_text, WATCH_RETRY_SECS};
use clipsynk::discover::{Discovery, BROADCAST_INTERVAL_SECS};
use clipsynk::errors::AppErr;
use clipsynk::frame::{clock_reading, timestamp_from_clock, Frame, HandShake};
use clipsynk::mobile::remote_frame_args;
use clipsynk::transport::{Connection, ConnectionAction, ConnectionEvent, ConnectionPhase};

#[test]
fn remote_frame_args_order_and_cut() {
    let f = Frame { bytes: b"xyz".to_vec(), timestamp: (5u128 << 64) + 12, hash: 34 };
    assert_eq!(remote_frame_args(f), (34, 12, b"xyz".to_vec()));
}

#[test]
fn timestamp_from_clock_maps_reading() {
    assert_eq!(timestamp_from_clock(Some(1_700_000_000_123)), 1_700_000_000_123);
    assert_eq!(timestamp_from_clock(None), 0);
}

#[test]
fn clock_reads_after_the_epoch() {
    let r = clock_reading().unwrap();
    assert!(r > 1_577_836_800_000);
}

#[test]
fn broadcast_schedule() {
    assert_eq!(BROADCAST_INTERVAL_SECS, 300);
    assert_eq!(Discovery::next_broadcast_delay(true), Some(300));
    assert_eq!(Discovery::next_broadcast_delay(false), None);
    assert_eq!(WATCH_RETRY_SECS, 2);
}

#[test]
fn clipboard_text_is_lossy_utf8() {
    assert_eq!(clipboard_text(b"hello"), "hello");
    assert_eq!(clipboard_text("héllo".as_bytes()), "héllo");
    assert_eq!(clipboard_text(&[b'a', 0xff, b'b']), "a\u{FFFD}b");
}

#[test]
fn connection_sends_hello_then_reads_then_releases() {
    let (mut c, hello) = Connection::new(11, 5000);
    assert_eq!(hello, HandShake { device_id: 11, tcp_port: 5000 });
    assert_eq!(c.phase, ConnectionPhase::Greeting);
    assert!(matches!(c.on_event(ConnectionEvent::HelloWritten(Ok(()))), ConnectionAction::ReadHello));
    assert_eq!(c.phase, ConnectionPhase::AwaitingPeer);
    let peer = HandShake::new(22, 6000);
    match c.on_event(ConnectionEvent::PeerHello(Ok(peer))) {
        ConnectionAction::Register(h) => assert_eq!(h, peer),
        other => panic!("{:?}", other),
    }
    assert_eq!(c.phase, ConnectionPhase::Serving(22));
    match c.on_event(ConnectionEvent::PumpEnded) {
        ConnectionAction::Release(id) => assert_eq!(id, 22),
        other => panic!("{:?}", other),
    }
    assert_eq!(c.phase, ConnectionPhase::Closed);
}

#[test]
fn connection_stops_on_handshake_errors() {
    let (mut c, _) = Connection::new(1, 1);
    match c.on_event(ConnectionEvent::HelloWritten(Err(AppErr::WriteErr("w".to_string())))) {
        ConnectionAction::Stop(Err(AppErr::WriteErr(s))) => assert_eq!(s, "w"),
        other => panic!("{:?}", other),
    }
    assert_eq!(c.phase, ConnectionPhase::Closed);
    let (mut c, _) = Connection::new(1, 1);
    c.on_event(ConnectionEvent::HelloWritten(Ok(())));
    match c.on_event(ConnectionEvent::PeerHello(Err(AppErr::ReadErr("r".to_string())))) {
        ConnectionAction::Stop(Err(AppErr::ReadErr(s))) => assert_eq!(s, "r"),
        other => panic!("{:?}", other),
    }
    assert_eq!(c.phase, ConnectionPhase::Closed);
}
