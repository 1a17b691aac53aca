use port_capture::capture::{AcceptOutcome, Action, Capture, Flavor, ReadOutcome};
use port_capture::errors::CaptureError;

#[test]
fn listener_logs_one_connection_in_order() {
    // A two-second window: one client connects, sends "hello", closes.
    let mut cap = Capture::new(Flavor::Listener, 2000);
    assert_eq!(cap.next_action(), Action::CheckClock);
    assert_eq!(cap.on_tick(0), Action::TryAccept);
    assert_eq!(cap.on_accept(AcceptOutcome::Conn), Action::ReadSource);
    assert_eq!(
        cap.on_read(ReadOutcome::Data(b"hello".to_vec())),
        Action::ReadSource
    );
    // Zero-byte read: the client closed; service of the connection ends.
    assert_eq!(cap.on_read(ReadOutcome::Data(Vec::new())), Action::CheckClock);
    // The next poll at the deadline ends the capture.
    assert_eq!(cap.on_tick(2000), Action::Stop);
    let (log, err) = cap.finish();
    assert_eq!(log, vec![b"hello".to_vec()]);
    assert_eq!(err, None);
}

#[test]
fn listener_keeps_arrival_order_across_connections() {
    let mut cap = Capture::new(Flavor::Listener, 1000);
    cap.on_tick(0);
    cap.on_accept(AcceptOutcome::Conn);
    cap.on_read(ReadOutcome::Data(b"first".to_vec()));
    cap.on_read(ReadOutcome::Data(b"second".to_vec()));
    cap.on_read(ReadOutcome::Data(Vec::new()));
    cap.on_tick(10);
    cap.on_accept(AcceptOutcome::NoConn);
    cap.on_tick(20);
    cap.on_accept(AcceptOutcome::Conn);
    cap.on_read(ReadOutcome::Data(b"third".to_vec()));
    cap.on_read(ReadOutcome::Data(Vec::new()));
    cap.on_tick(1000);
    let (log, err) = cap.finish();
    assert_eq!(
        log,
        vec![b"first".to_vec(), b"second".to_vec(), b"third".to_vec()]
    );
    assert_eq!(err, None);
}

#[test]
fn listener_with_no_data_returns_empty_log() {
    let mut cap = Capture::new(Flavor::Listener, 300);
    assert_eq!(cap.on_tick(0), Action::TryAccept);
    assert_eq!(cap.on_accept(AcceptOutcome::NoConn), Action::CheckClock);
    assert_eq!(cap.on_tick(100), Action::TryAccept);
    assert_eq!(cap.on_accept(AcceptOutcome::NoConn), Action::CheckClock);
    assert_eq!(cap.on_tick(300), Action::Stop);
    let (log, err) = cap.finish();
    assert!(log.is_empty());
    assert_eq!(err, None);
}

#[test]
fn zero_lifetime_listener_stops_at_first_poll() {
    let mut cap = Capture::new(Flavor::Listener, 0);
    assert_eq!(cap.on_tick(0), Action::Stop);
    assert!(cap.done());
    let (log, err) = cap.finish();
    assert!(log.is_empty());
    assert_eq!(err, None);
}

#[test]
fn zero_byte_read_ends_connection_without_error_or_entry() {
    let mut cap = Capture::new(Flavor::Listener, 1000);
    cap.on_tick(0);
    cap.on_accept(AcceptOutcome::Conn);
    // The fresh connection closes without sending anything.
    assert_eq!(cap.on_read(ReadOutcome::Data(Vec::new())), Action::CheckClock);
    assert!(!cap.done());
    cap.on_tick(1000);
    let (log, err) = cap.finish();
    assert!(log.is_empty());
    assert_eq!(err, None);
}

#[test]
fn hard_accept_error_stops_listener_and_keeps_log() {
    let mut cap = Capture::new(Flavor::Listener, 1000);
    cap.on_tick(0);
    cap.on_accept(AcceptOutcome::Conn);
    cap.on_read(ReadOutcome::Data(b"kept".to_vec()));
    cap.on_read(ReadOutcome::Data(Vec::new()));
    cap.on_tick(10);
    assert_eq!(cap.on_accept(AcceptOutcome::Failed), Action::Stop);
    let (log, err) = cap.finish();
    assert_eq!(log, vec![b"kept".to_vec()]);
    assert_eq!(err, Some(CaptureError::TransportReadError));
}

#[test]
fn hard_read_error_stops_listener_and_keeps_log() {
    let mut cap = Capture::new(Flavor::Listener, 1000);
    cap.on_tick(0);
    cap.on_accept(AcceptOutcome::Conn);
    cap.on_read(ReadOutcome::Data(b"partial".to_vec()));
    assert_eq!(cap.on_read(ReadOutcome::Failed), Action::Stop);
    let (log, err) = cap.finish();
    assert_eq!(log, vec![b"partial".to_vec()]);
    assert_eq!(err, Some(CaptureError::TransportReadError));
}
