use port_capture::capture::{Action, Capture, Flavor, ReadOutcome};
use port_capture::errors::CaptureError;

#[test]
fn tunnel_logs_chunks_and_tears_down_in_order() {
    let mut cap = Capture::new(Flavor::Tunnel, 500);
    assert_eq!(cap.next_action(), Action::CheckClock);
    assert_eq!(cap.on_tick(0), Action::ReadSource);
    assert_eq!(
        cap.on_read(ReadOutcome::Data(b"relayed".to_vec())),
        Action::CheckClock
    );
    assert_eq!(cap.on_tick(100), Action::ReadSource);
    assert_eq!(cap.on_read(ReadOutcome::Data(b"bytes".to_vec())), Action::CheckClock);
    // Lifetime spent: the teardown steps come in their fixed order.
    assert_eq!(cap.on_tick(500), Action::DoSendEof);
    assert_eq!(cap.on_teardown(true), Action::DoClose);
    assert_eq!(cap.on_teardown(true), Action::DoWaitClose);
    assert_eq!(cap.on_teardown(true), Action::Stop);
    let (log, err) = cap.finish();
    assert_eq!(log, vec![b"relayed".to_vec(), b"bytes".to_vec()]);
    assert_eq!(err, None);
}

#[test]
fn tunnel_zero_byte_read_is_an_idle_tick() {
    let mut cap = Capture::new(Flavor::Tunnel, 400);
    cap.on_tick(0);
    // No data this tick: no log entry, and the loop goes on polling.
    assert_eq!(cap.on_read(ReadOutcome::Data(Vec::new())), Action::CheckClock);
    assert!(!cap.done());
    assert_eq!(cap.on_tick(200), Action::ReadSource);
    assert_eq!(cap.on_read(ReadOutcome::Data(b"late".to_vec())), Action::CheckClock);
    cap.on_tick(400);
    cap.on_teardown(true);
    cap.on_teardown(true);
    cap.on_teardown(true);
    let (log, err) = cap.finish();
    assert_eq!(log, vec![b"late".to_vec()]);
    assert_eq!(err, None);
}

#[test]
fn tunnel_with_no_data_returns_empty_log() {
    let mut cap = Capture::new(Flavor::Tunnel, 200);
    cap.on_tick(0);
    cap.on_read(ReadOutcome::Data(Vec::new()));
    cap.on_tick(100);
    cap.on_read(ReadOutcome::Data(Vec::new()));
    assert_eq!(cap.on_tick(200), Action::DoSendEof);
    cap.on_teardown(true);
    cap.on_teardown(true);
    cap.on_teardown(true);
    let (log, err) = cap.finish();
    assert!(log.is_empty());
    assert_eq!(err, None);
}

#[test]
fn zero_lifetime_tunnel_goes_straight_to_teardown() {
    let mut cap = Capture::new(Flavor::Tunnel, 0);
    assert_eq!(cap.on_tick(0), Action::DoSendEof);
    cap.on_teardown(true);
    cap.on_teardown(true);
    assert_eq!(cap.on_teardown(true), Action::Stop);
    let (log, err) = cap.finish();
    assert!(log.is_empty());
    assert_eq!(err, None);
}

#[test]
fn tunnel_read_error_keeps_log_and_still_tears_down() {
    let mut cap = Capture::new(Flavor::Tunnel, 1000);
    cap.on_tick(0);
    cap.on_read(ReadOutcome::Data(b"before".to_vec()));
    cap.on_tick(10);
    // A hard transport error ends capture but the teardown still runs.
    assert_eq!(cap.on_read(ReadOutcome::Failed), Action::DoSendEof);
    assert_eq!(cap.on_teardown(true), Action::DoClose);
    assert_eq!(cap.on_teardown(true), Action::DoWaitClose);
    assert_eq!(cap.on_teardown(true), Action::Stop);
    let (log, err) = cap.finish();
    assert_eq!(log, vec![b"before".to_vec()]);
    assert_eq!(err, Some(CaptureError::TransportReadError));
}

#[test]
fn teardown_failure_is_reported_and_log_kept() {
    let mut cap = Capture::new(Flavor::Tunnel, 100);
    cap.on_tick(0);
    cap.on_read(ReadOutcome::Data(b"data".to_vec()));
    cap.on_tick(100);
    assert_eq!(cap.on_teardown(false), Action::Stop);
    let (log, err) = cap.finish();
    assert_eq!(log, vec![b"data".to_vec()]);
    assert_eq!(err, Some(CaptureError::TransportWriteError));
}

#[test]
fn earlier_read_error_outranks_teardown_failure() {
    let mut cap = Capture::new(Flavor::Tunnel, 100);
    cap.on_tick(0);
    cap.on_read(ReadOutcome::Failed);
    cap.on_teardown(false);
    let (log, err) = cap.finish();
    assert!(log.is_empty());
    assert_eq!(err, Some(CaptureError::TransportReadError));
}
