use port_capture::errors::CaptureError;
use port_capture::setup::{SessionSetup, SetupAction};

#[test]
fn tunnel_setup_runs_its_steps_in_order() {
    let mut setup = SessionSetup::new(true);
    assert_eq!(setup.next_action(), SetupAction::DoConnect);
    assert_eq!(setup.on_connect(true), SetupAction::DoHandshake);
    assert_eq!(setup.on_handshake(true), SetupAction::DoAuthenticate);
    assert_eq!(setup.on_auth(true), SetupAction::DoOpenChannel);
    assert_eq!(setup.on_channel(true), SetupAction::Proceed);
    assert!(setup.is_ready());
    assert_eq!(setup.failure(), None);
}

#[test]
fn plain_session_setup_skips_the_channel() {
    let mut setup = SessionSetup::new(false);
    setup.on_connect(true);
    setup.on_handshake(true);
    // No tunnel wanted: authentication success completes setup.
    assert_eq!(setup.on_auth(true), SetupAction::Proceed);
    assert!(setup.is_ready());
}

#[test]
fn unreachable_endpoint_aborts_with_connect_error() {
    let mut setup = SessionSetup::new(true);
    assert_eq!(setup.on_connect(false), SetupAction::Abort);
    assert!(!setup.is_ready());
    assert_eq!(setup.failure(), Some(CaptureError::ConnectError));
}

#[test]
fn failed_negotiation_aborts_with_handshake_error() {
    let mut setup = SessionSetup::new(true);
    setup.on_connect(true);
    assert_eq!(setup.on_handshake(false), SetupAction::Abort);
    assert_eq!(setup.failure(), Some(CaptureError::HandshakeError));
}

#[test]
fn rejected_credentials_abort_before_any_channel() {
    let mut setup = SessionSetup::new(true);
    setup.on_connect(true);
    setup.on_handshake(true);
    // Rejection aborts setup: the next action is never DoOpenChannel.
    assert_eq!(setup.on_auth(false), SetupAction::Abort);
    assert!(!setup.is_ready());
    assert_eq!(setup.failure(), Some(CaptureError::AuthError));
    assert_eq!(setup.next_action(), SetupAction::Abort);
}

#[test]
fn refused_forwarding_aborts_with_tunnel_error() {
    let mut setup = SessionSetup::new(true);
    setup.on_connect(true);
    setup.on_handshake(true);
    setup.on_auth(true);
    assert_eq!(setup.on_channel(false), SetupAction::Abort);
    assert_eq!(setup.failure(), Some(CaptureError::TunnelError));
}
