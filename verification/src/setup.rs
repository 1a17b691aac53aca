//! Session setup sequencing: connect, handshake, authenticate, and — when a
//! tunnel is wanted — open the forwarding channel, in that order and no
//! other.
//!
//! The transport steps themselves (reaching the endpoint, the protocol
//! handshake, offering credentials, requesting the channel) are I/O through
//! an SSH library, so the unverified shell performs each step that
//! [`SessionSetup`] asks for and reports whether it succeeded. The machine
//! decides what comes next and which typed error a failure surfaces; no
//! step is ever retried by the core. The law proved here: once
//! authentication is rejected, the machine accepts no further event, so a
//! forwarding channel is never requested after an authentication failure.

use vstd::prelude::*;

use crate::errors::CaptureError;

verus! {

/// Where session setup stands.
#[derive(Clone, Copy, Debug, PartialEq, Eq, Structural)]
pub enum SetupPhase {
    /// Reach the transport endpoint.
    Connect,
    /// Negotiate the protocol on the fresh connection.
    Handshake,
    /// Offer the credentials the caller selected (password or agent).
    Auth,
    /// Request a direct forwarding channel from the authenticated session.
    OpenChannel,
    /// Setup is complete; the session (and channel, if wanted) is usable.
    Ready,
    /// A step failed; `err` names it and setup is over.
    Aborted,
}

/// What the shell should do next, determined by the phase alone.
#[derive(Clone, Copy, Debug, PartialEq, Eq, Structural)]
pub enum SetupAction {
    /// Connect to the endpoint and set its read/write timeouts.
    DoConnect,
    /// Perform the protocol handshake.
    DoHandshake,
    /// Authenticate with the selected credentials.
    DoAuthenticate,
    /// Ask the session for a forwarding channel to the remote pair.
    DoOpenChannel,
    /// Setup succeeded: hand the session on.
    Proceed,
    /// Setup failed: surface the recorded error.
    Abort,
}

/// The outcome of one setup step, as the ghost model sees it.
#[derive(Clone, Copy, Debug, PartialEq, Eq, Structural)]
pub enum SetupEvent {
    /// The endpoint was reached.
    ConnectOk,
    /// The endpoint could not be reached.
    ConnectFail,
    /// Protocol negotiation succeeded.
    HandshakeOk,
    /// Protocol negotiation failed.
    HandshakeFail,
    /// The session reports itself authenticated.
    AuthOk,
    /// The credentials were rejected. Callers must not silently retry them.
    AuthRejected,
    /// The forwarding channel was opened.
    ChannelOk,
    /// The remote side refused the forwarding channel.
    ChannelRefused,
}

/// The machine's ghost state.
pub struct SetupModel {
    /// Whether a forwarding channel is to be opened after authentication.
    pub wants_tunnel: bool,
    /// Where setup stands.
    pub phase: SetupPhase,
    /// The typed failure that ended setup, if one did.
    pub err: Option<CaptureError>,
}

/// The action that each phase asks of the shell.
pub open spec fn setup_action_of(p: SetupPhase) -> SetupAction {
    match p {
        SetupPhase::Connect => SetupAction::DoConnect,
        SetupPhase::Handshake => SetupAction::DoHandshake,
        SetupPhase::Auth => SetupAction::DoAuthenticate,
        SetupPhase::OpenChannel => SetupAction::DoOpenChannel,
        SetupPhase::Ready => SetupAction::Proceed,
        SetupPhase::Aborted => SetupAction::Abort,
    }
}

/// Whether an event can be the outcome of the step the machine asked for.
/// Nothing is enabled once setup is ready or aborted.
pub open spec fn setup_enabled(m: SetupModel, ev: SetupEvent) -> bool {
    match ev {
        SetupEvent::ConnectOk | SetupEvent::ConnectFail => m.phase is Connect,
        SetupEvent::HandshakeOk | SetupEvent::HandshakeFail => m.phase is Handshake,
        SetupEvent::AuthOk | SetupEvent::AuthRejected => m.phase is Auth,
        SetupEvent::ChannelOk | SetupEvent::ChannelRefused => m.phase is OpenChannel,
    }
}

/// The transition relation. An event that is not enabled changes nothing.
pub open spec fn setup_step(m: SetupModel, ev: SetupEvent) -> SetupModel {
    if !setup_enabled(m, ev) {
        m
    } else {
        match ev {
            SetupEvent::ConnectOk => SetupModel { phase: SetupPhase::Handshake, ..m },
            SetupEvent::ConnectFail => SetupModel {
                phase: SetupPhase::Aborted,
                err: Some(CaptureError::ConnectError),
                ..m
            },
            SetupEvent::HandshakeOk => SetupModel { phase: SetupPhase::Auth, ..m },
            SetupEvent::HandshakeFail => SetupModel {
                phase: SetupPhase::Aborted,
                err: Some(CaptureError::HandshakeError),
                ..m
            },
            SetupEvent::AuthOk => if m.wants_tunnel {
                SetupModel { phase: SetupPhase::OpenChannel, ..m }
            } else {
                SetupModel { phase: SetupPhase::Ready, ..m }
            },
            SetupEvent::AuthRejected => SetupModel {
                phase: SetupPhase::Aborted,
                err: Some(CaptureError::AuthError),
                ..m
            },
            SetupEvent::ChannelOk => SetupModel { phase: SetupPhase::Ready, ..m },
            SetupEvent::ChannelRefused => SetupModel {
                phase: SetupPhase::Aborted,
                err: Some(CaptureError::TunnelError),
                ..m
            },
        }
    }
}

/// The machine's state before any step.
pub open spec fn setup_init(wants_tunnel: bool) -> SetupModel {
    SetupModel { wants_tunnel, phase: SetupPhase::Connect, err: None }
}

/// The state after a whole sequence of step outcomes.
pub open spec fn setup_run(m: SetupModel, tr: Seq<SetupEvent>) -> SetupModel
    decreases tr.len(),
{
    if tr.len() == 0 {
        m
    } else {
        setup_run(setup_step(m, tr[0]), tr.drop_first())
    }
}

/// A trace is well-formed when every event answers the step the machine was
/// asking for at that point.
pub open spec fn setup_trace_ok(m: SetupModel, tr: Seq<SetupEvent>) -> bool
    decreases tr.len(),
{
    tr.len() == 0 || (setup_enabled(m, tr[0]) && setup_trace_ok(setup_step(m, tr[0]), tr.drop_first()))
}

/// The executable setup machine. The shell repeatedly asks
/// [`SessionSetup::next_action`], performs that step, and reports whether it
/// succeeded.
pub struct SessionSetup {
    /// Whether a forwarding channel is to be opened after authentication.
    pub wants_tunnel: bool,
    /// Where setup stands.
    pub phase: SetupPhase,
    /// The typed failure that ended setup, if one did.
    pub err: Option<CaptureError>,
}

impl SessionSetup {
    /// The ghost model this machine realizes.
    pub open spec fn model(&self) -> SetupModel {
        SetupModel { wants_tunnel: self.wants_tunnel, phase: self.phase, err: self.err }
    }

    /// A fresh setup; `wants_tunnel` selects whether a forwarding channel
    /// follows authentication.
    pub fn new(wants_tunnel: bool) -> (s: Self)
        ensures
            s.model() == setup_init(wants_tunnel),
    {
        SessionSetup { wants_tunnel, phase: SetupPhase::Connect, err: None }
    }

    /// What the shell should do next.
    pub fn next_action(&self) -> (a: SetupAction)
        ensures
            a == setup_action_of(self.model().phase),
    {
        match self.phase {
            SetupPhase::Connect => SetupAction::DoConnect,
            SetupPhase::Handshake => SetupAction::DoHandshake,
            SetupPhase::Auth => SetupAction::DoAuthenticate,
            SetupPhase::OpenChannel => SetupAction::DoOpenChannel,
            SetupPhase::Ready => SetupAction::Proceed,
            SetupPhase::Aborted => SetupAction::Abort,
        }
    }

    /// Reports the connect attempt. Failure aborts setup with
    /// [`CaptureError::ConnectError`].
    pub fn on_connect(&mut self, ok: bool) -> (a: SetupAction)
        requires
            old(self).model().phase is Connect,
        ensures
            final(self).model() == setup_step(
                old(self).model(),
                if ok {
                    SetupEvent::ConnectOk
                } else {
                    SetupEvent::ConnectFail
                },
            ),
            a == setup_action_of(final(self).model().phase),
    {
        if ok {
            self.phase = SetupPhase::Handshake;
        } else {
            self.phase = SetupPhase::Aborted;
            self.err = Some(CaptureError::ConnectError);
        }
        self.next_action()
    }

    /// Reports the handshake. Failure aborts setup with
    /// [`CaptureError::HandshakeError`].
    pub fn on_handshake(&mut self, ok: bool) -> (a: SetupAction)
        requires
            old(self).model().phase is Handshake,
        ensures
            final(self).model() == setup_step(
                old(self).model(),
                if ok {
                    SetupEvent::HandshakeOk
                } else {
                    SetupEvent::HandshakeFail
                },
            ),
            a == setup_action_of(final(self).model().phase),
    {
        if ok {
            self.phase = SetupPhase::Auth;
        } else {
            self.phase = SetupPhase::Aborted;
            self.err = Some(CaptureError::HandshakeError);
        }
        self.next_action()
    }

    /// Reports authentication. Success moves on — to the channel request
    /// when a tunnel is wanted, else straight to ready. Rejection aborts
    /// setup with [`CaptureError::AuthError`]; the machine then accepts no
    /// further step, so the same credentials cannot be silently retried and
    /// no channel is ever requested.
    pub fn on_auth(&mut self, ok: bool) -> (a: SetupAction)
        requires
            old(self).model().phase is Auth,
        ensures
            final(self).model() == setup_step(
                old(self).model(),
                if ok {
                    SetupEvent::AuthOk
                } else {
                    SetupEvent::AuthRejected
                },
            ),
            a == setup_action_of(final(self).model().phase),
    {
        if ok {
            if self.wants_tunnel {
                self.phase = SetupPhase::OpenChannel;
            } else {
                self.phase = SetupPhase::Ready;
            }
        } else {
            self.phase = SetupPhase::Aborted;
            self.err = Some(CaptureError::AuthError);
        }
        self.next_action()
    }

    /// Reports the channel request. Refusal aborts setup with
    /// [`CaptureError::TunnelError`].
    pub fn on_channel(&mut self, ok: bool) -> (a: SetupAction)
        requires
            old(self).model().phase is OpenChannel,
        ensures
            final(self).model() == setup_step(
                old(self).model(),
                if ok {
                    SetupEvent::ChannelOk
                } else {
                    SetupEvent::ChannelRefused
                },
            ),
            a == setup_action_of(final(self).model().phase),
    {
        if ok {
            self.phase = SetupPhase::Ready;
        } else {
            self.phase = SetupPhase::Aborted;
            self.err = Some(CaptureError::TunnelError);
        }
        self.next_action()
    }

    /// Whether setup succeeded.
    pub fn is_ready(&self) -> (b: bool)
        ensures
            b == (self.model().phase is Ready),
    {
        match self.phase {
            SetupPhase::Ready => true,
            _ => false,
        }
    }

    /// The typed failure that ended setup, if one did.
    pub fn failure(&self) -> (e: Option<CaptureError>)
        ensures
            e == self.model().err,
    {
        self.err
    }
}

/// Law: an aborted setup is final — a well-formed trace admits no further
/// event.
pub proof fn lemma_aborted_is_final(m: SetupModel, tr: Seq<SetupEvent>)
    requires
        setup_trace_ok(m, tr),
        m.phase is Aborted,
    ensures
        tr.len() == 0,
        setup_run(m, tr) == m,
{
    if tr.len() > 0 {
        assert(setup_enabled(m, tr[0]));
        assert(false);
    }
}

/// Law: a rejected authentication ends setup at once with
/// [`CaptureError::AuthError`], and a well-formed trace admits no further
/// event — in particular the machine never stands in the channel-request
/// phase afterwards, so a forwarding channel is never attempted after an
/// authentication failure.
pub proof fn lemma_auth_rejected_never_opens_channel(m: SetupModel, tr: Seq<SetupEvent>)
    requires
        setup_trace_ok(m, tr),
        m.phase is Auth,
        tr.len() > 0,
        tr[0] == SetupEvent::AuthRejected,
    ensures
        tr.len() == 1,
        setup_run(m, tr).phase is Aborted,
        setup_run(m, tr).err == Some(CaptureError::AuthError),
{
    let m1 = setup_step(m, tr[0]);
    assert(m1.phase is Aborted);
    assert(setup_trace_ok(m1, tr.drop_first()));
    lemma_aborted_is_final(m1, tr.drop_first());
}

} // verus!
