//! The bounded-lifetime capture loop, as a verified state machine.
//!
//! Both capture flavors share one pattern: poll a monotonic clock against a
//! fixed lifetime, pull data from a transport, and append every non-empty
//! chunk to an ordered log. The transport work itself (accepting sockets,
//! reading bytes, sleeping between idle polls, tearing a channel down) is
//! I/O, so an unverified shell performs each action that [`Capture`] asks
//! for and reports the outcome back as an event. The machine holds all the
//! decisions: deadline enforcement, the two flavors' distinct treatment of a
//! zero-byte read, fatal-error handling that keeps the log gathered so far,
//! and the tunnel teardown order (send EOF, then close, then wait for the
//! close to be confirmed).
//!
//! The ghost counterpart [`CaptureModel`] with [`step`] and [`run`] states
//! what any sequence of events does to the machine, and the public lemmas
//! prove the laws of the loop: the log is exactly the non-empty chunks in
//! arrival order, a run without data leaves the log empty, and the first
//! clock poll at or past the deadline ends capture.

use vstd::prelude::*;

use crate::errors::CaptureError;

verus! {

/// Which transport the loop serves.
#[derive(Clone, Copy, Debug, PartialEq, Eq, Structural)]
pub enum Flavor {
    /// An ephemeral TCP listener: connections are accepted over the window
    /// and each is drained to EOF before the next poll. A zero-byte read
    /// ends service of the current connection. Draining is deliberately not
    /// interrupted by the deadline — one connection is serviced at a time —
    /// so the shell must bound each read with a transport timeout to keep a
    /// slow peer from stalling the loop far past its lifetime.
    Listener,
    /// A single long-lived SSH channel: a zero-byte read is a normal idle
    /// tick, and loop exit is followed by the three-step channel teardown.
    Tunnel,
}

/// Where the machine stands, and with it the action it asks of the shell.
#[derive(Clone, Copy, Debug, PartialEq, Eq, Structural)]
pub enum Phase {
    /// Compare elapsed time against the lifetime.
    Poll,
    /// Listener only: try a non-blocking accept.
    Accept,
    /// Read from the current source (accepted connection or channel).
    Read,
    /// Tunnel teardown, first step: signal end-of-stream to the remote side.
    SendEof,
    /// Tunnel teardown, second step: close the channel.
    Close,
    /// Tunnel teardown, last step: block until the close is confirmed.
    WaitClose,
    /// Capture is over; the log and the outcome are ready.
    Done,
}

/// What the shell should do next, determined by the phase alone.
#[derive(Clone, Copy, Debug, PartialEq, Eq, Structural)]
pub enum Action {
    /// Read the monotonic clock and report the elapsed milliseconds.
    CheckClock,
    /// Attempt a non-blocking accept; sleep briefly on would-block before
    /// reporting it, to avoid busy-spinning.
    TryAccept,
    /// Read a bounded buffer from the current source.
    ReadSource,
    /// Send end-of-stream on the channel.
    DoSendEof,
    /// Close the channel.
    DoClose,
    /// Wait until the remote side confirms the close.
    DoWaitClose,
    /// Stop driving the machine and collect the result.
    Stop,
}

/// Outcome of one non-blocking accept attempt.
#[derive(Clone, Copy, Debug, PartialEq, Eq, Structural)]
pub enum AcceptOutcome {
    /// A connection is ready to be read.
    Conn,
    /// Would-block: no connection pending. Not an error.
    NoConn,
    /// A hard accept error: fatal to the loop.
    Failed,
}

/// Outcome of one read attempt on the current source.
#[derive(Debug)]
pub enum ReadOutcome {
    /// The bytes that the read returned; empty means a zero-byte read.
    Data(Vec<u8>),
    /// A hard read error: fatal to the loop.
    Failed,
}

/// The machine's ghost state: everything its contracts speak of.
pub struct CaptureModel {
    /// Which transport the loop serves.
    pub flavor: Flavor,
    /// The capture window, in milliseconds from loop start.
    pub lifetime_ms: u64,
    /// Where the machine stands.
    pub phase: Phase,
    /// The ordered log of non-empty chunks received so far.
    pub log: Seq<Seq<u8>>,
    /// The first fatal error met, if any; the log is kept regardless.
    pub err: Option<CaptureError>,
}

/// One observed outcome of an action, as the ghost model sees it.
pub enum CaptureEvent {
    /// The clock was read; `elapsed_ms` milliseconds have passed since start.
    Tick { elapsed_ms: u64 },
    /// An accept attempt returned a connection.
    Conn,
    /// An accept attempt would block.
    NoConn,
    /// An accept attempt failed hard.
    AcceptFail,
    /// A read returned these bytes; empty means a zero-byte read.
    Chunk { data: Seq<u8> },
    /// A read failed hard.
    ReadFail,
    /// The current teardown step succeeded.
    TeardownOk,
    /// The current teardown step failed.
    TeardownFail,
}

/// The action that each phase asks of the shell.
pub open spec fn action_of(p: Phase) -> Action {
    match p {
        Phase::Poll => Action::CheckClock,
        Phase::Accept => Action::TryAccept,
        Phase::Read => Action::ReadSource,
        Phase::SendEof => Action::DoSendEof,
        Phase::Close => Action::DoClose,
        Phase::WaitClose => Action::DoWaitClose,
        Phase::Done => Action::Stop,
    }
}

/// Whether an event can be the outcome of the action the machine asked for.
/// No event is enabled once the machine is done.
pub open spec fn enabled(m: CaptureModel, ev: CaptureEvent) -> bool {
    match ev {
        CaptureEvent::Tick { .. } => m.phase is Poll,
        CaptureEvent::Conn => m.phase is Accept,
        CaptureEvent::NoConn => m.phase is Accept,
        CaptureEvent::AcceptFail => m.phase is Accept,
        CaptureEvent::Chunk { .. } => m.phase is Read,
        CaptureEvent::ReadFail => m.phase is Read,
        CaptureEvent::TeardownOk => m.phase is SendEof || m.phase is Close || m.phase is WaitClose,
        CaptureEvent::TeardownFail => m.phase is SendEof || m.phase is Close
            || m.phase is WaitClose,
    }
}

/// The transition relation: what one event does to the machine.
/// An event that is not enabled changes nothing.
pub open spec fn step(m: CaptureModel, ev: CaptureEvent) -> CaptureModel {
    if !enabled(m, ev) {
        m
    } else {
        match ev {
            CaptureEvent::Tick { elapsed_ms } => if elapsed_ms >= m.lifetime_ms {
                match m.flavor {
                    Flavor::Listener => CaptureModel { phase: Phase::Done, ..m },
                    Flavor::Tunnel => CaptureModel { phase: Phase::SendEof, ..m },
                }
            } else {
                match m.flavor {
                    Flavor::Listener => CaptureModel { phase: Phase::Accept, ..m },
                    Flavor::Tunnel => CaptureModel { phase: Phase::Read, ..m },
                }
            },
            CaptureEvent::Conn => CaptureModel { phase: Phase::Read, ..m },
            CaptureEvent::NoConn => CaptureModel { phase: Phase::Poll, ..m },
            CaptureEvent::AcceptFail => CaptureModel {
                phase: Phase::Done,
                err: Some(CaptureError::TransportReadError),
                ..m
            },
            CaptureEvent::Chunk { data } => if data.len() > 0 {
                match m.flavor {
                    Flavor::Listener => CaptureModel {
                        phase: Phase::Read,
                        log: m.log.push(data),
                        ..m
                    },
                    Flavor::Tunnel => CaptureModel {
                        phase: Phase::Poll,
                        log: m.log.push(data),
                        ..m
                    },
                }
            } else {
                CaptureModel { phase: Phase::Poll, ..m }
            },
            CaptureEvent::ReadFail => match m.flavor {
                Flavor::Listener => CaptureModel {
                    phase: Phase::Done,
                    err: Some(CaptureError::TransportReadError),
                    ..m
                },
                Flavor::Tunnel => CaptureModel {
                    phase: Phase::SendEof,
                    err: Some(CaptureError::TransportReadError),
                    ..m
                },
            },
            CaptureEvent::TeardownOk => match m.phase {
                Phase::SendEof => CaptureModel { phase: Phase::Close, ..m },
                Phase::Close => CaptureModel { phase: Phase::WaitClose, ..m },
                _ => CaptureModel { phase: Phase::Done, ..m },
            },
            CaptureEvent::TeardownFail => CaptureModel {
                phase: Phase::Done,
                err: if m.err is Some {
                    m.err
                } else {
                    Some(CaptureError::TransportWriteError)
                },
                ..m
            },
        }
    }
}

/// The machine's state before any event.
pub open spec fn init(flavor: Flavor, lifetime_ms: u64) -> CaptureModel {
    CaptureModel {
        flavor,
        lifetime_ms,
        phase: Phase::Poll,
        log: Seq::empty(),
        err: None,
    }
}

/// The state after a whole sequence of events.
pub open spec fn run(m: CaptureModel, tr: Seq<CaptureEvent>) -> CaptureModel
    decreases tr.len(),
{
    if tr.len() == 0 {
        m
    } else {
        run(step(m, tr[0]), tr.drop_first())
    }
}

/// A trace is well-formed when every event answers the action the machine
/// was asking for at that point.
pub open spec fn trace_ok(m: CaptureModel, tr: Seq<CaptureEvent>) -> bool
    decreases tr.len(),
{
    tr.len() == 0 || (enabled(m, tr[0]) && trace_ok(step(m, tr[0]), tr.drop_first()))
}

/// The non-empty chunks a trace carries, in arrival order.
pub open spec fn data_chunks(tr: Seq<CaptureEvent>) -> Seq<Seq<u8>>
    decreases tr.len(),
{
    if tr.len() == 0 {
        Seq::empty()
    } else {
        let rest = data_chunks(tr.drop_first());
        match tr[0] {
            CaptureEvent::Chunk { data } => if data.len() > 0 {
                seq![data] + rest
            } else {
                rest
            },
            _ => rest,
        }
    }
}

/// The executable capture machine. The shell repeatedly asks
/// [`Capture::next_action`], performs that action, and reports its outcome;
/// every method's contract ties the new state to [`step`] on the ghost model.
pub struct Capture {
    /// Which transport the loop serves.
    pub flavor: Flavor,
    /// The capture window, in milliseconds from loop start.
    pub lifetime_ms: u64,
    /// Where the machine stands.
    pub phase: Phase,
    /// The ordered log of non-empty chunks received so far.
    pub log: Vec<Vec<u8>>,
    /// The first fatal error met, if any.
    pub err: Option<CaptureError>,
}

impl Capture {
    /// The ghost model this machine realizes.
    pub open spec fn model(&self) -> CaptureModel {
        CaptureModel {
            flavor: self.flavor,
            lifetime_ms: self.lifetime_ms,
            phase: self.phase,
            log: self.log.deep_view(),
            err: self.err,
        }
    }

    /// A fresh machine for one capture session of `lifetime_ms` milliseconds.
    pub fn new(flavor: Flavor, lifetime_ms: u64) -> (s: Self)
        ensures
            s.model() == init(flavor, lifetime_ms),
    {
        let s = Capture {
            flavor,
            lifetime_ms,
            phase: Phase::Poll,
            log: Vec::new(),
            err: None,
        };
        proof {
            assert(s.log.deep_view() =~= Seq::<Seq<u8>>::empty());
        }
        s
    }

    /// What the shell should do next.
    pub fn next_action(&self) -> (a: Action)
        ensures
            a == action_of(self.model().phase),
    {
        match self.phase {
            Phase::Poll => Action::CheckClock,
            Phase::Accept => Action::TryAccept,
            Phase::Read => Action::ReadSource,
            Phase::SendEof => Action::DoSendEof,
            Phase::Close => Action::DoClose,
            Phase::WaitClose => Action::DoWaitClose,
            Phase::Done => Action::Stop,
        }
    }

    /// Reports the clock: `elapsed_ms` milliseconds since loop start. At or
    /// past the lifetime the listener is done, while the tunnel moves to
    /// teardown; before it, capture goes on.
    pub fn on_tick(&mut self, elapsed_ms: u64) -> (a: Action)
        requires
            old(self).model().phase is Poll,
        ensures
            final(self).model() == step(old(self).model(), (CaptureEvent::Tick { elapsed_ms })),
            a == action_of(final(self).model().phase),
    {
        if elapsed_ms >= self.lifetime_ms {
            match self.flavor {
                Flavor::Listener => {
                    self.phase = Phase::Done;
                },
                Flavor::Tunnel => {
                    self.phase = Phase::SendEof;
                },
            }
        } else {
            match self.flavor {
                Flavor::Listener => {
                    self.phase = Phase::Accept;
                },
                Flavor::Tunnel => {
                    self.phase = Phase::Read;
                },
            }
        }
        self.next_action()
    }

    /// Reports an accept attempt. A connection moves the machine to reading;
    /// would-block goes back to the clock; a hard error ends the loop with
    /// [`CaptureError::TransportReadError`], keeping the log.
    pub fn on_accept(&mut self, outcome: AcceptOutcome) -> (a: Action)
        requires
            old(self).model().phase is Accept,
        ensures
            final(self).model() == step(old(self).model(), accept_event(outcome)),
            a == action_of(final(self).model().phase),
    {
        match outcome {
            AcceptOutcome::Conn => {
                self.phase = Phase::Read;
            },
            AcceptOutcome::NoConn => {
                self.phase = Phase::Poll;
            },
            AcceptOutcome::Failed => {
                self.phase = Phase::Done;
                self.err = Some(CaptureError::TransportReadError);
            },
        }
        self.next_action()
    }

    /// Reports a read. Non-empty bytes are appended to the log; the listener
    /// keeps draining the same connection while the tunnel returns to the
    /// clock. A zero-byte read appends nothing: it ends service of the
    /// listener's connection, and is a plain idle tick for the tunnel —
    /// neither is an error. A hard error ends the loop with
    /// [`CaptureError::TransportReadError`], keeping the log.
    pub fn on_read(&mut self, outcome: ReadOutcome) -> (a: Action)
        requires
            old(self).model().phase is Read,
        ensures
            final(self).model() == step(old(self).model(), read_event(outcome)),
            a == action_of(final(self).model().phase),
    {
        match outcome {
            ReadOutcome::Data(bytes) => {
                if bytes.len() > 0 {
                    proof {
                        lemma_bytes_deep_view(bytes);
                    }
                    let ghost pre_log = self.log;
                    let ghost chunk: Seq<u8> = bytes@;
                    self.log.push(bytes);
                    proof {
                        lemma_log_deep_view_push(pre_log, self.log, chunk);
                    }
                    match self.flavor {
                        Flavor::Listener => {
                            self.phase = Phase::Read;
                        },
                        Flavor::Tunnel => {
                            self.phase = Phase::Poll;
                        },
                    }
                } else {
                    self.phase = Phase::Poll;
                }
            },
            ReadOutcome::Failed => {
                self.err = Some(CaptureError::TransportReadError);
                match self.flavor {
                    Flavor::Listener => {
                        self.phase = Phase::Done;
                    },
                    Flavor::Tunnel => {
                        self.phase = Phase::SendEof;
                    },
                }
            },
        }
        self.next_action()
    }

    /// Reports one teardown step. Success moves to the next step of the
    /// fixed order (send EOF, close, wait for close); failure ends teardown
    /// with [`CaptureError::TransportWriteError`] unless an earlier error is
    /// already recorded. The log is kept either way.
    pub fn on_teardown(&mut self, ok: bool) -> (a: Action)
        requires
            old(self).model().phase is SendEof || old(self).model().phase is Close || old(
                self,
            ).model().phase is WaitClose,
        ensures
            final(self).model() == step(
                old(self).model(),
                if ok {
                    CaptureEvent::TeardownOk
                } else {
                    CaptureEvent::TeardownFail
                },
            ),
            a == action_of(final(self).model().phase),
    {
        if ok {
            match self.phase {
                Phase::SendEof => {
                    self.phase = Phase::Close;
                },
                Phase::Close => {
                    self.phase = Phase::WaitClose;
                },
                _ => {
                    self.phase = Phase::Done;
                },
            }
        } else {
            if self.err.is_none() {
                self.err = Some(CaptureError::TransportWriteError);
            }
            self.phase = Phase::Done;
        }
        self.next_action()
    }

    /// Whether capture is over and the result can be collected.
    pub fn done(&self) -> (b: bool)
        ensures
            b == (self.model().phase is Done),
    {
        match self.phase {
            Phase::Done => true,
            _ => false,
        }
    }

    /// Hands out the log — every non-empty chunk in arrival order — and the
    /// fatal error, if one ended the loop. The log is returned complete even
    /// when an error did.
    pub fn finish(self) -> (r: (Vec<Vec<u8>>, Option<CaptureError>))
        requires
            self.model().phase is Done,
        ensures
            r.0.deep_view() == self.model().log,
            r.1 == self.model().err,
    {
        (self.log, self.err)
    }
}

/// The ghost event that one accept outcome reports.
pub open spec fn accept_event(o: AcceptOutcome) -> CaptureEvent {
    match o {
        AcceptOutcome::Conn => CaptureEvent::Conn,
        AcceptOutcome::NoConn => CaptureEvent::NoConn,
        AcceptOutcome::Failed => CaptureEvent::AcceptFail,
    }
}

/// The ghost event that one read outcome reports.
pub open spec fn read_event(o: ReadOutcome) -> CaptureEvent {
    match o {
        ReadOutcome::Data(bytes) => CaptureEvent::Chunk { data: bytes@ },
        ReadOutcome::Failed => CaptureEvent::ReadFail,
    }
}

/// Law: over any well-formed trace, the log grows by exactly the non-empty
/// chunks the trace carries, in arrival order; the flavor and the lifetime
/// never change. For the listener this is the arrival-order guarantee: a run
/// whose connections deliver chunks B1..Bn leaves the log equal to
/// [B1, .., Bn].
pub proof fn lemma_run_log_is_chunks(m: CaptureModel, tr: Seq<CaptureEvent>)
    requires
        trace_ok(m, tr),
    ensures
        run(m, tr).log == m.log + data_chunks(tr),
        run(m, tr).flavor == m.flavor,
        run(m, tr).lifetime_ms == m.lifetime_ms,
    decreases tr.len(),
{
    if tr.len() == 0 {
        assert(m.log + data_chunks(tr) =~= m.log);
    } else {
        let m1 = step(m, tr[0]);
        lemma_run_log_is_chunks(m1, tr.drop_first());
        match tr[0] {
            CaptureEvent::Chunk { data } => {
                if data.len() > 0 {
                    assert(m1.log == m.log.push(data));
                    assert(m.log.push(data) + data_chunks(tr.drop_first()) =~= m.log + (seq![data]
                        + data_chunks(tr.drop_first())));
                } else {
                    assert(m1.log == m.log);
                }
            },
            _ => {
                assert(m1.log == m.log);
            },
        }
    }
}

/// Law: a well-formed trace that carries no data leaves the log as it was.
/// With an empty starting log — a capture session that never receives data,
/// whatever its lifetime — the log comes out empty.
pub proof fn lemma_no_data_empty_log(m: CaptureModel, tr: Seq<CaptureEvent>)
    requires
        trace_ok(m, tr),
        forall|i: int|
            0 <= i < tr.len() ==> !(#[trigger] tr[i] matches CaptureEvent::Chunk { data }
                && data.len() > 0),
    ensures
        run(m, tr).log == m.log,
    decreases tr.len(),
{
    if tr.len() > 0 {
        let m1 = step(m, tr[0]);
        assert(forall|i: int|
            0 <= i < tr.drop_first().len() ==> #[trigger] tr.drop_first()[i] == tr[i + 1]);
        lemma_no_data_empty_log(m1, tr.drop_first());
        assert(m1.log == m.log);
    }
}

/// Law: once the listener's clock poll sees the lifetime spent, the machine
/// is done at once — a well-formed trace admits no further event, and the
/// log is exactly what had been captured. Expiry is detected at the first
/// poll at or past the deadline, so termination lags the deadline by at most
/// one poll interval of the driving shell.
pub proof fn lemma_listener_expiry_ends_run(m: CaptureModel, tr: Seq<CaptureEvent>)
    requires
        trace_ok(m, tr),
        m.flavor is Listener,
        m.phase is Poll,
        tr.len() > 0,
        tr[0] matches CaptureEvent::Tick { elapsed_ms } && elapsed_ms >= m.lifetime_ms,
    ensures
        tr.len() == 1,
        run(m, tr).phase is Done,
        run(m, tr).log == m.log,
        run(m, tr).err == m.err,
{
    let m1 = step(m, tr[0]);
    assert(m1.phase is Done);
    if tr.len() > 1 {
        assert(trace_ok(m1, tr.drop_first()));
        assert(tr.drop_first().len() > 0);
        assert(enabled(m1, tr.drop_first()[0]));
        assert(false);
    }
    assert(run(m1, tr.drop_first()) == m1);
}

/// Law: from any teardown phase on — and so from the moment a tunnel's
/// clock poll sees the lifetime spent — a well-formed trace can only walk
/// the teardown steps: the log never grows again and the machine ends in a
/// teardown phase or done.
pub proof fn lemma_teardown_keeps_log(m: CaptureModel, tr: Seq<CaptureEvent>)
    requires
        trace_ok(m, tr),
        m.phase is SendEof || m.phase is Close || m.phase is WaitClose || m.phase is Done,
    ensures
        run(m, tr).log == m.log,
        run(m, tr).phase is SendEof || run(m, tr).phase is Close || run(m, tr).phase is WaitClose
            || run(m, tr).phase is Done,
    decreases tr.len(),
{
    if tr.len() > 0 {
        let m1 = step(m, tr[0]);
        lemma_teardown_keeps_log(m1, tr.drop_first());
    }
}

/// Law: a tunnel's clock poll at or past the deadline moves the machine to
/// teardown, and nothing a well-formed trace does afterwards adds to the
/// log.
pub proof fn lemma_tunnel_expiry_stops_capture(m: CaptureModel, tr: Seq<CaptureEvent>)
    requires
        trace_ok(m, tr),
        m.flavor is Tunnel,
        m.phase is Poll,
        tr.len() > 0,
        tr[0] matches CaptureEvent::Tick { elapsed_ms } && elapsed_ms >= m.lifetime_ms,
    ensures
        run(m, tr).log == m.log,
        run(m, tr).phase is SendEof || run(m, tr).phase is Close || run(m, tr).phase is WaitClose
            || run(m, tr).phase is Done,
{
    let m1 = step(m, tr[0]);
    assert(m1.phase is SendEof);
    lemma_teardown_keeps_log(m1, tr.drop_first());
}

/// Law: a zero-byte read never logs an entry and never sets an error. It
/// sends either flavor back to the clock poll: the listener's current
/// connection is over, and the tunnel idles on — while lifetime remains,
/// the next clock poll resumes reading rather than stopping.
pub proof fn lemma_zero_read_continues(m: CaptureModel, data: Seq<u8>)
    requires
        m.phase is Read,
        data.len() == 0,
    ensures
        step(m, (CaptureEvent::Chunk { data })).log == m.log,
        step(m, (CaptureEvent::Chunk { data })).err == m.err,
        step(m, (CaptureEvent::Chunk { data })).phase is Poll,
{
}

/// A byte vector's deep view is its view.
proof fn lemma_bytes_deep_view(v: Vec<u8>)
    ensures
        v.deep_view() == v@,
{
    assert(v.deep_view() =~= v@);
}

/// Pushing onto the log pushes the chunk's view onto the deep view.
proof fn lemma_log_deep_view_push(pre: Vec<Vec<u8>>, post: Vec<Vec<u8>>, chunk: Seq<u8>)
    requires
        post@.len() == pre@.len() + 1,
        forall|i: int| 0 <= i < pre@.len() ==> post@[i] == pre@[i],
        post@[pre@.len() as int].deep_view() == chunk,
    ensures
        post.deep_view() == pre.deep_view().push(chunk),
{
    assert(post.deep_view() =~= pre.deep_view().push(chunk));
}

} // verus!
