//! The supervisor of the backend process: a state machine that decides, from what has
//! happened so far, what the caller holding its lock must do next to obtain a ready
//! connection, and what must be released when the backend is stopped.
//!
//! The caller runs the outside work (spawning, reading the rendezvous file, connecting,
//! the handshake) and reports each result back. Holding the supervisor behind one
//! exclusive lock for a whole start sequence is what makes concurrent cold starts
//! spawn the process once.
//!
//! A failed start attempt, a timeout included, hands back the process it had spawned so
//! that the caller kills it: no attempt leaves an orphaned backend behind. A stop drops
//! the connection, so the next request always runs a full start sequence.
use vstd::prelude::*;
use vstd::string::StringExecFns;
use crate::error::Error;
use crate::gateway::CallOutcome;
use crate::port::{endpoint_text, parse_port, port_of};
use crate::transport::{endpoint_accepts, endpoint_for, invalid_endpoint};
use tonic::transport::Endpoint;

verus! {

/// How long a freshly spawned backend has to announce its port, in milliseconds.
pub const STARTUP_TIMEOUT_MS: u64 = 10000;

/// Pause between two reads of the rendezvous file, in milliseconds.
pub const POLL_INTERVAL_MS: u64 = 100;

/// Bound on the readiness handshake, in milliseconds.
pub const HANDSHAKE_TIMEOUT_MS: u64 = 5000;

/// Where the supervised backend stands.
#[derive(Debug, Clone, PartialEq, Eq)]
pub enum BackendState {
    Stopped,
    Starting,
    Running,
    /// The last start attempt failed for this reason; the next request starts afresh.
    Failed(String),
}

/// How far a start attempt has come; meaningful while `Starting`.
#[derive(Debug, Clone, Copy, PartialEq, Eq)]
pub enum StartStep {
    /// The process is to be spawned.
    Launching,
    /// The process runs; its port is awaited in the rendezvous file.
    AwaitingPort,
    /// The port is known; the connection is being made.
    Connecting,
    /// Connected; the handshake is in flight.
    Handshaking,
}

/// What a caller asking for a connection must do.
pub enum Begin<P> {
    /// The backend runs: use the connection that the supervisor holds.
    Ready,
    /// A start attempt begins: kill the process handed back, if any (left by an
    /// abandoned attempt), then spawn a new one and report it with `launched`.
    Launch(Option<P>),
}

/// What to do after a read of the rendezvous file.
pub enum PortStep<P> {
    /// The port was read: connect to this endpoint and report with `connected`.
    Connect(Endpoint),
    /// Nothing usable yet: wait this many milliseconds and read again.
    Wait(u64),
    /// The attempt failed.
    Fail(Failure<P>),
}

/// A failed start attempt: the error for the caller that triggered it, and the process
/// that the attempt had spawned, which the caller kills.
pub struct Failure<P> {
    pub error: Error,
    pub process: Option<P>,
}

/// The state as contracts see it.
pub enum StateView {
    Stopped,
    Starting,
    Running,
    Failed(Seq<char>),
}

impl BackendState {
    pub open spec fn view(self) -> StateView {
        match self {
            BackendState::Stopped => StateView::Stopped,
            BackendState::Starting => StateView::Starting,
            BackendState::Running => StateView::Running,
            BackendState::Failed(r) => StateView::Failed(r@),
        }
    }
}

/// The supervisor as its contracts see it: the handles it holds are reduced to whether
/// it holds them, and each start attempt counts the spawns and handshakes it orders.
pub struct SupervisorView {
    pub state: StateView,
    pub step: StartStep,
    pub has_process: bool,
    pub has_connection: bool,
    pub port: Option<u16>,
    /// Processes spawned by the current start attempt.
    pub spawns: nat,
    /// Handshakes issued by the current start attempt.
    pub handshakes: nat,
}

impl SupervisorView {
    /// Nothing runs and nothing is held.
    pub open spec fn stopped() -> SupervisorView {
        SupervisorView {
            state: StateView::Stopped,
            step: StartStep::Launching,
            has_process: false,
            has_connection: false,
            port: None,
            spawns: 0,
            handshakes: 0,
        }
    }

    /// A start attempt that failed for `reason`, with nothing kept.
    pub open spec fn failed(reason: Seq<char>) -> SupervisorView {
        SupervisorView {
            state: StateView::Failed(reason),
            step: StartStep::Launching,
            has_process: false,
            has_connection: false,
            port: None,
            spawns: 0,
            handshakes: 0,
        }
    }

    /// A start attempt that has just ordered its one spawn.
    pub open spec fn launching() -> SupervisorView {
        SupervisorView {
            state: StateView::Starting,
            step: StartStep::Launching,
            has_process: false,
            has_connection: false,
            port: None,
            spawns: 1,
            handshakes: 0,
        }
    }

    /// The states the supervisor can be in.
    pub open spec fn inv(self) -> bool {
        match self.state {
            StateView::Stopped => self == SupervisorView::stopped(),
            StateView::Failed(_) => {
                &&& self.step == StartStep::Launching
                &&& !self.has_process
                &&& !self.has_connection
                &&& self.port is None
                &&& self.spawns == 0
                &&& self.handshakes == 0
            },
            StateView::Running => {
                &&& self.has_process
                &&& self.has_connection
                &&& self.port is Some
                &&& self.spawns == 1
                &&& self.handshakes == 1
            },
            StateView::Starting => {
                &&& self.spawns == 1
                &&& match self.step {
                    StartStep::Launching => !self.has_process && !self.has_connection
                        && self.port is None && self.handshakes == 0,
                    StartStep::AwaitingPort => self.has_process && !self.has_connection
                        && self.port is None && self.handshakes == 0,
                    StartStep::Connecting => self.has_process && !self.has_connection
                        && self.port is Some && self.handshakes == 0,
                    StartStep::Handshaking => self.has_process && self.has_connection
                        && self.port is Some && self.handshakes == 1,
                }
            },
        }
    }

    /// The process was spawned.
    pub open spec fn launched(self) -> SupervisorView {
        SupervisorView { step: StartStep::AwaitingPort, has_process: true, ..self }
    }

    /// The process announced `port`, and its endpoint was accepted.
    pub open spec fn port_found(self, port: u16) -> SupervisorView {
        SupervisorView { step: StartStep::Connecting, port: Some(port), ..self }
    }

    /// A read of the rendezvous file after `elapsed_ms` milliseconds found `port`.
    pub open spec fn after_poll(self, elapsed_ms: u64, port: Option<u16>) -> SupervisorView {
        if elapsed_ms > STARTUP_TIMEOUT_MS {
            SupervisorView::failed(port_timeout_text())
        } else {
            match port {
                None => self,
                Some(p) => if endpoint_accepts(endpoint_text(p)) {
                    self.port_found(p)
                } else {
                    SupervisorView::failed(invalid_endpoint())
                },
            }
        }
    }

    /// The connection was made, and the one handshake of the attempt goes out.
    pub open spec fn connected(self) -> SupervisorView {
        SupervisorView {
            step: StartStep::Handshaking,
            has_connection: true,
            handshakes: self.handshakes + 1,
            ..self
        }
    }

    /// The handshake succeeded.
    pub open spec fn ready(self) -> SupervisorView {
        SupervisorView { state: StateView::Running, ..self }
    }

    /// A caller asks for a ready connection: a running backend is used as it is;
    /// any other state begins a fresh attempt.
    pub open spec fn request(self) -> SupervisorView {
        if self.state is Running {
            self
        } else {
            SupervisorView::launching()
        }
    }
}

/// Owns the backend process handle `P` and the connection `C` to it.
pub struct Supervisor<P, C> {
    state: BackendState,
    step: StartStep,
    process: Option<P>,
    connection: Option<C>,
    port: Option<u16>,
    spawns: Ghost<nat>,
    handshakes: Ghost<nat>,
}

impl<P, C> View for Supervisor<P, C> {
    type V = SupervisorView;

    closed spec fn view(&self) -> SupervisorView {
        SupervisorView {
            state: self.state.view(),
            step: self.step,
            has_process: self.process is Some,
            has_connection: self.connection is Some,
            port: self.port,
            spawns: self.spawns@,
            handshakes: self.handshakes@,
        }
    }
}

impl<P, C> Supervisor<P, C> {
    /// The connection held, if any.
    pub closed spec fn held_connection(&self) -> Option<C> {
        self.connection
    }

    /// A supervisor with no backend: `Stopped`.
    pub fn new() -> (r: Self)
        ensures
            r@ == SupervisorView::stopped(),
            r@.inv(),
    {
        Supervisor {
            state: BackendState::Stopped,
            step: StartStep::Launching,
            process: None,
            connection: None,
            port: None,
            spawns: Ghost(0),
            handshakes: Ghost(0),
        }
    }
}

/// `n` callers asking for a connection one after another, as the lock serializes them.
pub open spec fn requests(v: SupervisorView, n: nat) -> SupervisorView
    decreases n,
{
    if n == 0 {
        v
    } else {
        requests(v.request(), (n - 1) as nat)
    }
}

/// A start attempt that goes through: the process is spawned, announces `port`, is
/// connected to, and answers the handshake.
pub open spec fn successful_start(v: SupervisorView, port: u16) -> SupervisorView {
    v.request().launched().port_found(port).connected().ready()
}

/// Reads, at the given elapsed times, of a rendezvous file that is never written; the
/// caller stops reading once the attempt has ended.
pub open spec fn unwritten_polls(v: SupervisorView, times: Seq<u64>) -> SupervisorView
    decreases times.len(),
{
    if times.len() > 0 && v.state is Starting && v.step == StartStep::AwaitingPort {
        unwritten_polls(v.after_poll(times[0], None), times.drop_first())
    } else {
        v
    }
}

/// Callers that ask while the backend runs leave the supervisor as it is: nothing is
/// spawned, no handshake is issued, and the same connection is used.
pub proof fn lemma_running_requests(v: SupervisorView, n: nat)
    requires
        v.inv(),
        v.state is Running,
    ensures
        requests(v, n) == v,
    decreases n,
{
    if n > 0 {
        lemma_running_requests(v, (n - 1) as nat);
    }
}

/// Callers that ask for a connection before the backend runs are served by one start
/// attempt: it spawns exactly one process and issues exactly one handshake, and every
/// caller served after it finds the backend running and starts nothing.
pub proof fn lemma_cold_start_spawns_once(v: SupervisorView, port: u16, later: nat)
    requires
        v.inv(),
        !(v.state is Running),
    ensures
        successful_start(v, port).inv(),
        successful_start(v, port).state is Running,
        successful_start(v, port).spawns == 1,
        successful_start(v, port).handshakes == 1,
        requests(successful_start(v, port), later) == successful_start(v, port),
{
    lemma_running_requests(successful_start(v, port), later);
}

/// After a stop the supervisor is `Stopped` and holds no connection, and the next caller
/// begins a full start attempt from its first step instead of reusing anything.
pub proof fn lemma_restart_after_stop(v: SupervisorView)
    requires
        v.inv(),
    ensures
        SupervisorView::stopped().inv(),
        SupervisorView::stopped().state is Stopped,
        !SupervisorView::stopped().has_connection,
        SupervisorView::stopped().request() == SupervisorView::launching(),
        SupervisorView::launching().step == StartStep::Launching,
        SupervisorView::launching().spawns == 1,
        SupervisorView::launching().handshakes == 0,
        !SupervisorView::launching().has_process,
        !SupervisorView::launching().has_connection,
        SupervisorView::launching().port is None,
{
}

/// While the rendezvous file stays unwritten no connection is made and the backend never
/// runs; once a read comes after the startup bound the attempt has failed with the
/// timeout, and before that it is still awaiting the port.
pub proof fn lemma_unwritten_rendezvous_times_out(v: SupervisorView, times: Seq<u64>)
    requires
        v.inv(),
        v.state is Starting,
        v.step == StartStep::AwaitingPort,
    ensures
        unwritten_polls(v, times).inv(),
        !unwritten_polls(v, times).has_connection,
        !(unwritten_polls(v, times).state is Running),
        (exists|i: int| 0 <= i < times.len() && times[i] > STARTUP_TIMEOUT_MS) ==> unwritten_polls(
            v,
            times,
        ) == SupervisorView::failed(port_timeout_text()),
        (forall|i: int| 0 <= i < times.len() ==> times[i] <= STARTUP_TIMEOUT_MS) ==> unwritten_polls(
            v,
            times,
        ) == v,
    decreases times.len(),
{
    if times.len() > 0 {
        let w = v.after_poll(times[0], None);
        if times[0] > STARTUP_TIMEOUT_MS {
            assert(w == SupervisorView::failed(port_timeout_text()));
            assert(unwritten_polls(w, times.drop_first()) == w);
        } else {
            assert(w == v);
            lemma_unwritten_rendezvous_times_out(v, times.drop_first());
            assert forall|i: int| 0 <= i < times.len() && times[i] > STARTUP_TIMEOUT_MS implies exists|
                j: int,
            | 0 <= j < times.drop_first().len() && times.drop_first()[j] > STARTUP_TIMEOUT_MS by {
                assert(i > 0);
                assert(times.drop_first()[i - 1] == times[i]);
            }
            if forall|i: int| 0 <= i < times.len() ==> times[i] <= STARTUP_TIMEOUT_MS {
                assert forall|j: int| 0 <= j < times.drop_first().len() implies times.drop_first()[j]
                    <= STARTUP_TIMEOUT_MS by {
                    assert(times.drop_first()[j] == times[j + 1]);
                }
            }
        }
    }
}

/// The port that the rendezvous file announces, if it has been read and holds one.
pub open spec fn announced(content: Option<&str>) -> Option<u16> {
    match content {
        Some(c) => port_of(c@),
        None => None,
    }
}

/// The reason given when no port appears within the startup bound.
pub open spec fn port_timeout_text() -> Seq<char> {
    "timed out waiting for the backend to announce its port"@
}

/// The reason given when the handshake is not answered within its bound.
pub open spec fn handshake_timeout_text() -> Seq<char> {
    "handshake timed out"@
}

/// The reason recorded for a failure.
pub open spec fn reason_of(e: Error) -> Seq<char> {
    match e {
        Error::StartupFailure(m) => m@,
        Error::Timeout(m) => m@,
        Error::RemoteError(m) => m@,
        Error::ConnectionLost(m) => m@,
        Error::TaskJoinFailure(m) => m@,
    }
}

/// The error that ends a start attempt whose handshake had this outcome, if any.
pub open spec fn handshake_failure<T>(outcome: CallOutcome<T>) -> Option<Error> {
    match outcome {
        CallOutcome::Replied(_) => None,
        CallOutcome::Rejected(m) => Some(Error::StartupFailure(m)),
        CallOutcome::Lost(m) => Some(Error::StartupFailure(m)),
        CallOutcome::JoinFailed(m) => Some(Error::StartupFailure(m)),
        CallOutcome::TimedOut => None,
    }
}

impl<P, C> Supervisor<P, C> {
    /// Ends the current start attempt with `error`, giving up what it holds.
    fn fail(&mut self, error: Error) -> (f: Failure<P>)
        ensures
            final(self)@ == SupervisorView::failed(reason_of(error)),
            f.error == error,
            f.process == old(self).process,
    {
        let reason = error.message().clone();
        let process = self.process.take();
        self.state = BackendState::Failed(reason);
        self.step = StartStep::Launching;
        self.connection = None;
        self.port = None;
        self.spawns = Ghost(0);
        self.handshakes = Ghost(0);
        Failure { error, process }
    }

    /// A caller under the lock asks for a ready connection. A running backend is used
    /// as it is, with nothing spawned and nothing changed; in any other state a fresh
    /// start attempt begins, which orders exactly one spawn.
    pub fn request(&mut self) -> (r: Begin<P>)
        requires
            old(self)@.inv(),
        ensures
            final(self)@ == old(self)@.request(),
            final(self)@.inv(),
            old(self)@.state is Running ==> *final(self) == *old(self) && r is Ready,
            !(old(self)@.state is Running) ==> (r matches Begin::Launch(stale) && (stale is Some
                <==> old(self)@.has_process)),
    {
        if let BackendState::Running = self.state {
            return Begin::Ready;
        }
        let stale = self.process.take();
        self.state = BackendState::Starting;
        self.step = StartStep::Launching;
        self.connection = None;
        self.port = None;
        self.spawns = Ghost(1);
        self.handshakes = Ghost(0);
        Begin::Launch(stale)
    }

    /// The process was spawned; its port is read next.
    pub fn launched(&mut self, process: P)
        requires
            old(self)@.inv(),
            old(self)@.state is Starting,
            old(self)@.step == StartStep::Launching,
        ensures
            final(self)@ == old(self)@.launched(),
            final(self)@.inv(),
            final(self).held_connection() == old(self).held_connection(),
    {
        self.process = Some(process);
        self.step = StartStep::AwaitingPort;
    }

    /// The process could not be spawned.
    pub fn launch_failed(&mut self, reason: String) -> (f: Failure<P>)
        requires
            old(self)@.inv(),
            old(self)@.state is Starting,
            old(self)@.step == StartStep::Launching,
        ensures
            final(self)@ == SupervisorView::failed(reason@),
            final(self)@.inv(),
            f.error == Error::StartupFailure(reason),
            f.process is None,
    {
        self.fail(Error::StartupFailure(reason))
    }

    /// The rendezvous file was read after `elapsed_ms` milliseconds of waiting, with
    /// `content` if it could be read. Past the startup bound the attempt fails with a
    /// timeout; a port read from the text leads to its endpoint; otherwise the caller
    /// waits one poll interval and reads again.
    pub fn port_polled(&mut self, elapsed_ms: u64, content: Option<&str>) -> (r: PortStep<P>)
        requires
            old(self)@.inv(),
            old(self)@.state is Starting,
            old(self)@.step == StartStep::AwaitingPort,
        ensures
            final(self)@ == old(self)@.after_poll(elapsed_ms, announced(content)),
            final(self)@.inv(),
            elapsed_ms > STARTUP_TIMEOUT_MS ==> {
                &&& r matches PortStep::Fail(f)
                &&& f.error matches Error::Timeout(m) && m@ == port_timeout_text()
                &&& f.process is Some
            },
            elapsed_ms <= STARTUP_TIMEOUT_MS && announced(content) is None ==> {
                &&& *final(self) == *old(self)
                &&& r matches PortStep::Wait(ms) && ms == POLL_INTERVAL_MS
            },
            elapsed_ms <= STARTUP_TIMEOUT_MS && announced(content) is Some ==> {
                let p = announced(content).unwrap();
                if endpoint_accepts(endpoint_text(p)) {
                    r is Connect
                } else {
                    r matches PortStep::Fail(f) && f.error matches Error::StartupFailure(m) && m@
                        == invalid_endpoint() && f.process is Some
                }
            },
    {
        proof {
            reveal_strlit("timed out waiting for the backend to announce its port");
        }
        if elapsed_ms > STARTUP_TIMEOUT_MS {
            let f = self.fail(
                Error::Timeout(
                    String::from_str("timed out waiting for the backend to announce its port"),
                ),
            );
            return PortStep::Fail(f);
        }
        let port = match content {
            Some(c) => parse_port(c),
            None => None,
        };
        match port {
            Some(p) => self.port_announced(p, endpoint_for(p)),
            None => PortStep::Wait(POLL_INTERVAL_MS),
        }
    }

    /// The backend announced `port`, whose endpoint came out as `endpoint`: connect to
    /// it, or end the attempt with the endpoint's error.
    pub fn port_announced(&mut self, port: u16, endpoint: Result<Endpoint, Error>) -> (r: PortStep<
        P,
    >)
        requires
            old(self)@.inv(),
            old(self)@.state is Starting,
            old(self)@.step == StartStep::AwaitingPort,
        ensures
            final(self)@.inv(),
            match endpoint {
                Ok(e) => final(self)@ == old(self)@.port_found(port) && r == PortStep::<
                    P,
                >::Connect(e),
                Err(err) => {
                    &&& final(self)@ == SupervisorView::failed(reason_of(err))
                    &&& r matches PortStep::Fail(f) && f.error == err && f.process is Some
                },
            },
    {
        match endpoint {
            Ok(e) => {
                self.port = Some(port);
                self.step = StartStep::Connecting;
                PortStep::Connect(e)
            },
            Err(err) => PortStep::Fail(self.fail(err)),
        }
    }

    /// The connection was made; the handshake is issued next, bounded by
    /// `HANDSHAKE_TIMEOUT_MS`.
    pub fn connected(&mut self, connection: C)
        requires
            old(self)@.inv(),
            old(self)@.state is Starting,
            old(self)@.step == StartStep::Connecting,
        ensures
            final(self)@ == old(self)@.connected(),
            final(self)@.inv(),
            final(self).held_connection() == Some(connection),
    {
        self.connection = Some(connection);
        self.step = StartStep::Handshaking;
        self.handshakes = Ghost(self.handshakes@ + 1);
    }

    /// No connection could be made.
    pub fn connect_failed(&mut self, reason: String) -> (f: Failure<P>)
        requires
            old(self)@.inv(),
            old(self)@.state is Starting,
            old(self)@.step == StartStep::Connecting,
        ensures
            final(self)@ == SupervisorView::failed(reason@),
            final(self)@.inv(),
            f.error == Error::StartupFailure(reason),
            f.process is Some,
    {
        self.fail(Error::StartupFailure(reason))
    }

    /// The handshake ended with `outcome`. A reply makes the backend `Running` with the
    /// connection just made; a refusal, a lost transport or a failed task is a startup
    /// failure, and no answer within the bound a timeout.
    pub fn handshake_finished<T>(&mut self, outcome: CallOutcome<T>) -> (r: Result<(), Failure<P>>)
        requires
            old(self)@.inv(),
            old(self)@.state is Starting,
            old(self)@.step == StartStep::Handshaking,
        ensures
            final(self)@.inv(),
            outcome is Replied ==> {
                &&& r is Ok
                &&& final(self)@ == old(self)@.ready()
                &&& final(self).held_connection() == old(self).held_connection()
            },
            outcome is TimedOut ==> {
                &&& final(self)@ == SupervisorView::failed(handshake_timeout_text())
                &&& r matches Err(f) && f.error matches Error::Timeout(m) && m@
                    == handshake_timeout_text() && f.process is Some
            },
            handshake_failure(outcome) matches Some(e) ==> {
                &&& final(self)@ == SupervisorView::failed(reason_of(e))
                &&& r matches Err(f) && f.error == e && f.process is Some
            },
    {
        proof {
            reveal_strlit("handshake timed out");
        }
        match outcome {
            CallOutcome::Replied(_) => {
                self.state = BackendState::Running;
                Ok(())
            },
            CallOutcome::TimedOut => Err(
                self.fail(Error::Timeout(String::from_str("handshake timed out"))),
            ),
            CallOutcome::Rejected(m) => Err(self.fail(Error::StartupFailure(m))),
            CallOutcome::Lost(m) => Err(self.fail(Error::StartupFailure(m))),
            CallOutcome::JoinFailed(m) => Err(self.fail(Error::StartupFailure(m))),
        }
    }

    /// Stops the backend: the connection is dropped and the process handed back for the
    /// caller to kill. Stopping a stopped supervisor changes nothing.
    pub fn stop(&mut self) -> (r: Option<P>)
        requires
            old(self)@.inv(),
        ensures
            final(self)@ == SupervisorView::stopped(),
            final(self)@.inv(),
            r is Some <==> old(self)@.has_process,
    {
        let process = self.process.take();
        self.state = BackendState::Stopped;
        self.step = StartStep::Launching;
        self.connection = None;
        self.port = None;
        self.spawns = Ghost(0);
        self.handshakes = Ghost(0);
        process
    }

    pub fn state(&self) -> (r: &BackendState)
        ensures
            r.view() == self@.state,
    {
        &self.state
    }

    pub fn is_running(&self) -> (r: bool)
        ensures
            r == (self@.state is Running),
    {
        matches!(self.state, BackendState::Running)
    }

    pub fn start_step(&self) -> (r: StartStep)
        ensures
            r == self@.step,
    {
        self.step
    }

    pub fn port(&self) -> (r: Option<u16>)
        ensures
            r == self@.port,
    {
        self.port
    }

    /// The connection to the running backend, shared by every call made over it.
    pub fn connection(&self) -> (r: Option<&C>)
        ensures
            r is Some <==> self@.has_connection,
            self.held_connection() is Some <==> self@.has_connection,
            r is Some ==> *r.unwrap() == self.held_connection().unwrap(),
    {
        self.connection.as_ref()
    }
}

} // verus!
