//! The lifecycle of one server instance: start, attach, stop, teardown.
//!
//! The manager decides; the host performs. Each operation that needs the
//! operating system hands back the step to perform, and the host reports the
//! outcome of that step before the manager decides on the next one.
use vstd::prelude::*;
use vstd::string::*;
use crate::platform::{Platform, session_name, session_name_spec};
use crate::listing::{list_sessions, listed_sessions, session_on_line, lemma_no_sessions_listed};
use crate::text::{contains, split_on};

verus! {

/// One operating-system step of a start.
#[derive(Clone, Copy, Debug, PartialEq, Eq, Structural)]
pub enum StartStep {
    /// Check that the terminal multiplexer is installed.
    CheckDependency,
    /// Make sure the configuration files exist.
    PrepareConfig,
    /// Check that the executable exists in the working directory.
    LocateExecutable,
    /// Mark the executable as executable, create `logs`, seed missing files.
    PrepareRuntime,
    /// Spawn the process: a new named session with the executable typed
    /// into it, or a detached process without a window.
    Launch,
}

/// The operating-system step of a stop.
#[derive(Clone, Copy, Debug, PartialEq, Eq, Structural)]
pub enum StopStep {
    /// Type `stop` into the session, a graceful shutdown.
    SendStop,
    /// Kill the held process: the server does not save on the way down.
    Kill,
}

#[derive(Debug, PartialEq, Eq)]
pub enum StartError {
    AlreadyRunning,
    MissingDependency,
    ConfigError(String),
    ExecutableNotFound,
    ExecutionError(String),
}

#[derive(Debug, PartialEq, Eq)]
pub enum StopError {
    NotRunning,
    StopCommandFailed(String),
}

#[derive(Debug, PartialEq, Eq)]
pub enum QueryError {
    QueryFailed(String),
}

/// The abstract state of a [`Server`].
pub struct ServerView {
    pub platform: Platform,
    pub work_dir: Seq<char>,
    pub running: bool,
    /// A handle on a process spawned by this manager is held.
    pub holds_process: bool,
    /// The identifier of the session this manager controls.
    pub session: Option<Seq<char>>,
}

impl ServerView {
    /// Running exactly when a process handle or a session identifier is held;
    /// only the handle-based platform holds handles.
    pub open spec fn wf(self) -> bool {
        &&& self.running == (self.holds_process || self.session is Some)
        &&& self.holds_process ==> self.platform == Platform::Handle
    }
}

pub open spec fn new_view(work_dir: Seq<char>, platform: Platform) -> ServerView {
    ServerView { platform, work_dir, running: false, holds_process: false, session: None }
}

pub open spec fn start_spec(v: ServerView) -> Result<StartStep, StartError> {
    if v.running {
        Err(StartError::AlreadyRunning)
    } else {
        match v.platform {
            Platform::Session => Ok(StartStep::CheckDependency),
            Platform::Handle => Ok(StartStep::PrepareConfig),
        }
    }
}

/// The step after `s`, or `None` when `s` is the last.
pub open spec fn next_start_step(p: Platform, s: StartStep) -> Option<StartStep> {
    match s {
        StartStep::CheckDependency => Some(StartStep::PrepareConfig),
        StartStep::PrepareConfig => Some(StartStep::LocateExecutable),
        StartStep::LocateExecutable => match p {
            Platform::Session => Some(StartStep::PrepareRuntime),
            Platform::Handle => Some(StartStep::Launch),
        },
        StartStep::PrepareRuntime => Some(StartStep::Launch),
        StartStep::Launch => None,
    }
}

/// The error with which a start ends when step `s` fails with message `m`.
pub open spec fn start_step_error(s: StartStep, m: String) -> StartError {
    match s {
        StartStep::CheckDependency => StartError::MissingDependency,
        StartStep::PrepareConfig => StartError::ConfigError(m),
        StartStep::LocateExecutable => StartError::ExecutableNotFound,
        StartStep::PrepareRuntime => StartError::ExecutionError(m),
        StartStep::Launch => StartError::ExecutionError(m),
    }
}

/// The state after a successful launch.
pub open spec fn launched(v: ServerView) -> ServerView {
    match v.platform {
        Platform::Session => ServerView {
            platform: v.platform,
            work_dir: v.work_dir,
            running: true,
            holds_process: v.holds_process,
            session: Some(session_name_spec()),
        },
        Platform::Handle => ServerView {
            platform: v.platform,
            work_dir: v.work_dir,
            running: true,
            holds_process: true,
            session: v.session,
        },
    }
}

/// What a start does when `step` ends with `outcome`: the next state and the reply.
pub open spec fn advance_start_spec(v: ServerView, step: StartStep, outcome: Result<(), String>) -> (
    ServerView,
    Result<Option<StartStep>, StartError>,
) {
    match outcome {
        Ok(()) => match next_start_step(v.platform, step) {
            Some(n) => (v, Ok(Some(n))),
            None => (launched(v), Ok(None)),
        },
        Err(m) => (v, Err(start_step_error(step, m))),
    }
}

pub open spec fn stop_spec(v: ServerView) -> Result<StopStep, StopError> {
    if !v.running {
        Err(StopError::NotRunning)
    } else {
        match v.platform {
            Platform::Session => Ok(StopStep::SendStop),
            Platform::Handle => if v.holds_process {
                Ok(StopStep::Kill)
            } else {
                Err(StopError::NotRunning)
            },
        }
    }
}

pub open spec fn stopped(v: ServerView) -> ServerView {
    ServerView {
        platform: v.platform,
        work_dir: v.work_dir,
        running: false,
        holds_process: false,
        session: None,
    }
}

pub open spec fn finish_stop_spec(v: ServerView, outcome: Result<(), String>) -> (
    ServerView,
    Result<(), StopError>,
) {
    match outcome {
        Ok(()) => (stopped(v), Ok(())),
        Err(m) => (v, Err(StopError::StopCommandFailed(m))),
    }
}

pub open spec fn attached(v: ServerView, id: Seq<char>) -> ServerView {
    ServerView {
        platform: v.platform,
        work_dir: v.work_dir,
        running: true,
        holds_process: v.holds_process,
        session: Some(id),
    }
}

/// The stop attempted when the manager is discarded: if the server is
/// running, the ordinary stop, once, its result to be ignored.
pub open spec fn teardown_spec(v: ServerView) -> Option<Result<StopStep, StopError>> {
    if v.running {
        Some(stop_spec(v))
    } else {
        None
    }
}

/// The single owner of one server instance's run state.
pub struct Server {
    platform: Platform,
    work_dir: String,
    running: bool,
    holds_process: bool,
    session: Option<String>,
}

impl View for Server {
    type V = ServerView;

    closed spec fn view(&self) -> ServerView {
        ServerView {
            platform: self.platform,
            work_dir: self.work_dir@,
            running: self.running,
            holds_process: self.holds_process,
            session: match self.session {
                Some(s) => Some(s@),
                None => None,
            },
        }
    }
}

impl Server {
    /// A stopped manager for the server in `work_dir`.
    pub fn new(work_dir: String, platform: Platform) -> (r: Server)
        ensures
            r@ == new_view(work_dir@, platform),
            r@.wf(),
    {
        Server { platform, work_dir, running: false, holds_process: false, session: None }
    }

    /// The in-memory run flag; the operating system is not asked.
    pub fn is_running(&self) -> (r: bool)
        ensures
            r == self@.running,
    {
        self.running
    }

    pub fn platform(&self) -> (r: Platform)
        ensures
            r == self@.platform,
    {
        self.platform
    }

    pub fn get_work_dir(&self) -> (r: &str)
        ensures
            r@ == self@.work_dir,
    {
        self.work_dir.as_str()
    }

    /// Whether a process handle is held (handle-based platform).
    pub fn holds_process(&self) -> (r: bool)
        ensures
            r == self@.holds_process,
    {
        self.holds_process
    }

    /// Begins a start: the first step to perform, or `AlreadyRunning`.
    /// Nothing changes and nothing is asked of the operating system here.
    pub fn start(&self) -> (r: Result<StartStep, StartError>)
        ensures
            r == start_spec(self@),
    {
        if self.running {
            Err(StartError::AlreadyRunning)
        } else {
            match self.platform {
                Platform::Session => Ok(StartStep::CheckDependency),
                Platform::Handle => Ok(StartStep::PrepareConfig),
            }
        }
    }

    /// Takes the outcome of a start step: the next step, `None` once the
    /// server runs, or the error that ends the start with the state unchanged.
    pub fn advance_start(&mut self, step: StartStep, outcome: Result<(), String>) -> (r: Result<
        Option<StartStep>,
        StartError,
    >)
        requires
            !old(self)@.running,
            old(self)@.wf(),
        ensures
            (final(self)@, r) == advance_start_spec(old(self)@, step, outcome),
            final(self)@.wf(),
    {
        match outcome {
            Ok(()) => {
                let next = match step {
                    StartStep::CheckDependency => Some(StartStep::PrepareConfig),
                    StartStep::PrepareConfig => Some(StartStep::LocateExecutable),
                    StartStep::LocateExecutable => match self.platform {
                        Platform::Session => Some(StartStep::PrepareRuntime),
                        Platform::Handle => Some(StartStep::Launch),
                    },
                    StartStep::PrepareRuntime => Some(StartStep::Launch),
                    StartStep::Launch => None,
                };
                if next.is_none() {
                    self.running = true;
                    match self.platform {
                        Platform::Session => {
                            self.session = Some(String::from_str(session_name()));
                        },
                        Platform::Handle => {
                            self.holds_process = true;
                        },
                    }
                }
                Ok(next)
            },
            Err(m) => Err(
                match step {
                    StartStep::CheckDependency => StartError::MissingDependency,
                    StartStep::PrepareConfig => StartError::ConfigError(m),
                    StartStep::LocateExecutable => StartError::ExecutableNotFound,
                    StartStep::PrepareRuntime => StartError::ExecutionError(m),
                    StartStep::Launch => StartError::ExecutionError(m),
                },
            ),
        }
    }

    /// Begins a stop: the step to perform, or `NotRunning`.
    pub fn stop(&self) -> (r: Result<StopStep, StopError>)
        ensures
            r == stop_spec(self@),
    {
        if !self.running {
            Err(StopError::NotRunning)
        } else {
            match self.platform {
                Platform::Session => Ok(StopStep::SendStop),
                Platform::Handle => if self.holds_process {
                    Ok(StopStep::Kill)
                } else {
                    Err(StopError::NotRunning)
                },
            }
        }
    }

    /// Takes the outcome of the stop step.
    pub fn finish_stop(&mut self, outcome: Result<(), String>) -> (r: Result<(), StopError>)
        requires
            stop_spec(old(self)@) is Ok,
            old(self)@.wf(),
        ensures
            (final(self)@, r) == finish_stop_spec(old(self)@, outcome),
            final(self)@.wf(),
    {
        match outcome {
            Ok(()) => {
                self.running = false;
                self.holds_process = false;
                self.session = None;
                Ok(())
            },
            Err(m) => Err(StopError::StopCommandFailed(m)),
        }
    }

    /// Takes control of a session found on the host. Its liveness is not
    /// checked: the caller's listing is trusted.
    pub fn attach_to_existing(&mut self, server_name: &str) -> (r: Result<(), String>)
        requires
            old(self)@.wf(),
        ensures
            final(self)@ == attached(old(self)@, server_name@),
            r is Ok,
            final(self)@.wf(),
    {
        self.running = true;
        self.session = Some(String::from_str(server_name));
        Ok(())
    }

    /// The sessions found on the host, from `listing`, the output of the
    /// host's session or process query, or the error that query gave.
    /// Finding none is no error.
    pub fn check_existing_servers(&self, listing: Result<String, String>) -> (r: Result<
        Vec<String>,
        QueryError,
    >)
        ensures
            listing matches Err(m) ==> r == Err::<Vec<String>, QueryError>(
                QueryError::QueryFailed(m),
            ),
            listing matches Ok(t) ==> (r matches Ok(v) && v@.map_values(|s: String| s@)
                == listed_sessions(self@.platform, t@)),
    {
        match listing {
            Ok(t) => Ok(list_sessions(self.platform, t.as_str())),
            Err(m) => Err(QueryError::QueryFailed(m)),
        }
    }

    /// The stop to attempt, once, when the manager is discarded.
    pub fn teardown(&self) -> (r: Option<Result<StopStep, StopError>>)
        ensures
            r == teardown_spec(self@),
    {
        if self.running {
            Some(self.stop())
        } else {
            None
        }
    }
}

/// A start is accepted only from a stopped state and a stop only from a
/// running one. Out of turn, each is refused with its own error, and a
/// refused or failed step leaves the state as it was.
pub proof fn lemma_start_stop_in_turn(v: ServerView)
    requires
        v.wf(),
    ensures
        start_spec(v) is Ok <==> !v.running,
        v.running ==> start_spec(v) == Err::<StartStep, StartError>(StartError::AlreadyRunning),
        stop_spec(v) is Ok ==> v.running,
        !v.running ==> stop_spec(v) == Err::<StopStep, StopError>(StopError::NotRunning),
        forall|o: Result<(), String>|
            stop_spec(v) is Ok ==> {
                let (w, r) = #[trigger] finish_stop_spec(v, o);
                &&& (r is Ok <==> !w.running)
                &&& (r is Err ==> w == v)
                &&& w.wf()
            },
        forall|s: StartStep, o: Result<(), String>|
            !v.running ==> {
                let (w, r) = #[trigger] advance_start_spec(v, s, o);
                &&& (w.running ==> r == Ok::<Option<StartStep>, StartError>(None))
                &&& (r is Err ==> w == v)
                &&& w.wf()
            },
{
}

/// One call on the manager, with the outcome the host reported where the
/// call takes one.
pub enum Call {
    Start,
    AdvanceStart(StartStep, Result<(), String>),
    Stop,
    FinishStop(Result<(), String>),
    Attach(Seq<char>),
}

/// The state after call `c`, and whether `c` was accepted. A call made out of
/// turn (advancing a start while running, finishing a stop that was not
/// begun) is refused and changes nothing.
pub open spec fn apply_call(v: ServerView, c: Call) -> (ServerView, bool) {
    match c {
        Call::Start => (v, start_spec(v) is Ok),
        Call::AdvanceStart(s, o) => if v.running {
            (v, false)
        } else {
            let (w, r) = advance_start_spec(v, s, o);
            (w, r is Ok)
        },
        Call::Stop => (v, stop_spec(v) is Ok),
        Call::FinishStop(o) => if stop_spec(v) is Ok {
            let (w, r) = finish_stop_spec(v, o);
            (w, r is Ok)
        } else {
            (v, false)
        },
        Call::Attach(id) => (attached(v, id), true),
    }
}

/// The state after `calls`, made in order from `v`.
pub open spec fn run_calls(v: ServerView, calls: Seq<Call>) -> ServerView
    decreases calls.len(),
{
    if calls.len() == 0 {
        v
    } else {
        apply_call(run_calls(v, calls.drop_last()), calls.last()).0
    }
}

/// After any sequence of calls from a well-formed state, the state is still
/// well-formed, and the next call obeys the turn rules: a start is accepted
/// exactly when the server is stopped, a stop only when it is running, and
/// a refused or failed call leaves the state as it was.
pub proof fn lemma_calls_in_turn(v: ServerView, calls: Seq<Call>, c: Call)
    requires
        v.wf(),
    ensures
        run_calls(v, calls).wf(),
        ({
            let u = run_calls(v, calls);
            let (w, ok) = apply_call(u, c);
            &&& (c is Start ==> (ok <==> !u.running))
            &&& (c is Stop && ok ==> u.running)
            &&& (c is FinishStop && ok ==> !w.running)
            &&& (!ok ==> w == u)
            &&& w.wf()
        }),
    decreases calls.len(),
{
    if calls.len() > 0 {
        lemma_calls_in_turn(v, calls.drop_last(), calls.last());
    }
    lemma_start_stop_in_turn(run_calls(v, calls));
}

/// Attaching always leaves the manager running with the given session,
/// whatever its state before, and asks nothing of the operating system.
pub proof fn lemma_attach_always_runs(v: ServerView, id: Seq<char>)
    requires
        v.wf(),
    ensures
        attached(v, id).running,
        attached(v, id).session == Some(id),
        attached(v, id).wf(),
{
}

/// A listing that names no server session yields an empty sequence of
/// sessions; a listing is only refused when the query itself failed.
pub proof fn lemma_no_sessions_is_empty(p: Platform, listing: Seq<char>)
    requires
        p == Platform::Session ==> forall|k: int|
            0 <= k < split_on(listing, '\n').len() ==> session_on_line(
                #[trigger] split_on(listing, '\n')[k],
            ) is None,
        p == Platform::Handle ==> !contains(listing, "bedrock_server.exe"@),
    ensures
        listed_sessions(p, listing) == Seq::<Seq<char>>::empty(),
{
    if p == Platform::Session {
        lemma_no_sessions_listed(split_on(listing, '\n'));
    }
}

/// A manager that was made and brought to running, then discarded without a
/// stop, makes exactly one stop attempt: the one an explicit stop would make.
/// A stopped manager makes none.
pub proof fn lemma_teardown_stops_once(work_dir: Seq<char>, p: Platform, id: Seq<char>)
    ensures
        teardown_spec(new_view(work_dir, p)) is None,
        ({
            let v = launched(new_view(work_dir, p));
            &&& v.running
            &&& teardown_spec(v) == Some(stop_spec(v))
            &&& stop_spec(v) is Ok
        }),
        ({
            let v = attached(new_view(work_dir, p), id);
            &&& v.running
            &&& teardown_spec(v) == Some(stop_spec(v))
        }),
        forall|v: ServerView| #[trigger] teardown_spec(v) is Some <==> v.running,
{
}

} // verus!
