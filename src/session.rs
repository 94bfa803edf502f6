//! One supervised worker and the requests run against it.
//!
//! A `Session` is a state machine: the code around it performs each `Action`
//! it hands out (spawning the worker, reading a line, creating a region...)
//! and feeds back what came of it as an `Event`. The session decides
//! everything else: which transport carries the payload, what is sent, how
//! the answer is read, when the worker is presumed dead, and whether a failed
//! request is retried once with a fresh worker.
use vstd::prelude::*;
use crate::protocol::{
    announced_length, classify_response, clamp_result_length, clamp_spec,
    encode_execute, encode_shmem_metadata, error_message, error_token, execute_line, has_prefix,
    done_token, is_ready, is_ready_line, shmem_metadata, ResponseLine,
};
use crate::text::trim;
use crate::transport::{
    decode_frame, encode_frame, file_plan, frame, frameable, is_file_plan, is_shmem_plan,
    shmem_plan, unframe, Transport, OUTPUT_CAPACITY,
};

verus! {

/// How many times a request is retried with a fresh worker after the worker
/// failed it.
pub const RETRY_BUDGET: u8 = 1;

/// The fixed identity and settings of a session.
#[derive(Debug, PartialEq, Eq)]
pub struct SessionConfig {
    /// Where the worker runs and where transport files are placed.
    pub work_dir: String,
    /// A key unique to this session; it seeds shared-memory region names.
    pub session_key: String,
    /// Capacity of the output region, in bytes.
    pub output_capacity: usize,
    /// How long the worker may take to announce readiness, in milliseconds.
    pub handshake_timeout_ms: u64,
}

/// How long a new worker may take to announce readiness, by default.
pub const DEFAULT_HANDSHAKE_TIMEOUT_MS: u64 = 60000;

impl SessionConfig {
    /// The settings of a session in `work_dir` under `session_key`, with the
    /// default output capacity and handshake timeout.
    pub fn new(work_dir: String, session_key: String) -> (r: SessionConfig)
        ensures
            r.work_dir == work_dir,
            r.session_key == session_key,
            r.output_capacity == OUTPUT_CAPACITY,
            r.handshake_timeout_ms == DEFAULT_HANDSHAKE_TIMEOUT_MS,
    {
        SessionConfig {
            work_dir,
            session_key,
            output_capacity: OUTPUT_CAPACITY,
            handshake_timeout_ms: DEFAULT_HANDSHAKE_TIMEOUT_MS,
        }
    }
}

pub open spec fn embedded_interpreter(work_dir: Seq<char>) -> Seq<char> {
    work_dir + seq!['/', 'p', 'y', 't', 'h', 'o', 'n', '.', 'e', 'x', 'e']
}

pub open spec fn bare_interpreter() -> Seq<char> {
    seq!['p', 'y', 't', 'h', 'o', 'n']
}

pub open spec fn worker_script_path(work_dir: Seq<char>) -> Seq<char> {
    work_dir + seq!['/', 'a', 'i', '_', 'w', 'o', 'r', 'k', 'e', 'r', '.', 'p', 'y']
}

/// The interpreters to launch the worker with, in the order to try them: the
/// embedded one in the work directory, then `python` from the search path.
pub fn spawn_candidates(work_dir: &str) -> (r: Vec<String>)
    ensures
        r.len() == 2,
        r[0]@ == embedded_interpreter(work_dir@),
        r[1]@ == bare_interpreter(),
{
    proof {
        reveal_strlit("/python.exe");
        reveal_strlit("python");
    }
    let mut embedded = String::from_str(work_dir);
    embedded.append("/python.exe");
    assert(embedded@ =~= embedded_interpreter(work_dir@));
    let bare = String::from_str("python");
    assert(bare@ =~= bare_interpreter());
    let mut r: Vec<String> = Vec::new();
    r.push(embedded);
    r.push(bare);
    r
}

/// The worker program that the interpreter runs.
pub fn worker_script(work_dir: &str) -> (r: String)
    ensures
        r@ == worker_script_path(work_dir@),
{
    proof {
        reveal_strlit("/ai_worker.py");
    }
    let mut r = String::from_str(work_dir);
    r.append("/ai_worker.py");
    assert(r@ =~= worker_script_path(work_dir@));
    r
}

/// One task to execute.
#[derive(Debug, PartialEq, Eq)]
pub struct TaskRequest {
    pub task_type: String,
    /// Opaque correlation token; transport names derive from it.
    pub request_id: String,
    /// Free-form, task-specific text passed to the worker.
    pub metadata: String,
    pub payload: Vec<u8>,
}

/// What is known of the worker process.
#[derive(Debug, PartialEq, Eq)]
pub enum WorkerState {
    /// No worker is held.
    Absent,
    /// Spawned, readiness not yet announced.
    Starting,
    /// Ready for a command.
    Ready,
    /// A command is in flight.
    Busy,
}

/// Why a worker could not be started.
#[derive(Debug, PartialEq, Eq)]
pub enum SpawnError {
    /// The process could not be launched.
    Launch(String),
    /// Its output closed before it announced readiness.
    Exited,
    /// It did not announce readiness in time.
    Timeout,
    /// Reading its output failed.
    Io(String),
}

/// Why a command got no answer.
#[derive(Debug, PartialEq, Eq)]
pub enum ProtocolError {
    /// The worker's output closed before a terminal line.
    Closed,
    /// Writing the command or reading the answer failed.
    Io(String),
}

/// Why a request failed.
#[derive(Debug, PartialEq, Eq)]
pub enum ExecError {
    Spawn(SpawnError),
    Protocol(ProtocolError),
    /// The worker rejected the task with this message.
    Worker(String),
    /// Staging the payload or reading the result back failed.
    Transport(String),
    /// The payload is too long for a 4-byte length header.
    PayloadTooLarge,
    /// The output file does not hold a complete length-prefixed result.
    MalformedResult,
    /// Another request is in progress on this session.
    Busy,
    /// A command was to be sent with no ready worker held.
    NoWorker,
}

/// What came of the last action.
#[derive(Debug, PartialEq, Eq)]
pub enum Event {
    /// It was carried out.
    Completed,
    /// It failed, for this reason.
    Fault(String),
    /// The worker process is still running.
    Alive,
    /// The worker process has exited.
    Exited,
    /// A line was read from the worker's output. `elapsed_ms` is the time
    /// since the worker was spawned, taken just before the read.
    Line { text: String, elapsed_ms: u64 },
    /// A bounded wait for a line ended with none. `elapsed_ms` is the time
    /// since the worker was spawned, taken when the wait ended.
    NoLine { elapsed_ms: u64 },
    /// The worker's output reached its end.
    Closed,
    /// The result bytes that were read back.
    Bytes(Vec<u8>),
}

/// What the session asks to be done next.
#[derive(Debug, PartialEq, Eq)]
pub enum Action {
    /// Create both regions of this shared-memory transport and copy the
    /// request's payload into the input region. Answer `Completed` or `Fault`.
    CreateRegions(Transport),
    /// Write `frame` to `input_path` and remove any stale file at
    /// `output_path`. Answer `Completed` or `Fault`.
    StageFiles { input_path: String, output_path: String, frame: Vec<u8> },
    /// Poll, without blocking, whether the held worker has exited. Answer
    /// `Alive`, `Exited` or `Fault`.
    Probe,
    /// Kill any worker still held and start a fresh one in `work_dir`, with
    /// standard input and output captured. Answer `Completed` or `Fault`.
    Spawn { work_dir: String, session_key: String },
    /// Wait a bounded time for one line of the new worker's output. Answer
    /// `Line`, `NoLine`, `Closed` or `Fault`.
    ReadHandshakeLine,
    /// Write this line to the worker's input, flush, and read one line of its
    /// output. Answer `Line`, `Closed` or `Fault`.
    Send(String),
    /// Read one more line of the worker's output. Answer `Line`, `Closed` or
    /// `Fault`.
    ReadLine,
    /// Kill the worker and drop its handle. Answer `Completed`.
    Kill,
    /// Read the first `length` bytes of the output region. Answer `Bytes` or
    /// `Fault`.
    ReadRegion { length: usize },
    /// Read the whole file at this path. Answer `Bytes` or `Fault`.
    ReadFile(String),
    /// Destroy the regions, or delete both files, of this transport. Answer `Completed`.
    Release(Transport),
    /// The request is over, with this result.
    Finish(Result<Vec<u8>, ExecError>),
    /// The worker was started ahead of any request and is ready.
    WorkerReady,
    /// The event answered no pending action; nothing changed.
    Ignore,
}

/// What follows once the held transport is released.
#[derive(Debug, PartialEq, Eq)]
pub enum Outcome {
    /// Start the request over.
    Retry,
    /// Stage the payload in files instead.
    Fallback,
    /// End the request with this result.
    Return(Result<Vec<u8>, ExecError>),
}

/// Where a request stands.
#[derive(Debug, PartialEq, Eq)]
pub enum Phase {
    Idle,
    CreatingRegions,
    StagingFiles,
    Probing,
    Spawning,
    Handshaking,
    Awaiting,
    ReadingResult,
    /// The worker is being killed after this failure.
    Killing(ExecError),
    /// A worker started ahead of any request is being spawned.
    StartSpawning,
    /// A worker started ahead of any request is being awaited.
    StartHandshaking,
    /// A worker started ahead of any request is being killed after this failure.
    StartKilling(SpawnError),
    /// The transport is being released; this follows.
    Releasing(Outcome),
}

/// A session: its settings, its worker, and the request in progress.
pub struct Session {
    pub config: SessionConfig,
    pub worker: WorkerState,
    pub phase: Phase,
    /// The request in progress, or the last one.
    pub request: TaskRequest,
    /// The transport resources held for the request in progress.
    pub transport: Option<Transport>,
    /// Retries still allowed for the request in progress.
    pub retries_left: u8,
}

/// Failures after which the worker is presumed dead and a retry may help.
pub open spec fn retryable(e: ExecError) -> bool {
    e is Spawn || e is Protocol
}

/// The text of the command that runs the session's request over the held transport.
pub open spec fn command_text(s: Session) -> Seq<char> {
    let meta = match s.transport {
        Some(Transport::Shmem { input_name, input_size, output_name, output_capacity }) => shmem_metadata(
            input_name@,
            input_size as nat,
            output_name@,
            output_capacity as nat,
            s.request.metadata@,
        ),
        _ => s.request.metadata@,
    };
    execute_line(s.request.task_type@, s.request.request_id@, meta)
}

/// A new attempt: the shared-memory transport is planned and requested.
pub open spec fn begun(s: Session, t: Session, a: Action) -> bool {
    &&& t == Session { phase: Phase::CreatingRegions, transport: t.transport, ..s }
    &&& t.transport matches Some(tr)
    &&& is_shmem_plan(
        tr,
        s.config.session_key@,
        s.request.request_id@,
        s.request.payload@.len(),
        s.config.output_capacity,
    )
    &&& a == Action::CreateRegions(tr)
}

/// The payload is framed and staged in files, or the request ends when it
/// cannot be framed.
pub open spec fn staged(s: Session, t: Session, a: Action) -> bool {
    if frameable(s.request.payload@) {
        &&& t == Session { phase: Phase::StagingFiles, transport: t.transport, ..s }
        &&& t.transport matches Some(tr)
        &&& is_file_plan(tr, s.config.work_dir@, s.request.request_id@)
        &&& a matches Action::StageFiles { input_path, output_path, frame: f }
        &&& tr == (Transport::File { input_path, output_path })
        &&& f@ == frame(s.request.payload@)
    } else {
        &&& t == Session { phase: Phase::Idle, ..s }
        &&& a == Action::Finish(Err(ExecError::PayloadTooLarge))
    }
}

/// A fresh worker is requested.
pub open spec fn spawned(s: Session, t: Session, a: Action) -> bool {
    &&& t == Session { phase: Phase::Spawning, worker: WorkerState::Starting, ..s }
    &&& a == Action::Spawn { work_dir: s.config.work_dir, session_key: s.config.session_key }
}

/// The worker is checked if one is held, else spawned.
pub open spec fn dispatched(s: Session, t: Session, a: Action) -> bool {
    if s.worker is Ready {
        t == Session { phase: Phase::Probing, ..s } && a == Action::Probe
    } else {
        spawned(s, t, a)
    }
}

/// The command is sent; the worker is busy with it.
pub open spec fn sent(s: Session, t: Session, a: Action) -> bool {
    &&& t == Session { phase: Phase::Awaiting, worker: WorkerState::Busy, ..s }
    &&& a matches Action::Send(line)
    &&& line@ == command_text(s)
}

/// The command is sent when a ready worker is held; otherwise nothing changes
/// and the request ends for want of a worker.
pub open spec fn send_spec(s: Session, t: Session, a: Action) -> bool {
    if s.worker is Ready {
        sent(s, t, a)
    } else {
        t == s && a == Action::Finish(Err(ExecError::NoWorker))
    }
}

/// The worker is killed before the failure `e` is handled.
pub open spec fn killing(s: Session, e: ExecError, t: Session, a: Action) -> bool {
    t == Session { phase: Phase::Killing(e), ..s } && a == Action::Kill
}

/// What a failure leads to: a retry while the budget lasts and the failure is
/// one a fresh worker may overcome, else the end of the request.
pub open spec fn outcome_of(s: Session, e: ExecError) -> Outcome {
    if retryable(e) && s.retries_left > 0 {
        Outcome::Retry
    } else {
        Outcome::Return(Err(e))
    }
}

/// The request's course once nothing is held: start over, fall back to
/// files, or end.
pub open spec fn concluded(s: Session, o: Outcome, t: Session, a: Action) -> bool {
    match o {
        Outcome::Retry => begun(
            Session { retries_left: if s.retries_left > 0 { (s.retries_left - 1) as u8 } else { 0 }, ..s },
            t,
            a,
        ),
        Outcome::Fallback => staged(s, t, a),
        Outcome::Return(r) => t == Session { phase: Phase::Idle, ..s } && a == Action::Finish(r),
    }
}

/// The held transport is released before `o` follows.
pub open spec fn released_then(s: Session, o: Outcome, t: Session, a: Action) -> bool {
    match s.transport {
        Some(tr) => t == Session { phase: Phase::Releasing(o), ..s } && a == Action::Release(tr),
        None => concluded(s, o, t, a),
    }
}

/// The failure `e` is handled with no worker left.
pub open spec fn decided(s: Session, e: ExecError, t: Session, a: Action) -> bool {
    released_then(Session { worker: WorkerState::Absent, ..s }, outcome_of(s, e), t, a)
}

pub open spec fn ignored(s: Session, t: Session, a: Action) -> bool {
    t == s && a == Action::Ignore
}

/// What the result bytes `b` read back over `tr` make of the request.
pub open spec fn read_back(tr: Transport, b: Seq<u8>, r: Result<Vec<u8>, ExecError>) -> bool {
    match tr {
        Transport::Shmem { .. } => r matches Ok(x) && x@ == b,
        Transport::File { .. } => match unframe(b) {
            Some(p) => r matches Ok(x) && x@ == p,
            None => r == Err::<Vec<u8>, ExecError>(ExecError::MalformedResult),
        },
    }
}

/// The response to the line `line` read while a command is in flight.
pub open spec fn answered(s: Session, line: Seq<char>, t: Session, a: Action) -> bool {
    let lt = trim(line);
    match s.transport {
        Some(tr) => if has_prefix(lt, done_token()) {
            &&& t == Session { phase: Phase::ReadingResult, worker: WorkerState::Ready, ..s }
            &&& match tr {
                Transport::Shmem { output_capacity, .. } => a == Action::ReadRegion {
                    length: clamp_spec(announced_length(lt), output_capacity),
                },
                Transport::File { output_path, .. } => a == Action::ReadFile(output_path),
            }
        } else if has_prefix(lt, error_token()) {
            &&& t == Session { phase: t.phase, worker: WorkerState::Ready, ..s }
            &&& t.phase matches Phase::Releasing(Outcome::Return(Err(ExecError::Worker(msg))))
            &&& msg@ == error_message(lt)
            &&& a == Action::Release(tr)
        } else {
            t == s && a == Action::ReadLine
        },
        None => ignored(s, t, a),
    }
}

/// The result bytes `b` were read back; the transport is released next.
pub open spec fn result_read(s: Session, b: Seq<u8>, t: Session, a: Action) -> bool {
    match s.transport {
        Some(tr) => {
            &&& t == Session { phase: t.phase, ..s }
            &&& t.phase matches Phase::Releasing(Outcome::Return(r))
            &&& read_back(tr, b, r)
            &&& a == Action::Release(tr)
        },
        None => ignored(s, t, a),
    }
}

/// One transition: what the session does with the event `ev`.
pub open spec fn step_spec(s: Session, ev: Event, t: Session, a: Action) -> bool {
    match s.phase {
        Phase::Idle => ignored(s, t, a),
        Phase::CreatingRegions => match ev {
            Event::Completed => dispatched(s, t, a),
            Event::Fault(_) => released_then(s, Outcome::Fallback, t, a),
            _ => ignored(s, t, a),
        },
        Phase::StagingFiles => match ev {
            Event::Completed => dispatched(s, t, a),
            Event::Fault(m) => released_then(s, Outcome::Return(Err(ExecError::Transport(m))), t, a),
            _ => ignored(s, t, a),
        },
        Phase::Probing => match ev {
            Event::Alive => send_spec(s, t, a),
            Event::Exited => spawned(s, t, a),
            Event::Fault(_) => spawned(s, t, a),
            _ => ignored(s, t, a),
        },
        Phase::Spawning => match ev {
            Event::Completed => t == Session { phase: Phase::Handshaking, ..s } && a == Action::ReadHandshakeLine,
            Event::Fault(m) => decided(s, ExecError::Spawn(SpawnError::Launch(m)), t, a),
            _ => ignored(s, t, a),
        },
        Phase::Handshaking => match ev {
            Event::Line { text, elapsed_ms } => if elapsed_ms > s.config.handshake_timeout_ms {
                killing(s, ExecError::Spawn(SpawnError::Timeout), t, a)
            } else if is_ready(text@) {
                sent(Session { worker: WorkerState::Ready, ..s }, t, a)
            } else {
                t == s && a == Action::ReadHandshakeLine
            },
            Event::NoLine { elapsed_ms } => if elapsed_ms > s.config.handshake_timeout_ms {
                killing(s, ExecError::Spawn(SpawnError::Timeout), t, a)
            } else {
                t == s && a == Action::ReadHandshakeLine
            },
            Event::Closed => killing(s, ExecError::Spawn(SpawnError::Exited), t, a),
            Event::Fault(m) => killing(s, ExecError::Spawn(SpawnError::Io(m)), t, a),
            _ => ignored(s, t, a),
        },
        Phase::Awaiting => match ev {
            Event::Line { text, .. } => answered(s, text@, t, a),
            Event::Closed => killing(s, ExecError::Protocol(ProtocolError::Closed), t, a),
            Event::Fault(m) => killing(s, ExecError::Protocol(ProtocolError::Io(m)), t, a),
            _ => ignored(s, t, a),
        },
        Phase::ReadingResult => match ev {
            Event::Bytes(b) => result_read(s, b@, t, a),
            Event::Fault(m) => if s.transport is Some {
                released_then(s, Outcome::Return(Err(ExecError::Transport(m))), t, a)
            } else {
                ignored(s, t, a)
            },
            _ => ignored(s, t, a),
        },
        Phase::Killing(e) => match ev {
            Event::Completed => decided(s, e, t, a),
            Event::Fault(_) => decided(s, e, t, a),
            _ => ignored(s, t, a),
        },
        Phase::StartSpawning => match ev {
            Event::Completed => t == Session { phase: Phase::StartHandshaking, ..s } && a
                == Action::ReadHandshakeLine,
            Event::Fault(m) => t == Session { phase: Phase::Idle, worker: WorkerState::Absent, ..s }
                && a == Action::Finish(Err(ExecError::Spawn(SpawnError::Launch(m)))),
            _ => ignored(s, t, a),
        },
        Phase::StartHandshaking => match ev {
            Event::Line { text, elapsed_ms } => if elapsed_ms > s.config.handshake_timeout_ms {
                t == Session { phase: Phase::StartKilling(SpawnError::Timeout), ..s } && a
                    == Action::Kill
            } else if is_ready(text@) {
                t == Session { phase: Phase::Idle, worker: WorkerState::Ready, ..s } && a
                    == Action::WorkerReady
            } else {
                t == s && a == Action::ReadHandshakeLine
            },
            Event::NoLine { elapsed_ms } => if elapsed_ms > s.config.handshake_timeout_ms {
                t == Session { phase: Phase::StartKilling(SpawnError::Timeout), ..s } && a
                    == Action::Kill
            } else {
                t == s && a == Action::ReadHandshakeLine
            },
            Event::Closed => t == Session { phase: Phase::StartKilling(SpawnError::Exited), ..s }
                && a == Action::Kill,
            Event::Fault(m) => t == Session { phase: Phase::StartKilling(SpawnError::Io(m)), ..s }
                && a == Action::Kill,
            _ => ignored(s, t, a),
        },
        Phase::StartKilling(e) => match ev {
            Event::Completed => t == Session { phase: Phase::Idle, worker: WorkerState::Absent, ..s }
                && a == Action::Finish(Err(ExecError::Spawn(e))),
            Event::Fault(_) => t == Session { phase: Phase::Idle, worker: WorkerState::Absent, ..s }
                && a == Action::Finish(Err(ExecError::Spawn(e))),
            _ => ignored(s, t, a),
        },
        Phase::Releasing(o) => match ev {
            Event::Completed => concluded(Session { transport: None, ..s }, o, t, a),
            Event::Fault(_) => concluded(Session { transport: None, ..s }, o, t, a),
            _ => ignored(s, t, a),
        },
    }
}

/// Every transition keeps a session in the states described by `wf`.
pub proof fn lemma_step_keeps_wf(s: Session, ev: Event, t: Session, a: Action)
    requires
        s.wf(),
        step_spec(s, ev, t, a),
    ensures
        t.wf(),
{
}

impl Session {
    /// The states that the session's transitions keep.
    pub open spec fn wf(self) -> bool {
        &&& self.retries_left <= RETRY_BUDGET
        &&& match self.phase {
            Phase::Idle => self.transport is None && (self.worker is Absent || self.worker is Ready),
            Phase::CreatingRegions => self.transport matches Some(Transport::Shmem { .. }) && (
            self.worker is Absent || self.worker is Ready),
            Phase::StagingFiles => self.transport matches Some(Transport::File { .. }) && (
            self.worker is Absent || self.worker is Ready),
            Phase::Probing => self.transport is Some && self.worker is Ready,
            Phase::Spawning => self.transport is Some && self.worker is Starting,
            Phase::Handshaking => self.transport is Some && self.worker is Starting,
            Phase::Awaiting => self.transport is Some && self.worker is Busy,
            Phase::ReadingResult => self.transport is Some && self.worker is Ready,
            Phase::Killing(_) => self.transport is Some,
            Phase::StartSpawning => self.transport is None && self.worker is Starting,
            Phase::StartHandshaking => self.transport is None && self.worker is Starting,
            Phase::StartKilling(_) => self.transport is None,
            Phase::Releasing(_) => self.transport is Some && !(self.worker is Busy) && !(
            self.worker is Starting),
        }
    }

    /// A session with no worker and no request.
    pub fn new(config: SessionConfig) -> (r: Session)
        ensures
            r.config == config,
            r.worker is Absent,
            r.phase is Idle,
            r.transport is None,
            r.wf(),
    {
        Session {
            config,
            worker: WorkerState::Absent,
            phase: Phase::Idle,
            request: TaskRequest {
                task_type: String::new(),
                request_id: String::new(),
                metadata: String::new(),
                payload: Vec::new(),
            },
            transport: None,
            retries_left: 0,
        }
    }

    /// Whether no request is in progress.
    pub fn is_idle(&self) -> (r: bool)
        ensures
            r == self.phase is Idle,
    {
        match self.phase {
            Phase::Idle => true,
            _ => false,
        }
    }

    /// The payload of the request in progress.
    pub fn payload(&self) -> (r: &Vec<u8>)
        ensures
            r == self.request.payload,
    {
        &self.request.payload
    }

    fn begin_attempt(&mut self) -> (a: Action)
        ensures
            begun(*old(self), *final(self), a),
    {
        let tr = shmem_plan(
            self.config.session_key.as_str(),
            self.request.request_id.as_str(),
            self.request.payload.len(),
            self.config.output_capacity,
        );
        self.transport = Some(tr.duplicate());
        self.phase = Phase::CreatingRegions;
        Action::CreateRegions(tr)
    }

    fn stage_files(&mut self) -> (a: Action)
        ensures
            staged(*old(self), *final(self), a),
    {
        match encode_frame(&self.request.payload) {
            Some(f) => {
                let tr = file_plan(self.config.work_dir.as_str(), self.request.request_id.as_str());
                let a = match &tr {
                    Transport::File { input_path, output_path } => Action::StageFiles {
                        input_path: input_path.clone(),
                        output_path: output_path.clone(),
                        frame: f,
                    },
                    Transport::Shmem { .. } => Action::Ignore,
                };
                self.transport = Some(tr);
                self.phase = Phase::StagingFiles;
                a
            },
            None => {
                self.phase = Phase::Idle;
                Action::Finish(Err(ExecError::PayloadTooLarge))
            },
        }
    }

    fn spawn(&mut self) -> (a: Action)
        ensures
            spawned(*old(self), *final(self), a),
    {
        self.worker = WorkerState::Starting;
        self.phase = Phase::Spawning;
        Action::Spawn {
            work_dir: self.config.work_dir.clone(),
            session_key: self.config.session_key.clone(),
        }
    }

    /// Decides how to get a running worker for the request: check the held
    /// worker, or spawn one when none is held.
    pub fn get_or_spawn_daemon(&mut self) -> (a: Action)
        ensures
            dispatched(*old(self), *final(self), a),
    {
        match self.worker {
            WorkerState::Ready => {
                self.phase = Phase::Probing;
                Action::Probe
            },
            _ => self.spawn(),
        }
    }

    /// Builds the command for the request, with the shared-memory regions
    /// named in its metadata when they carry the payload, and marks the
    /// worker busy with it. With no ready worker held it sends nothing,
    /// changes nothing, and ends the request with `NoWorker`.
    pub fn send_execute_command(&mut self) -> (a: Action)
        ensures
            send_spec(*old(self), *final(self), a),
    {
        match self.worker {
            WorkerState::Ready => {},
            _ => {
                return Action::Finish(Err(ExecError::NoWorker));
            },
        }
        let line = match &self.transport {
            Some(Transport::Shmem { input_name, input_size, output_name, output_capacity }) => {
                let meta = encode_shmem_metadata(
                    input_name.as_str(),
                    *input_size,
                    output_name.as_str(),
                    *output_capacity,
                    self.request.metadata.as_str(),
                );
                encode_execute(
                    self.request.task_type.as_str(),
                    self.request.request_id.as_str(),
                    meta.as_str(),
                )
            },
            _ => encode_execute(
                self.request.task_type.as_str(),
                self.request.request_id.as_str(),
                self.request.metadata.as_str(),
            ),
        };
        self.worker = WorkerState::Busy;
        self.phase = Phase::Awaiting;
        Action::Send(line)
    }

    fn kill_for(&mut self, e: ExecError) -> (a: Action)
        ensures
            killing(*old(self), e, *final(self), a),
    {
        self.phase = Phase::Killing(e);
        Action::Kill
    }

    fn conclude(&mut self, o: Outcome) -> (a: Action)
        ensures
            concluded(*old(self), o, *final(self), a),
    {
        match o {
            Outcome::Retry => {
                if self.retries_left > 0 {
                    self.retries_left = self.retries_left - 1;
                }
                self.begin_attempt()
            },
            Outcome::Fallback => self.stage_files(),
            Outcome::Return(r) => {
                self.phase = Phase::Idle;
                Action::Finish(r)
            },
        }
    }

    fn release_then(&mut self, o: Outcome) -> (a: Action)
        ensures
            released_then(*old(self), o, *final(self), a),
    {
        match &self.transport {
            Some(tr) => {
                let a = Action::Release(tr.duplicate());
                self.phase = Phase::Releasing(o);
                a
            },
            None => self.conclude(o),
        }
    }

    fn decide(&mut self, e: ExecError) -> (a: Action)
        ensures
            decided(*old(self), e, *final(self), a),
    {
        let retry = match e {
            ExecError::Spawn(_) => self.retries_left > 0,
            ExecError::Protocol(_) => self.retries_left > 0,
            _ => false,
        };
        self.worker = WorkerState::Absent;
        if retry {
            self.release_then(Outcome::Retry)
        } else {
            self.release_then(Outcome::Return(Err(e)))
        }
    }

    /// Starts the worker ahead of any request, when no request is in progress
    /// and none is held. With a worker held there is nothing to do; while a
    /// request is in progress nothing changes.
    pub fn start_worker(&mut self) -> (a: Action)
        ensures
            old(self).phase is Idle && old(self).worker is Absent ==> *final(self) == (Session {
                phase: Phase::StartSpawning,
                worker: WorkerState::Starting,
                ..*old(self)
            }) && a == (Action::Spawn {
                work_dir: old(self).config.work_dir,
                session_key: old(self).config.session_key,
            }),
            old(self).phase is Idle && !(old(self).worker is Absent) ==> *final(self) == *old(self)
                && a == Action::WorkerReady,
            !(old(self).phase is Idle) ==> *final(self) == *old(self) && a == Action::Finish(
                Err(ExecError::Busy),
            ),
            old(self).wf() ==> final(self).wf(),
    {
        if !self.is_idle() {
            return Action::Finish(Err(ExecError::Busy));
        }
        match self.worker {
            WorkerState::Absent => {
                self.worker = WorkerState::Starting;
                self.phase = Phase::StartSpawning;
                Action::Spawn {
                    work_dir: self.config.work_dir.clone(),
                    session_key: self.config.session_key.clone(),
                }
            },
            _ => Action::WorkerReady,
        }
    }

    /// Starts executing `request`: its payload is first offered to shared
    /// memory. While another request is in progress the new one is refused
    /// and nothing changes.
    pub fn execute(&mut self, request: TaskRequest) -> (a: Action)
        ensures
            old(self).phase is Idle ==> begun(
                Session { request, retries_left: RETRY_BUDGET, ..*old(self) },
                *final(self),
                a,
            ),
            !(old(self).phase is Idle) ==> *final(self) == *old(self) && a == Action::Finish(
                Err(ExecError::Busy),
            ),
            old(self).wf() ==> final(self).wf(),
    {
        if self.is_idle() {
            self.request = request;
            self.retries_left = RETRY_BUDGET;
            self.begin_attempt()
        } else {
            Action::Finish(Err(ExecError::Busy))
        }
    }

    fn on_response(&mut self, text: &String) -> (a: Action)
        ensures
            answered(*old(self), text@, *final(self), a),
    {
        match &self.transport {
            None => Action::Ignore,
            Some(tr) => match classify_response(text.as_str()) {
                ResponseLine::Done { length } => {
                    let a = match tr {
                        Transport::Shmem { output_capacity, .. } => Action::ReadRegion {
                            length: clamp_result_length(length, *output_capacity),
                        },
                        Transport::File { output_path, .. } => Action::ReadFile(output_path.clone()),
                    };
                    self.worker = WorkerState::Ready;
                    self.phase = Phase::ReadingResult;
                    a
                },
                ResponseLine::Error { message } => {
                    let a = Action::Release(tr.duplicate());
                    self.worker = WorkerState::Ready;
                    self.phase = Phase::Releasing(Outcome::Return(Err(ExecError::Worker(message))));
                    a
                },
                ResponseLine::Other => Action::ReadLine,
            },
        }
    }

    fn on_result(&mut self, b: Vec<u8>) -> (a: Action)
        ensures
            result_read(*old(self), b@, *final(self), a),
    {
        match &self.transport {
            None => Action::Ignore,
            Some(tr) => {
                let r = match tr {
                    Transport::Shmem { .. } => Ok(b),
                    Transport::File { .. } => match decode_frame(&b) {
                        Some(p) => Ok(p),
                        None => Err(ExecError::MalformedResult),
                    },
                };
                let a = Action::Release(tr.duplicate());
                self.phase = Phase::Releasing(Outcome::Return(r));
                a
            },
        }
    }

    /// Takes what came of the last action and returns the next one.
    pub fn step(&mut self, ev: Event) -> (a: Action)
        ensures
            step_spec(*old(self), ev, *final(self), a),
            old(self).wf() ==> final(self).wf(),
    {
        let ghost ev0 = ev;
        let a = self.transition(ev);
        proof {
            if old(self).wf() {
                lemma_step_keeps_wf(*old(self), ev0, *self, a);
            }
        }
        a
    }

    fn transition(&mut self, ev: Event) -> (a: Action)
        ensures
            step_spec(*old(self), ev, *final(self), a),
    {
        let mut phase = Phase::Idle;
        core::mem::swap(&mut phase, &mut self.phase);
        match phase {
            Phase::Idle => Action::Ignore,
            Phase::CreatingRegions => match ev {
                Event::Completed => self.get_or_spawn_daemon(),
                Event::Fault(_) => self.release_then(Outcome::Fallback),
                _ => {
                    self.phase = Phase::CreatingRegions;
                    Action::Ignore
                },
            },
            Phase::StagingFiles => match ev {
                Event::Completed => self.get_or_spawn_daemon(),
                Event::Fault(m) => self.release_then(Outcome::Return(Err(ExecError::Transport(m)))),
                _ => {
                    self.phase = Phase::StagingFiles;
                    Action::Ignore
                },
            },
            Phase::Probing => match ev {
                Event::Alive => {
                    self.phase = Phase::Probing;
                    self.send_execute_command()
                },
                Event::Exited => self.spawn(),
                Event::Fault(_) => self.spawn(),
                _ => {
                    self.phase = Phase::Probing;
                    Action::Ignore
                },
            },
            Phase::Spawning => match ev {
                Event::Completed => {
                    self.phase = Phase::Handshaking;
                    Action::ReadHandshakeLine
                },
                Event::Fault(m) => self.decide(ExecError::Spawn(SpawnError::Launch(m))),
                _ => {
                    self.phase = Phase::Spawning;
                    Action::Ignore
                },
            },
            Phase::Handshaking => match ev {
                Event::Line { text, elapsed_ms } => {
                    if elapsed_ms > self.config.handshake_timeout_ms {
                        self.kill_for(ExecError::Spawn(SpawnError::Timeout))
                    } else if is_ready_line(text.as_str()) {
                        self.worker = WorkerState::Ready;
                        self.phase = Phase::Handshaking;
                        self.send_execute_command()
                    } else {
                        self.phase = Phase::Handshaking;
                        Action::ReadHandshakeLine
                    }
                },
                Event::NoLine { elapsed_ms } => {
                    if elapsed_ms > self.config.handshake_timeout_ms {
                        self.kill_for(ExecError::Spawn(SpawnError::Timeout))
                    } else {
                        self.phase = Phase::Handshaking;
                        Action::ReadHandshakeLine
                    }
                },
                Event::Closed => self.kill_for(ExecError::Spawn(SpawnError::Exited)),
                Event::Fault(m) => self.kill_for(ExecError::Spawn(SpawnError::Io(m))),
                _ => {
                    self.phase = Phase::Handshaking;
                    Action::Ignore
                },
            },
            Phase::Awaiting => match ev {
                Event::Line { text, .. } => {
                    self.phase = Phase::Awaiting;
                    self.on_response(&text)
                },
                Event::Closed => self.kill_for(ExecError::Protocol(ProtocolError::Closed)),
                Event::Fault(m) => self.kill_for(ExecError::Protocol(ProtocolError::Io(m))),
                _ => {
                    self.phase = Phase::Awaiting;
                    Action::Ignore
                },
            },
            Phase::ReadingResult => {
                self.phase = Phase::ReadingResult;
                match ev {
                    Event::Bytes(b) => self.on_result(b),
                    Event::Fault(m) => {
                        if self.transport.is_some() {
                            self.release_then(Outcome::Return(Err(ExecError::Transport(m))))
                        } else {
                            Action::Ignore
                        }
                    },
                    _ => Action::Ignore,
                }
            },
            Phase::Killing(e) => match ev {
                Event::Completed => self.decide(e),
                Event::Fault(_) => self.decide(e),
                _ => {
                    self.phase = Phase::Killing(e);
                    Action::Ignore
                },
            },
            Phase::StartSpawning => match ev {
                Event::Completed => {
                    self.phase = Phase::StartHandshaking;
                    Action::ReadHandshakeLine
                },
                Event::Fault(m) => {
                    self.worker = WorkerState::Absent;
                    Action::Finish(Err(ExecError::Spawn(SpawnError::Launch(m))))
                },
                _ => {
                    self.phase = Phase::StartSpawning;
                    Action::Ignore
                },
            },
            Phase::StartHandshaking => match ev {
                Event::Line { text, elapsed_ms } => {
                    if elapsed_ms > self.config.handshake_timeout_ms {
                        self.phase = Phase::StartKilling(SpawnError::Timeout);
                        Action::Kill
                    } else if is_ready_line(text.as_str()) {
                        self.worker = WorkerState::Ready;
                        Action::WorkerReady
                    } else {
                        self.phase = Phase::StartHandshaking;
                        Action::ReadHandshakeLine
                    }
                },
                Event::NoLine { elapsed_ms } => {
                    if elapsed_ms > self.config.handshake_timeout_ms {
                        self.phase = Phase::StartKilling(SpawnError::Timeout);
                        Action::Kill
                    } else {
                        self.phase = Phase::StartHandshaking;
                        Action::ReadHandshakeLine
                    }
                },
                Event::Closed => {
                    self.phase = Phase::StartKilling(SpawnError::Exited);
                    Action::Kill
                },
                Event::Fault(m) => {
                    self.phase = Phase::StartKilling(SpawnError::Io(m));
                    Action::Kill
                },
                _ => {
                    self.phase = Phase::StartHandshaking;
                    Action::Ignore
                },
            },
            Phase::StartKilling(e) => match ev {
                Event::Completed => {
                    self.worker = WorkerState::Absent;
                    Action::Finish(Err(ExecError::Spawn(e)))
                },
                Event::Fault(_) => {
                    self.worker = WorkerState::Absent;
                    Action::Finish(Err(ExecError::Spawn(e)))
                },
                _ => {
                    self.phase = Phase::StartKilling(e);
                    Action::Ignore
                },
            },
            Phase::Releasing(o) => match ev {
                Event::Completed => {
                    self.transport = None;
                    self.conclude(o)
                },
                Event::Fault(_) => {
                    self.transport = None;
                    self.conclude(o)
                },
                _ => {
                    self.phase = Phase::Releasing(o);
                    Action::Ignore
                },
            },
        }
    }
}

} // verus!
