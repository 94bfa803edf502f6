use std::collections::{BTreeMap, VecDeque};

use jpyrust::session::{
    Action, Event, ExecError, ProtocolError, Session, SessionConfig, SpawnError, TaskRequest,
    WorkerState,
};
use jpyrust::transport::{decode_frame, encode_frame, Transport, OUTPUT_CAPACITY};

/// How a simulated worker instance behaves.
#[derive(Clone, Copy, PartialEq)]
enum Kind {
    /// Announces readiness and echoes every payload back.
    Echo,
    /// Announces readiness, then closes its output while answering.
    ClosesMidResponse,
    /// Never announces readiness.
    NeverReady,
    /// Closes its output during the handshake.
    DiesAtStart,
    /// Rejects every task.
    Rejects,
    /// Announces a result longer than the output region.
    Overlong,
    /// Writes a truncated output file.
    Truncates,
    /// Cannot be launched.
    Unlaunchable,
    /// Prints nothing and keeps its output open.
    Silent,
}

struct World {
    kinds: Vec<Kind>,
    spawns: usize,
    kills: usize,
    alive: bool,
    kind: Kind,
    regions_fail: bool,
    staging_fails: bool,
    regions: Option<(String, Vec<u8>, String, Vec<u8>)>,
    files: BTreeMap<String, Vec<u8>>,
    output: VecDeque<String>,
    elapsed_ms: u64,
    sends: usize,
    transports_used: Vec<&'static str>,
}

impl World {
    fn new(kinds: Vec<Kind>) -> World {
        World {
            kinds,
            spawns: 0,
            kills: 0,
            alive: false,
            kind: Kind::Echo,
            regions_fail: false,
            staging_fails: false,
            regions: None,
            files: BTreeMap::new(),
            output: VecDeque::new(),
            elapsed_ms: 0,
            sends: 0,
            transports_used: Vec::new(),
        }
    }

    fn read_line(&mut self) -> Event {
        match self.output.pop_front() {
            Some(text) => {
                let elapsed_ms = self.elapsed_ms;
                self.elapsed_ms += 1000;
                Event::Line { text, elapsed_ms }
            },
            None if self.alive && self.kind == Kind::Silent => {
                self.elapsed_ms += 20_000;
                Event::NoLine { elapsed_ms: self.elapsed_ms }
            },
            None if self.alive && self.kind == Kind::NeverReady => {
                let elapsed_ms = self.elapsed_ms;
                self.elapsed_ms += 30_000;
                Event::Line { text: "still loading\n".to_string(), elapsed_ms }
            },
            None => Event::Closed,
        }
    }

    fn answer(&mut self, line: &str) {
        assert!(line.ends_with('\n'));
        let fields: Vec<&str> = line.trim_end_matches('\n').splitn(4, ' ').collect();
        assert_eq!(fields[0], "EXECUTE");
        let request_id = fields[2];
        let meta = fields[3];
        self.output.push_back("working\n".to_string());
        match self.kind {
            Kind::ClosesMidResponse => {
                self.alive = false;
                return;
            },
            Kind::Rejects => {
                self.output.push_back("ERROR unsupported task\n".to_string());
                return;
            },
            _ => {},
        }
        if meta.starts_with("SHMEM ") {
            let parts: Vec<&str> = meta.splitn(6, ' ').collect();
            let (input_name, input, output_name, out) = self.regions.as_mut().unwrap();
            assert_eq!(parts[1], input_name.as_str());
            assert_eq!(parts[2].parse::<usize>().unwrap(), input.len());
            assert_eq!(parts[3], output_name.as_str());
            assert_eq!(parts[4].parse::<usize>().unwrap(), out.len());
            out[..input.len()].copy_from_slice(input);
            let announced = if self.kind == Kind::Overlong { out.len() + 1 } else { input.len() };
            self.output.push_back(format!("DONE {}\n", announced));
        } else {
            let input = self.files[&format!("/work/input_{}.dat", request_id)].clone();
            let mut result = input.clone();
            if self.kind == Kind::Truncates {
                result.truncate(result.len() - 1);
            }
            self.files.insert(format!("/work/output_{}.dat", request_id), result);
            self.output.push_back("DONE\n".to_string());
        }
    }

    fn held(&self) -> bool {
        self.regions.is_some() || !self.files.is_empty()
    }

    /// Runs one request to its end, performing each action the session asks for.
    fn run(&mut self, session: &mut Session, request: TaskRequest) -> Result<Vec<u8>, ExecError> {
        let first = session.execute(request);
        self.drive(session, first)
    }

    /// Starts the worker ahead of any request.
    fn start(&mut self, session: &mut Session) -> Result<Vec<u8>, ExecError> {
        let first = session.start_worker();
        self.drive(session, first)
    }

    fn drive(&mut self, session: &mut Session, first: Action) -> Result<Vec<u8>, ExecError> {
        let mut action = first;
        let mut steps = 0;
        loop {
            steps += 1;
            assert!(steps < 1000, "the request does not end");
            let event = match action {
                Action::Finish(r) => {
                    assert!(!self.held(), "a transport resource outlived its request");
                    assert!(session.is_idle());
                    return r;
                },
                Action::WorkerReady => {
                    assert!(session.is_idle());
                    assert_eq!(session.worker, WorkerState::Ready);
                    return Ok(vec![]);
                },
                Action::CreateRegions(Transport::Shmem {
                    input_name,
                    input_size,
                    output_name,
                    output_capacity,
                }) => {
                    assert!(self.regions.is_none());
                    if self.regions_fail {
                        Event::Fault("no shared memory".to_string())
                    } else {
                        assert_eq!(input_size, session.payload().len());
                        self.regions = Some((
                            input_name,
                            session.payload().clone(),
                            output_name,
                            vec![0u8; output_capacity],
                        ));
                        self.transports_used.push("shmem");
                        Event::Completed
                    }
                },
                Action::CreateRegions(other) => panic!("regions for {:?}", other),
                Action::StageFiles { input_path, output_path, frame } => {
                    assert_eq!(decode_frame(&frame).as_ref(), Some(session.payload()));
                    self.files.remove(&output_path);
                    if self.staging_fails {
                        Event::Fault("disk full".to_string())
                    } else {
                        self.files.insert(input_path, frame);
                        self.transports_used.push("file");
                        Event::Completed
                    }
                },
                Action::Probe => {
                    if self.alive {
                        Event::Alive
                    } else {
                        Event::Exited
                    }
                },
                Action::Spawn { work_dir, .. } => {
                    assert_eq!(work_dir, "/work");
                    self.alive = false;
                    self.output.clear();
                    self.kind = self.kinds[self.spawns];
                    self.spawns += 1;
                    self.elapsed_ms = 0;
                    if self.kind == Kind::Unlaunchable {
                        Event::Fault("no such file".to_string())
                    } else {
                        self.alive = true;
                        if self.kind != Kind::Silent {
                            self.output.push_back("loading model\n".to_string());
                        }
                        if self.kind != Kind::NeverReady
                            && self.kind != Kind::DiesAtStart
                            && self.kind != Kind::Silent
                        {
                            self.output.push_back("READY\n".to_string());
                        }
                        Event::Completed
                    }
                },
                Action::ReadHandshakeLine => self.read_line(),
                Action::Send(line) => {
                    assert!(self.alive);
                    self.sends += 1;
                    self.answer(&line);
                    self.read_line()
                },
                Action::ReadLine => self.read_line(),
                Action::Kill => {
                    self.alive = false;
                    self.kills += 1;
                    self.output.clear();
                    Event::Completed
                },
                Action::ReadRegion { length } => {
                    let out = &self.regions.as_ref().unwrap().3;
                    assert!(length <= out.len());
                    Event::Bytes(out[..length].to_vec())
                },
                Action::ReadFile(path) => match self.files.get(&path) {
                    Some(b) => Event::Bytes(b.clone()),
                    None => Event::Fault("missing".to_string()),
                },
                Action::Release(Transport::Shmem { input_name, .. }) => {
                    if let Some((name, ..)) = &self.regions {
                        assert_eq!(name, &input_name);
                    }
                    self.regions = None;
                    Event::Completed
                },
                Action::Release(Transport::File { input_path, output_path }) => {
                    self.files.remove(&input_path);
                    self.files.remove(&output_path);
                    Event::Completed
                },
                Action::Ignore => panic!("an event went unanswered"),
            };
            action = session.step(event);
        }
    }
}

fn session() -> Session {
    Session::new(SessionConfig::new("/work".to_string(), "s1".to_string()))
}

fn request(id: &str, payload: Vec<u8>) -> TaskRequest {
    TaskRequest {
        task_type: "ECHO".to_string(),
        request_id: id.to_string(),
        metadata: "640 480 3".to_string(),
        payload,
    }
}

#[test]
fn echo_through_shared_memory_returns_payload() {
    for p in [vec![], vec![1u8, 2, 3], vec![42u8; 1000], vec![5u8; OUTPUT_CAPACITY]] {
        let mut w = World::new(vec![Kind::Echo]);
        let mut s = session();
        assert_eq!(w.run(&mut s, request("req-0001", p.clone())), Ok(p));
        assert_eq!(w.transports_used, vec!["shmem"]);
    }
}

#[test]
fn echo_through_files_returns_payload() {
    for p in [vec![], vec![1u8, 2, 3], vec![7u8; 2 * OUTPUT_CAPACITY]] {
        let mut w = World::new(vec![Kind::Echo]);
        w.regions_fail = true;
        let mut s = session();
        assert_eq!(w.run(&mut s, request("req-0002", p.clone())), Ok(p));
        assert_eq!(w.transports_used, vec!["file"]);
    }
}

#[test]
fn region_failure_falls_back_to_files() {
    let mut w = World::new(vec![Kind::Echo]);
    w.regions_fail = true;
    let mut s = session();
    assert_eq!(w.run(&mut s, request("r", vec![9, 8, 7])), Ok(vec![9, 8, 7]));
    assert!(w.regions.is_none());
    assert!(w.files.is_empty());
}

#[test]
fn region_failure_steps() {
    let mut s = session();
    let a = s.execute(request("abc", vec![1, 2]));
    let shmem = Transport::Shmem {
        input_name: "jpyrust_s1_abc".to_string(),
        input_size: 2,
        output_name: "jpyrust_out_s1_abc".to_string(),
        output_capacity: OUTPUT_CAPACITY,
    };
    assert_eq!(a, Action::CreateRegions(shmem));
    let a = s.step(Event::Fault("EEXIST".to_string()));
    assert!(matches!(a, Action::Release(Transport::Shmem { .. })));
    let a = s.step(Event::Completed);
    assert_eq!(
        a,
        Action::StageFiles {
            input_path: "/work/input_abc.dat".to_string(),
            output_path: "/work/output_abc.dat".to_string(),
            frame: vec![0, 0, 0, 2, 1, 2],
        }
    );
}

#[test]
fn command_names_regions_in_metadata() {
    let mut s = session();
    s.execute(request("id-123456789", vec![4, 5, 6]));
    assert_eq!(s.step(Event::Completed), Action::Spawn {
        work_dir: "/work".to_string(),
        session_key: "s1".to_string(),
    });
    assert_eq!(s.step(Event::Completed), Action::ReadHandshakeLine);
    assert_eq!(
        s.step(Event::Line { text: "importing torch\n".to_string(), elapsed_ms: 10 }),
        Action::ReadHandshakeLine
    );
    let a = s.step(Event::Line { text: "READY\n".to_string(), elapsed_ms: 20 });
    assert_eq!(
        a,
        Action::Send(
            "EXECUTE ECHO id-123456789 SHMEM jpyrust_s1_id-12345 3 jpyrust_out_s1_id-12345 1048576 640 480 3\n"
                .to_string()
        )
    );
    assert_eq!(s.worker, WorkerState::Busy);
    assert_eq!(s.step(Event::Line { text: "log line\n".to_string(), elapsed_ms: 0 }), Action::ReadLine);
    assert_eq!(
        s.step(Event::Line { text: "DONE 3\n".to_string(), elapsed_ms: 0 }),
        Action::ReadRegion { length: 3 }
    );
    assert_eq!(s.worker, WorkerState::Ready);
    assert!(matches!(s.step(Event::Bytes(vec![6, 5, 4])), Action::Release(_)));
    assert_eq!(s.step(Event::Completed), Action::Finish(Ok(vec![6, 5, 4])));
}

#[test]
fn file_mode_command_keeps_plain_metadata() {
    let mut s = session();
    s.execute(request("q", vec![1]));
    s.step(Event::Fault("no shm".to_string()));
    s.step(Event::Completed);
    s.step(Event::Completed);
    s.step(Event::Completed);
    let a = s.step(Event::Line { text: "READY\n".to_string(), elapsed_ms: 0 });
    assert_eq!(a, Action::Send("EXECUTE ECHO q 640 480 3\n".to_string()));
    assert_eq!(
        s.step(Event::Line { text: "DONE\n".to_string(), elapsed_ms: 0 }),
        Action::ReadFile("/work/output_q.dat".to_string())
    );
}

#[test]
fn handshake_timeout_kills_the_worker() {
    let mut s = session();
    s.execute(request("t", vec![1]));
    s.step(Event::Completed);
    s.step(Event::Completed);
    let a = s.step(Event::Line { text: "loading\n".to_string(), elapsed_ms: 60_001 });
    assert_eq!(a, Action::Kill);
    assert!(matches!(s.step(Event::Completed), Action::Release(_)));
    assert_eq!(s.worker, WorkerState::Absent);
}

#[test]
fn worker_never_ready_fails_with_timeout() {
    let mut w = World::new(vec![Kind::NeverReady, Kind::NeverReady]);
    let mut s = session();
    assert_eq!(
        w.run(&mut s, request("r", vec![1])),
        Err(ExecError::Spawn(SpawnError::Timeout))
    );
    assert!(!w.alive);
    assert_eq!(w.kills, 2);
    assert_eq!(s.worker, WorkerState::Absent);
}

#[test]
fn worker_dying_at_start_fails_with_exited() {
    let mut w = World::new(vec![Kind::DiesAtStart, Kind::DiesAtStart]);
    let mut s = session();
    assert_eq!(w.run(&mut s, request("r", vec![1])), Err(ExecError::Spawn(SpawnError::Exited)));
    assert!(!w.alive);
}

#[test]
fn slow_start_is_retried_with_a_fresh_worker() {
    let mut w = World::new(vec![Kind::NeverReady, Kind::Echo]);
    let mut s = session();
    assert_eq!(w.run(&mut s, request("r", vec![3, 1])), Ok(vec![3, 1]));
    assert_eq!(w.spawns, 2);
}

#[test]
fn closed_output_is_retried_once_with_a_fresh_worker() {
    let mut w = World::new(vec![Kind::ClosesMidResponse, Kind::Echo]);
    let mut s = session();
    assert_eq!(w.run(&mut s, request("r", vec![1, 2, 3])), Ok(vec![1, 2, 3]));
    assert_eq!(w.spawns, 2);
    assert_eq!(w.kills, 1);
    assert_eq!(w.sends, 2);
}

#[test]
fn second_closed_output_is_final() {
    let mut w = World::new(vec![Kind::ClosesMidResponse, Kind::ClosesMidResponse, Kind::Echo]);
    let mut s = session();
    assert_eq!(
        w.run(&mut s, request("r", vec![1])),
        Err(ExecError::Protocol(ProtocolError::Closed))
    );
    assert_eq!(w.spawns, 2);
    assert_eq!(w.sends, 2);
}

#[test]
fn io_fault_while_awaiting_is_a_protocol_error() {
    let mut s = session();
    s.execute(request("r", vec![1]));
    s.step(Event::Completed);
    s.step(Event::Completed);
    s.step(Event::Line { text: "READY\n".to_string(), elapsed_ms: 0 });
    assert_eq!(s.step(Event::Fault("broken pipe".to_string())), Action::Kill);
    s.step(Event::Completed);
    s.step(Event::Completed);
    assert_eq!(s.retries_left, 0);
}

#[test]
fn worker_error_is_surfaced_without_retry() {
    let mut w = World::new(vec![Kind::Rejects, Kind::Echo]);
    let mut s = session();
    assert_eq!(
        w.run(&mut s, request("r", vec![1])),
        Err(ExecError::Worker("unsupported task".to_string()))
    );
    assert_eq!(w.spawns, 1);
    assert_eq!(w.sends, 1);
    assert_eq!(s.worker, WorkerState::Ready);
}

#[test]
fn unlaunchable_worker_fails_after_one_retry() {
    let mut w = World::new(vec![Kind::Unlaunchable, Kind::Unlaunchable]);
    let mut s = session();
    assert_eq!(
        w.run(&mut s, request("r", vec![1])),
        Err(ExecError::Spawn(SpawnError::Launch("no such file".to_string())))
    );
    assert_eq!(w.spawns, 2);
}

#[test]
fn overlong_result_length_gives_empty_result() {
    let mut w = World::new(vec![Kind::Overlong]);
    let mut s = session();
    assert_eq!(w.run(&mut s, request("r", vec![1, 2])), Ok(vec![]));
}

#[test]
fn overlong_result_length_step() {
    let mut s = session();
    s.execute(request("r", vec![1]));
    s.step(Event::Completed);
    s.step(Event::Completed);
    s.step(Event::Line { text: "READY\n".to_string(), elapsed_ms: 0 });
    assert_eq!(
        s.step(Event::Line { text: "DONE 2000000\n".to_string(), elapsed_ms: 0 }),
        Action::ReadRegion { length: 0 }
    );
}

#[test]
fn truncated_output_file_is_malformed() {
    let mut w = World::new(vec![Kind::Truncates]);
    w.regions_fail = true;
    let mut s = session();
    assert_eq!(w.run(&mut s, request("r", vec![1, 2])), Err(ExecError::MalformedResult));
}

#[test]
fn missing_output_file_is_a_transport_error() {
    let mut s = session();
    s.execute(request("r", vec![1]));
    s.step(Event::Fault("no shm".to_string()));
    s.step(Event::Completed);
    s.step(Event::Completed);
    s.step(Event::Completed);
    s.step(Event::Line { text: "READY\n".to_string(), elapsed_ms: 0 });
    s.step(Event::Line { text: "DONE\n".to_string(), elapsed_ms: 0 });
    assert!(matches!(s.step(Event::Fault("missing".to_string())), Action::Release(_)));
    assert_eq!(
        s.step(Event::Completed),
        Action::Finish(Err(ExecError::Transport("missing".to_string())))
    );
}

#[test]
fn staging_failure_is_a_transport_error() {
    let mut w = World::new(vec![Kind::Echo]);
    w.regions_fail = true;
    w.staging_fails = true;
    let mut s = session();
    assert_eq!(
        w.run(&mut s, request("r", vec![1])),
        Err(ExecError::Transport("disk full".to_string()))
    );
    assert_eq!(w.spawns, 0);
}

#[test]
fn requests_are_served_one_after_another_by_one_worker() {
    let mut w = World::new(vec![Kind::Echo]);
    let mut s = session();
    for i in 0..20u8 {
        let p = vec![i; (i as usize) * 3];
        assert_eq!(w.run(&mut s, request(&format!("req-{}", i), p.clone())), Ok(p));
    }
    assert_eq!(w.spawns, 1);
    assert_eq!(w.sends, 20);
}

#[test]
fn exited_worker_is_respawned() {
    let mut w = World::new(vec![Kind::Echo, Kind::Echo]);
    let mut s = session();
    assert_eq!(w.run(&mut s, request("a", vec![1])), Ok(vec![1]));
    w.alive = false;
    assert_eq!(w.run(&mut s, request("b", vec![2])), Ok(vec![2]));
    assert_eq!(w.spawns, 2);
}

#[test]
fn request_while_busy_is_refused() {
    let mut s = session();
    s.execute(request("a", vec![1]));
    s.step(Event::Completed);
    let before = format!("{:?}", (&s.phase, &s.worker, &s.transport));
    assert_eq!(s.execute(request("b", vec![2])), Action::Finish(Err(ExecError::Busy)));
    assert_eq!(format!("{:?}", (&s.phase, &s.worker, &s.transport)), before);
    assert_eq!(s.request.request_id, "a");
}

#[test]
fn stray_events_change_nothing() {
    let mut s = session();
    assert_eq!(s.step(Event::Completed), Action::Ignore);
    assert!(s.is_idle());
    s.execute(request("a", vec![1]));
    assert_eq!(s.step(Event::Alive), Action::Ignore);
    assert_eq!(s.step(Event::Bytes(vec![1])), Action::Ignore);
}

#[test]
fn no_resource_outlives_any_request() {
    let cases: Vec<(Vec<Kind>, bool)> = vec![
        (vec![Kind::Echo], false),
        (vec![Kind::Echo], true),
        (vec![Kind::Rejects], false),
        (vec![Kind::Rejects], true),
        (vec![Kind::ClosesMidResponse, Kind::ClosesMidResponse], false),
        (vec![Kind::ClosesMidResponse, Kind::ClosesMidResponse], true),
        (vec![Kind::NeverReady, Kind::NeverReady], true),
        (vec![Kind::Truncates], true),
        (vec![Kind::Unlaunchable, Kind::Unlaunchable], false),
    ];
    for (kinds, regions_fail) in cases {
        let mut w = World::new(kinds);
        w.regions_fail = regions_fail;
        let mut s = session();
        let _ = w.run(&mut s, request("leak-check", vec![1, 2, 3]));
        assert!(!w.held());
        assert!(s.transport.is_none());
    }
}

#[test]
fn frames_written_for_the_worker_decode_to_the_payload() {
    let p = vec![0xde, 0xad, 0xbe, 0xef];
    let f = encode_frame(&p).unwrap();
    assert_eq!(f, vec![0, 0, 0, 4, 0xde, 0xad, 0xbe, 0xef]);
}

#[test]
fn held_ready_worker_is_probed_before_use() {
    let mut s = session();
    s.worker = WorkerState::Ready;
    s.execute(request("p", vec![1]));
    assert_eq!(s.get_or_spawn_daemon(), Action::Probe);
    assert_eq!(s.step(Event::Exited), Action::Spawn {
        work_dir: "/work".to_string(),
        session_key: "s1".to_string(),
    });
}

#[test]
fn absent_worker_is_spawned() {
    let mut s = session();
    s.execute(request("p", vec![1]));
    assert_eq!(s.get_or_spawn_daemon(), Action::Spawn {
        work_dir: "/work".to_string(),
        session_key: "s1".to_string(),
    });
    assert_eq!(s.worker, WorkerState::Starting);
}

#[test]
fn command_is_built_for_the_held_transport() {
    let mut s = session();
    s.execute(request("abc", vec![1, 2]));
    s.worker = WorkerState::Ready;
    assert_eq!(
        s.send_execute_command(),
        Action::Send(
            "EXECUTE ECHO abc SHMEM jpyrust_s1_abc 2 jpyrust_out_s1_abc 1048576 640 480 3\n".to_string()
        )
    );
    assert_eq!(s.worker, WorkerState::Busy);
}

#[test]
fn command_without_a_ready_worker_is_refused() {
    let mut s = session();
    s.execute(request("abc", vec![1, 2]));
    let before = format!("{:?}", (&s.phase, &s.worker, &s.transport, s.retries_left));
    assert_eq!(s.send_execute_command(), Action::Finish(Err(ExecError::NoWorker)));
    assert_eq!(format!("{:?}", (&s.phase, &s.worker, &s.transport, s.retries_left)), before);
    assert_eq!(s.worker, WorkerState::Absent);
}

#[test]
fn silent_worker_is_timed_out() {
    let mut w = World::new(vec![Kind::Silent, Kind::Silent]);
    let mut s = session();
    assert_eq!(w.run(&mut s, request("r", vec![1])), Err(ExecError::Spawn(SpawnError::Timeout)));
    assert!(!w.alive);
    assert_eq!(w.kills, 2);
    assert_eq!(w.sends, 0);
}

#[test]
fn handshake_wait_without_line_before_deadline_waits_again() {
    let mut s = session();
    s.execute(request("t", vec![1]));
    s.step(Event::Completed);
    s.step(Event::Completed);
    assert_eq!(s.step(Event::NoLine { elapsed_ms: 59_000 }), Action::ReadHandshakeLine);
    assert_eq!(s.step(Event::NoLine { elapsed_ms: 60_000 }), Action::ReadHandshakeLine);
    assert_eq!(s.step(Event::NoLine { elapsed_ms: 60_001 }), Action::Kill);
}

#[test]
fn worker_started_ahead_serves_the_first_request() {
    let mut w = World::new(vec![Kind::Echo]);
    let mut s = session();
    assert_eq!(w.start(&mut s), Ok(vec![]));
    assert_eq!(w.spawns, 1);
    assert_eq!(w.run(&mut s, request("r", vec![4, 2])), Ok(vec![4, 2]));
    assert_eq!(w.spawns, 1);
    assert_eq!(w.start(&mut s), Ok(vec![]));
    assert_eq!(w.spawns, 1);
}

#[test]
fn worker_started_ahead_that_stays_silent_is_killed() {
    let mut w = World::new(vec![Kind::Silent, Kind::Echo]);
    let mut s = session();
    assert_eq!(w.start(&mut s), Err(ExecError::Spawn(SpawnError::Timeout)));
    assert!(!w.alive);
    assert_eq!(w.kills, 1);
    assert_eq!(s.worker, WorkerState::Absent);
    assert_eq!(w.run(&mut s, request("r", vec![1])), Ok(vec![1]));
}

#[test]
fn worker_start_during_a_request_is_refused() {
    let mut s = session();
    s.execute(request("a", vec![1]));
    assert_eq!(s.start_worker(), Action::Finish(Err(ExecError::Busy)));
    assert_eq!(s.request.request_id, "a");
}
