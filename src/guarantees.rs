//! What holds of every run of a session, stated over its transitions.
use vstd::prelude::*;
use crate::protocol::{announced_length, done_token, has_prefix, is_ready, ready_token};
use crate::text::{
    decimal, is_space, lemma_decimal_digits, lemma_parse_decimal, leading_space, trailing_space,
    trim,
};
use crate::transport::{frame, frameable, is_file_plan, lemma_frame_round_trip, Transport};
use crate::session::{
    lemma_step_keeps_wf, outcome_of, step_spec, Action, Event, ExecError, Outcome, Phase, ProtocolError, Session,
    SpawnError,
};

verus! {

/// When a request ends, the session holds no transport resources and is idle.
pub proof fn lemma_finish_holds_nothing(s: Session, ev: Event, t: Session, a: Action)
    requires
        s.wf(),
        step_spec(s, ev, t, a),
        a is Finish,
    ensures
        t.transport is None,
        t.phase is Idle,
{
}

/// A held transport leaves the session only after the step that released
/// it: it is dropped only on leaving `Releasing`, and `Releasing` is entered
/// by asking to release exactly the transport held.
pub proof fn lemma_release_before_drop(s: Session, ev: Event, t: Session, a: Action)
    requires
        s.wf(),
        step_spec(s, ev, t, a),
    ensures
        s.transport is Some && t.transport != s.transport ==> s.phase is Releasing,
        t.phase is Releasing && !(s.phase is Releasing) ==> t.transport is Some && a
            == Action::Release(t.transport->0),
        s.phase is Releasing && t.phase is Releasing ==> t == s,
{
}

/// When the shared-memory regions cannot be created, they are released and
/// the payload is staged in files instead; no region stays held.
pub proof fn lemma_region_failure_falls_back(
    s: Session,
    m: String,
    t: Session,
    a: Action,
    u: Session,
    b: Action,
)
    requires
        s.wf(),
        s.phase is CreatingRegions,
        frameable(s.request.payload@),
        step_spec(s, Event::Fault(m), t, a),
        step_spec(t, Event::Completed, u, b),
    ensures
        s.transport matches Some(Transport::Shmem { .. }),
        a == Action::Release(s.transport->0),
        u.phase is StagingFiles,
        u.transport matches Some(tr) && is_file_plan(tr, s.config.work_dir@, s.request.request_id@),
        b matches Action::StageFiles { frame: f, .. } && f@ == frame(s.request.payload@),
{
}

/// A worker that closes its output while a command is in flight is killed,
/// the transport is released, and the request starts over once, from a new
/// transport and a freshly spawned worker.
pub proof fn lemma_closed_output_retries_once(
    s: Session,
    t1: Session,
    a1: Action,
    t2: Session,
    a2: Action,
    t3: Session,
    a3: Action,
    t4: Session,
    a4: Action,
)
    requires
        s.wf(),
        s.phase is Awaiting,
        s.retries_left == 1,
        step_spec(s, Event::Closed, t1, a1),
        step_spec(t1, Event::Completed, t2, a2),
        step_spec(t2, Event::Completed, t3, a3),
        step_spec(t3, Event::Completed, t4, a4),
    ensures
        a1 is Kill,
        a2 == Action::Release(s.transport->0),
        a3 is CreateRegions,
        t3.retries_left == 0,
        t3.request == s.request,
        a4 is Spawn,
        t4.worker is Starting,
{
}

/// With the retry spent, a second closed output ends the request with the
/// protocol failure, after the worker is killed and the transport released.
pub proof fn lemma_second_failure_is_final(
    s: Session,
    t1: Session,
    a1: Action,
    t2: Session,
    a2: Action,
    t3: Session,
    a3: Action,
)
    requires
        s.wf(),
        s.phase is Awaiting,
        s.retries_left == 0,
        step_spec(s, Event::Closed, t1, a1),
        step_spec(t1, Event::Completed, t2, a2),
        step_spec(t2, Event::Completed, t3, a3),
    ensures
        a1 is Kill,
        a2 == Action::Release(s.transport->0),
        a3 == Action::Finish(Err(ExecError::Protocol(ProtocolError::Closed))),
        t3.transport is None,
        t3.worker is Absent,
{
}

/// A worker that has not announced readiness by the deadline is killed, and
/// starting it fails with a timeout.
pub proof fn lemma_handshake_deadline(
    s: Session,
    text: String,
    elapsed_ms: u64,
    t: Session,
    a: Action,
    u: Session,
    b: Action,
)
    requires
        s.wf(),
        s.phase is Handshaking,
        elapsed_ms > s.config.handshake_timeout_ms,
        step_spec(s, Event::Line { text, elapsed_ms }, t, a),
        step_spec(t, Event::Completed, u, b),
    ensures
        a is Kill,
        u.worker is Absent,
        u.phase == Phase::Releasing(outcome_of(s, ExecError::Spawn(SpawnError::Timeout))),
{
}

/// A worker that stays silent past the deadline is killed too: a bounded wait
/// that ends with no line after the deadline fails the start with a timeout,
/// and one that ends before it waits again.
pub proof fn lemma_handshake_silent_deadline(
    s: Session,
    elapsed_ms: u64,
    t: Session,
    a: Action,
    u: Session,
    b: Action,
)
    requires
        s.wf(),
        s.phase is Handshaking,
        step_spec(s, Event::NoLine { elapsed_ms }, t, a),
        step_spec(t, Event::Completed, u, b),
    ensures
        elapsed_ms > s.config.handshake_timeout_ms ==> a is Kill && u.worker is Absent && u.phase
            == Phase::Releasing(outcome_of(s, ExecError::Spawn(SpawnError::Timeout))),
        elapsed_ms <= s.config.handshake_timeout_ms ==> t == s && a is ReadHandshakeLine,
{
}

/// Whether `ev` is a handshake read, with or without a line, that ended after
/// `limit` milliseconds.
pub open spec fn past_deadline(ev: Event, limit: u64) -> bool {
    match ev {
        Event::NoLine { elapsed_ms } => elapsed_ms > limit,
        Event::Line { elapsed_ms, .. } => elapsed_ms > limit,
        _ => false,
    }
}

/// A worker started ahead of any request that stays silent, or prints only
/// other lines, past the deadline is killed, and starting it fails with a
/// timeout, leaving no worker held.
pub proof fn lemma_start_deadline(s: Session, ev: Event, t: Session, a: Action, u: Session, b: Action)
    requires
        s.wf(),
        s.phase is StartHandshaking,
        past_deadline(ev, s.config.handshake_timeout_ms),
        step_spec(s, ev, t, a),
        step_spec(t, Event::Completed, u, b),
    ensures
        a is Kill,
        b == Action::Finish(Err(ExecError::Spawn(SpawnError::Timeout))),
        u.worker is Absent,
        u.phase is Idle,
{
}

/// A worker whose output closes before it announces readiness is killed, and
/// starting it fails.
pub proof fn lemma_handshake_closed(s: Session, t: Session, a: Action, u: Session, b: Action)
    requires
        s.wf(),
        s.phase is Handshaking,
        step_spec(s, Event::Closed, t, a),
        step_spec(t, Event::Completed, u, b),
    ensures
        a is Kill,
        u.worker is Absent,
        u.phase == Phase::Releasing(outcome_of(s, ExecError::Spawn(SpawnError::Exited))),
{
}

/// The output region is never read past its capacity.
pub proof fn lemma_region_read_within_capacity(s: Session, ev: Event, t: Session, a: Action)
    requires
        s.wf(),
        step_spec(s, ev, t, a),
        a is ReadRegion,
    ensures
        s.transport matches Some(Transport::Shmem { output_capacity, .. }) && a->length
            <= output_capacity,
{
}

/// At most one command is in flight: none is sent while the worker is busy,
/// and the worker is busy once one is sent.
pub proof fn lemma_one_command_in_flight(s: Session, ev: Event, t: Session, a: Action)
    requires
        s.wf(),
        step_spec(s, ev, t, a),
    ensures
        a is Send ==> !(s.worker is Busy) && t.worker is Busy,
        s.worker is Busy ==> !(a is Send),
{
}

/// The line a worker sends when its result has `n` bytes.
pub open spec fn done_line(n: nat) -> Seq<char> {
    done_token() + seq![' '] + decimal(n) + seq!['\n']
}

proof fn lemma_done_line_announces(n: usize)
    ensures
        has_prefix(trim(done_line(n as nat)), done_token()),
        announced_length(trim(done_line(n as nat))) == n,
{
    let l = done_line(n as nat);
    let d = decimal(n as nat);
    lemma_decimal_digits(n as nat);
    assert(l[0] == 'D');
    assert(leading_space(l) == 0);
    assert(l.subrange(0, l.len() as int) =~= l);
    let body = l.drop_last();
    assert(body =~= done_token() + seq![' '] + d);
    assert(body.last() == d.last());
    assert(is_space(l.last()));
    assert(l.drop_last() == body);
    assert(!is_space(body.last()));
    assert(trailing_space(body) == 0);
    assert(trailing_space(l) == 1);
    let t = trim(l);
    assert(t =~= body);
    let p = done_token().push(' ');
    assert(t.subrange(0, 4) =~= done_token());
    assert(t.subrange(0, 5) =~= p);
    let rest = t.subrange(5, t.len() as int);
    assert(rest =~= d);
    assert(!is_space(d[0]));
    assert(leading_space(d) == 0);
    assert(trailing_space(d) == 0) by {
        assert(!is_space(d.last()));
    }
    assert(trim(d) =~= d) by {
        assert(d.subrange(0, d.len() as int) =~= d);
    }
    lemma_parse_decimal(n);
}

/// A payload echoed back through shared memory comes back whole: the worker
/// announces its length, which fits the output region, so exactly that many
/// bytes are read, and those bytes are the result.
pub proof fn lemma_region_echo(
    s: Session,
    p: Seq<u8>,
    text: String,
    elapsed_ms: u64,
    t: Session,
    a: Action,
    b: Vec<u8>,
    u: Session,
    c: Action,
)
    requires
        s.wf(),
        s.phase is Awaiting,
        s.transport matches Some(Transport::Shmem { output_capacity, .. }) && p.len()
            <= output_capacity,
        text@ == done_line(p.len()),
        step_spec(s, Event::Line { text, elapsed_ms }, t, a),
        b@ == p,
        step_spec(t, Event::Bytes(b), u, c),
    ensures
        a == (Action::ReadRegion { length: p.len() as usize }),
        (u.phase matches Phase::Releasing(Outcome::Return(Ok(x))) && x@ == p),
{
    lemma_done_line_announces(p.len() as usize);
}

/// A payload echoed back through files comes back whole: the worker's output
/// file holds the framed payload, and reading it back gives the payload.
pub proof fn lemma_file_echo(s: Session, p: Seq<u8>, b: Vec<u8>, t: Session, a: Action)
    requires
        s.wf(),
        s.phase is ReadingResult,
        s.transport matches Some(Transport::File { .. }),
        frameable(p),
        b@ == frame(p),
        step_spec(s, Event::Bytes(b), t, a),
    ensures
        (t.phase matches Phase::Releasing(Outcome::Return(Ok(x))) && x@ == p),
{
    lemma_frame_round_trip(p);
}

/// A run of the session: each state goes to the next on its event, handing
/// out the action at the same index.
pub open spec fn runs(ss: Seq<Session>, evs: Seq<Event>, aa: Seq<Action>) -> bool {
    &&& ss.len() == evs.len() + 1
    &&& aa.len() == evs.len()
    &&& forall|i: int| 0 <= i < evs.len() ==> step_spec(ss[i], #[trigger] evs[i], ss[i + 1], aa[i])
}

/// The line a worker sends once it is ready.
pub open spec fn ready_line() -> Seq<char> {
    ready_token().push('\n')
}

proof fn lemma_ready_line()
    ensures
        is_ready(ready_line()),
{
    let l = ready_line();
    assert(l[0] == 'R');
    assert(leading_space(l) == 0);
    assert(l.subrange(0, l.len() as int) =~= l);
    let body = l.drop_last();
    assert(body =~= ready_token());
    assert(is_space(l.last()));
    assert(!is_space(body.last()));
    assert(trailing_space(body) == 0);
    assert(trailing_space(l) == 1);
    assert(trim(l) =~= ready_token());
}

/// A fresh attempt over shared memory, with no worker held, completes with
/// the echoed payload: the worker is spawned, announces readiness in time,
/// receives the command, announces the payload's length, and the bytes read
/// back from the output region are the request's result.
pub proof fn lemma_region_course(ss: Seq<Session>, evs: Seq<Event>, aa: Seq<Action>, p: Seq<u8>)
    requires
        runs(ss, evs, aa),
        evs.len() == 6,
        ss[0].wf(),
        ss[0].phase is CreatingRegions,
        ss[0].worker is Absent,
        ss[0].request.payload@ == p,
        ss[0].transport matches Some(Transport::Shmem { output_capacity, .. }) && p.len()
            <= output_capacity,
        evs[0] == Event::Completed,
        evs[1] == Event::Completed,
        evs[2] matches Event::Line { text, elapsed_ms } && text@ == ready_line() && elapsed_ms
            <= ss[0].config.handshake_timeout_ms,
        evs[3] matches Event::Line { text, .. } && text@ == done_line(p.len()),
        evs[4] matches Event::Bytes(b) && b@ == p,
        evs[5] == Event::Completed,
    ensures
        aa[0] is Spawn,
        aa[2] is Send,
        aa[3] == (Action::ReadRegion { length: p.len() as usize }),
        aa[4] == Action::Release(ss[0].transport->0),
        (aa[5] matches Action::Finish(Ok(x)) && x@ == p),
        ss[6].transport is None,
        ss[6].worker is Ready,
        ss[6].phase is Idle,
{
    lemma_ready_line();
    lemma_done_line_announces(p.len() as usize);
    assert(step_spec(ss[0], evs[0], ss[1], aa[0]));
    assert(step_spec(ss[1], evs[1], ss[2], aa[1]));
    assert(step_spec(ss[2], evs[2], ss[3], aa[2]));
    assert(step_spec(ss[3], evs[3], ss[4], aa[3]));
    assert(step_spec(ss[4], evs[4], ss[5], aa[4]));
    assert(step_spec(ss[5], evs[5], ss[6], aa[5]));
}

/// The same request over files, once the regions cannot be created,
/// completes with the same payload: the regions are released, the framed
/// payload is staged, the worker is spawned and announces readiness, and
/// reading back its framed output file gives the payload.
pub proof fn lemma_file_course(ss: Seq<Session>, evs: Seq<Event>, aa: Seq<Action>, p: Seq<u8>)
    requires
        runs(ss, evs, aa),
        evs.len() == 8,
        ss[0].wf(),
        ss[0].phase is CreatingRegions,
        ss[0].worker is Absent,
        ss[0].request.payload@ == p,
        frameable(p),
        evs[0] is Fault,
        evs[1] == Event::Completed,
        evs[2] == Event::Completed,
        evs[3] == Event::Completed,
        evs[4] matches Event::Line { text, elapsed_ms } && text@ == ready_line() && elapsed_ms
            <= ss[0].config.handshake_timeout_ms,
        evs[5] matches Event::Line { text, .. } && has_prefix(trim(text@), done_token()),
        evs[6] matches Event::Bytes(b) && b@ == frame(p),
        evs[7] == Event::Completed,
    ensures
        aa[0] == Action::Release(ss[0].transport->0),
        (aa[1] matches Action::StageFiles { frame: f, .. } && f@ == frame(p)),
        aa[2] is Spawn,
        aa[4] is Send,
        aa[5] is ReadFile,
        aa[6] is Release,
        (aa[7] matches Action::Finish(Ok(x)) && x@ == p),
        ss[8].transport is None,
        ss[8].phase is Idle,
{
    lemma_ready_line();
    lemma_frame_round_trip(p);
    assert(step_spec(ss[0], evs[0], ss[1], aa[0]));
    assert(step_spec(ss[1], evs[1], ss[2], aa[1]));
    assert(step_spec(ss[2], evs[2], ss[3], aa[2]));
    assert(step_spec(ss[3], evs[3], ss[4], aa[3]));
    assert(step_spec(ss[4], evs[4], ss[5], aa[4]));
    assert(step_spec(ss[5], evs[5], ss[6], aa[5]));
    assert(step_spec(ss[6], evs[6], ss[7], aa[6]));
    assert(step_spec(ss[7], evs[7], ss[8], aa[7]));
}

/// A first worker that closes its output mid-response is followed by exactly
/// one respawn: the worker is killed, the transport released, the request
/// staged anew with the retry spent, and a second worker that echoes
/// completes it with the payload.
pub proof fn lemma_retry_then_echo(ss: Seq<Session>, evs: Seq<Event>, aa: Seq<Action>, p: Seq<u8>)
    requires
        runs(ss, evs, aa),
        evs.len() == 9,
        ss[0].wf(),
        ss[0].phase is Awaiting,
        ss[0].retries_left == 1,
        ss[0].request.payload@ == p,
        p.len() <= ss[0].config.output_capacity,
        evs[0] == Event::Closed,
        evs[1] == Event::Completed,
        evs[2] == Event::Completed,
        evs[3] == Event::Completed,
        evs[4] == Event::Completed,
        evs[5] matches Event::Line { text, elapsed_ms } && text@ == ready_line() && elapsed_ms
            <= ss[0].config.handshake_timeout_ms,
        evs[6] matches Event::Line { text, .. } && text@ == done_line(p.len()),
        evs[7] matches Event::Bytes(b) && b@ == p,
        evs[8] == Event::Completed,
    ensures
        aa[0] is Kill,
        aa[1] == Action::Release(ss[0].transport->0),
        aa[2] is CreateRegions,
        aa[3] is Spawn,
        forall|i: int| 4 <= i < 9 ==> !(#[trigger] aa[i] is Spawn) && !(aa[i] is Kill),
        (aa[8] matches Action::Finish(Ok(x)) && x@ == p),
        ss[9].retries_left == 0,
        ss[9].worker is Ready,
        ss[9].transport is None,
{
    assert(step_spec(ss[0], evs[0], ss[1], aa[0]));
    assert(step_spec(ss[1], evs[1], ss[2], aa[1]));
    assert(step_spec(ss[2], evs[2], ss[3], aa[2]));
    let ss2 = ss.subrange(3, 10);
    let evs2 = evs.subrange(3, 9);
    let aa2 = aa.subrange(3, 9);
    assert forall|i: int| 0 <= i < evs2.len() implies step_spec(
        ss2[i],
        #[trigger] evs2[i],
        ss2[i + 1],
        aa2[i],
    ) by {
        assert(evs2[i] == evs[i + 3]);
        assert(step_spec(ss[i + 3], evs[i + 3], ss[i + 4], aa[i + 3]));
    }
    lemma_step_keeps_wf(ss[0], evs[0], ss[1], aa[0]);
    lemma_step_keeps_wf(ss[1], evs[1], ss[2], aa[1]);
    lemma_step_keeps_wf(ss[2], evs[2], ss[3], aa[2]);
    lemma_region_course(ss2, evs2, aa2, p);
    assert forall|i: int| 4 <= i < 9 implies !(#[trigger] aa[i] is Spawn) && !(aa[i] is Kill) by {
        assert(aa[i] == aa2[i - 3]);
    }
}

} // verus!
