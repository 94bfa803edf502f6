//! The line protocol spoken with the worker over its standard streams.
//!
//! The worker announces readiness with a `READY` line. Each command is one
//! line `EXECUTE <task_type> <request_id> <metadata>`, and the worker answers
//! with a terminal line `DONE [<result_length>]` or `ERROR <message>`; any
//! other line it prints meanwhile is incidental output.
use vstd::prelude::*;
use crate::text::{
    chars_of, decimal, parse_decimal, parse_decimal_spec, push_decimal, push_signed_decimal,
    signed_decimal, starts_with_at, trim, trim_bounds,
};

verus! {

pub open spec fn ready_token() -> Seq<char> {
    seq!['R', 'E', 'A', 'D', 'Y']
}

pub open spec fn done_token() -> Seq<char> {
    seq!['D', 'O', 'N', 'E']
}

pub open spec fn error_token() -> Seq<char> {
    seq!['E', 'R', 'R', 'O', 'R']
}

pub open spec fn execute_token() -> Seq<char> {
    seq!['E', 'X', 'E', 'C', 'U', 'T', 'E']
}

pub open spec fn shmem_token() -> Seq<char> {
    seq!['S', 'H', 'M', 'E', 'M']
}

pub open spec fn has_prefix(s: Seq<char>, p: Seq<char>) -> bool {
    p.len() <= s.len() && s.subrange(0, p.len() as int) == p
}

/// The command line sent for one task, newline included.
pub open spec fn execute_line(task_type: Seq<char>, request_id: Seq<char>, metadata: Seq<char>) -> Seq<char> {
    execute_token() + seq![' '] + task_type + seq![' '] + request_id + seq![' '] + metadata + seq!['\n']
}

/// The metadata field of a command whose payload travels through shared memory.
pub open spec fn shmem_metadata(
    input_name: Seq<char>,
    input_size: nat,
    output_name: Seq<char>,
    output_capacity: nat,
    metadata: Seq<char>,
) -> Seq<char> {
    shmem_token() + seq![' '] + input_name + seq![' '] + decimal(input_size) + seq![' ']
        + output_name + seq![' '] + decimal(output_capacity) + seq![' '] + metadata
}

/// Whether a line read during the handshake is the readiness signal.
pub open spec fn is_ready(line: Seq<char>) -> bool {
    trim(line) == ready_token()
}

/// The result length that a trimmed `DONE` line announces: the number after
/// `DONE `, or 0 where it is absent or not a valid length.
pub open spec fn announced_length(t: Seq<char>) -> usize {
    let p = done_token().push(' ');
    if has_prefix(t, p) {
        match parse_decimal_spec(trim(t.subrange(p.len() as int, t.len() as int))) {
            Some(n) => n,
            None => 0,
        }
    } else {
        0
    }
}

/// The message of a trimmed `ERROR` line: what follows the token, trimmed.
pub open spec fn error_message(t: Seq<char>) -> Seq<char> {
    trim(t.subrange(error_token().len() as int, t.len() as int))
}

/// A result length as the transport trusts it: lengths beyond the output
/// capacity count as an empty result.
pub open spec fn clamp_spec(length: usize, capacity: usize) -> usize {
    if length <= capacity {
        length
    } else {
        0
    }
}

/// A line read while a command is in flight.
#[derive(Debug, PartialEq, Eq)]
pub enum ResponseLine {
    /// A `DONE` line, with the length it announces (0 where none is given).
    Done { length: usize },
    /// An `ERROR` line, with its message.
    Error { message: String },
    /// Any other line: incidental output of the worker.
    Other,
}

/// What the line `line` means while a command is in flight.
pub open spec fn classified(line: Seq<char>, r: ResponseLine) -> bool {
    let t = trim(line);
    if has_prefix(t, done_token()) {
        r == ResponseLine::Done { length: announced_length(t) }
    } else if has_prefix(t, error_token()) {
        r matches ResponseLine::Error { message } && message@ == error_message(t)
    } else {
        r is Other
    }
}

fn word(s: &str) -> (r: Vec<char>)
    ensures
        r@ == s@,
{
    chars_of(s)
}

/// Whether `line` is the worker's readiness signal.
pub fn is_ready_line(line: &str) -> (r: bool)
    ensures
        r == is_ready(line@),
{
    let v = chars_of(line);
    let (lo, hi) = trim_bounds(&v);
    proof {
        reveal_strlit("READY");
    }
    let ready = word("READY");
    assert(ready@ =~= ready_token());
    let r = hi - lo == ready.len() && starts_with_at(&v, lo, hi, &ready);
    assert(r == (v@.subrange(lo as int, hi as int) =~= ready_token()));
    r
}

/// Reads a line received while a command is in flight.
pub fn classify_response(line: &str) -> (r: ResponseLine)
    ensures
        classified(line@, r),
{
    let v = chars_of(line);
    let (lo, hi) = trim_bounds(&v);
    let ghost t = trim(line@);
    assert(v@.subrange(lo as int, hi as int) == t);
    proof {
        reveal_strlit("DONE");
        reveal_strlit("ERROR");
        reveal_strlit("DONE ");
    }
    let done = word("DONE");
    let error = word("ERROR");
    assert(done@ =~= done_token());
    assert(error@ =~= error_token());
    if starts_with_at(&v, lo, hi, &done) {
        assert(t.subrange(0, 4) =~= v@.subrange(lo as int, lo + 4));
        let done_sp = word("DONE ");
        assert(done_sp@ =~= done_token().push(' '));
        let mut length: usize = 0;
        if starts_with_at(&v, lo, hi, &done_sp) {
            assert(t.subrange(0, 5) =~= v@.subrange(lo as int, lo + 5));
            let rest = slice_chars(&v, lo + 5, hi);
            assert(rest@ =~= t.subrange(5, t.len() as int));
            let (a, b) = trim_bounds(&rest);
            match parse_decimal(&rest, a, b) {
                Some(n) => {
                    length = n;
                },
                None => {},
            }
        } else {
            assert(!has_prefix(t, done_token().push(' '))) by {
                if has_prefix(t, done_token().push(' ')) {
                    assert(t.subrange(0, 5) =~= v@.subrange(lo as int, lo + 5));
                }
            }
        }
        ResponseLine::Done { length }
    } else if starts_with_at(&v, lo, hi, &error) {
        assert(t.subrange(0, 5) =~= v@.subrange(lo as int, lo + 5));
        let rest = slice_chars(&v, lo + 5, hi);
        assert(rest@ =~= t.subrange(5, t.len() as int));
        let (a, b) = trim_bounds(&rest);
        let message = String::from_str(line.substring_char(lo + 5 + a, lo + 5 + b));
        assert(message@ =~= rest@.subrange(a as int, b as int));
        ResponseLine::Error { message }
    } else {
        assert(!has_prefix(t, done_token()) && !has_prefix(t, error_token())) by {
            if has_prefix(t, done_token()) {
                assert(t.subrange(0, 4) =~= v@.subrange(lo as int, lo + 4));
            }
            if has_prefix(t, error_token()) {
                assert(t.subrange(0, 5) =~= v@.subrange(lo as int, lo + 5));
            }
        }
        ResponseLine::Other
    }
}

fn slice_chars(v: &Vec<char>, lo: usize, hi: usize) -> (r: Vec<char>)
    requires
        lo <= hi <= v.len(),
    ensures
        r@ == v@.subrange(lo as int, hi as int),
{
    let mut r: Vec<char> = Vec::new();
    let mut i: usize = lo;
    while i < hi
        invariant
            lo <= i <= hi <= v.len(),
            r@ == v@.subrange(lo as int, i as int),
        decreases hi - i,
    {
        r.push(v[i]);
        assert(r@ =~= v@.subrange(lo as int, i + 1));
        i = i + 1;
    }
    r
}

/// The number of result bytes to read back from an output region of
/// `capacity` bytes when the worker announced `length`.
pub fn clamp_result_length(length: usize, capacity: usize) -> (r: usize)
    ensures
        r == clamp_spec(length, capacity),
        r <= capacity,
{
    if length <= capacity {
        length
    } else {
        0
    }
}

/// The command line for one task.
pub fn encode_execute(task_type: &str, request_id: &str, metadata: &str) -> (r: String)
    ensures
        r@ == execute_line(task_type@, request_id@, metadata@),
{
    proof {
        reveal_strlit("EXECUTE");
        reveal_strlit(" ");
        reveal_strlit("\n");
    }
    let mut s = String::from_str("EXECUTE");
    s.append(" ");
    s.append(task_type);
    s.append(" ");
    s.append(request_id);
    s.append(" ");
    s.append(metadata);
    s.append("\n");
    assert(s@ =~= execute_line(task_type@, request_id@, metadata@));
    s
}

/// The metadata field that routes a command's payload through the named
/// shared-memory regions.
pub fn encode_shmem_metadata(
    input_name: &str,
    input_size: usize,
    output_name: &str,
    output_capacity: usize,
    metadata: &str,
) -> (r: String)
    ensures
        r@ == shmem_metadata(
            input_name@,
            input_size as nat,
            output_name@,
            output_capacity as nat,
            metadata@,
        ),
{
    proof {
        reveal_strlit("SHMEM");
        reveal_strlit(" ");
    }
    let mut s = String::from_str("SHMEM");
    s.append(" ");
    s.append(input_name);
    s.append(" ");
    push_decimal(&mut s, input_size);
    s.append(" ");
    s.append(output_name);
    s.append(" ");
    push_decimal(&mut s, output_capacity);
    s.append(" ");
    s.append(metadata);
    assert(s@ =~= shmem_metadata(
        input_name@,
        input_size as nat,
        output_name@,
        output_capacity as nat,
        metadata@,
    ));
    s
}

/// The metadata of an image task: width, height and channel count, in decimal,
/// separated by single spaces.
pub open spec fn image_metadata_text(width: int, height: int, channels: int) -> Seq<char> {
    signed_decimal(width) + seq![' '] + signed_decimal(height) + seq![' '] + signed_decimal(channels)
}

/// The metadata of an image task.
pub fn image_metadata(width: i32, height: i32, channels: i32) -> (r: String)
    ensures
        r@ == image_metadata_text(width as int, height as int, channels as int),
{
    proof {
        reveal_strlit(" ");
    }
    let mut s = String::new();
    push_signed_decimal(&mut s, width);
    s.append(" ");
    push_signed_decimal(&mut s, height);
    s.append(" ");
    push_signed_decimal(&mut s, channels);
    assert(s@ =~= image_metadata_text(width as int, height as int, channels as int));
    s
}

} // verus!
