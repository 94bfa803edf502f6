//! The two payload transports: a pair of named shared-memory regions, or a
//! pair of length-prefixed files in the work directory.
use vstd::prelude::*;

verus! {

/// Default capacity of the output region: one mebibyte.
pub const OUTPUT_CAPACITY: usize = 1048576;

/// How many characters of the request id go into region names.
pub const ID_PREFIX_LEN: usize = 8;

/// The resources that carry one request's payload and result.
#[derive(Debug, PartialEq, Eq)]
pub enum Transport {
    /// Shared memory: the payload in a region of exactly its size, the result
    /// in a region of fixed capacity.
    Shmem { input_name: String, input_size: usize, output_name: String, output_capacity: usize },
    /// Files: the payload and the result each behind a 4-byte big-endian length.
    File { input_path: String, output_path: String },
}

impl Transport {
    /// An equal copy.
    pub fn duplicate(&self) -> (r: Transport)
        ensures
            r == *self,
    {
        match self {
            Transport::Shmem { input_name, input_size, output_name, output_capacity } => {
                Transport::Shmem {
                    input_name: input_name.clone(),
                    input_size: *input_size,
                    output_name: output_name.clone(),
                    output_capacity: *output_capacity,
                }
            },
            Transport::File { input_path, output_path } => Transport::File {
                input_path: input_path.clone(),
                output_path: output_path.clone(),
            },
        }
    }
}

/// The short prefix of a request id that names its regions.
pub open spec fn id_prefix(request_id: Seq<char>) -> Seq<char> {
    if request_id.len() <= ID_PREFIX_LEN {
        request_id
    } else {
        request_id.subrange(0, ID_PREFIX_LEN as int)
    }
}

pub open spec fn region_stem() -> Seq<char> {
    seq!['j', 'p', 'y', 'r', 'u', 's', 't', '_']
}

pub open spec fn output_marker() -> Seq<char> {
    seq!['o', 'u', 't', '_']
}

/// Name of the input region: `jpyrust_<session key>_<id prefix>`.
pub open spec fn input_region_name(session_key: Seq<char>, request_id: Seq<char>) -> Seq<char> {
    region_stem() + session_key + seq!['_'] + id_prefix(request_id)
}

/// Name of the output region: `jpyrust_out_<session key>_<id prefix>`.
pub open spec fn output_region_name(session_key: Seq<char>, request_id: Seq<char>) -> Seq<char> {
    region_stem() + output_marker() + session_key + seq!['_'] + id_prefix(request_id)
}

/// Path of the input file: `<work dir>/input_<request id>.dat`.
pub open spec fn input_file_path(work_dir: Seq<char>, request_id: Seq<char>) -> Seq<char> {
    work_dir + seq!['/', 'i', 'n', 'p', 'u', 't', '_'] + request_id + seq!['.', 'd', 'a', 't']
}

/// Path of the output file: `<work dir>/output_<request id>.dat`.
pub open spec fn output_file_path(work_dir: Seq<char>, request_id: Seq<char>) -> Seq<char> {
    work_dir + seq!['/', 'o', 'u', 't', 'p', 'u', 't', '_'] + request_id + seq!['.', 'd', 'a', 't']
}

/// The shared-memory transport for a request: names, payload size and capacity.
pub open spec fn is_shmem_plan(
    t: Transport,
    session_key: Seq<char>,
    request_id: Seq<char>,
    payload_len: nat,
    capacity: usize,
) -> bool {
    &&& t matches Transport::Shmem { input_name, input_size, output_name, output_capacity }
    &&& input_name@ == input_region_name(session_key, request_id)
    &&& input_size == payload_len
    &&& output_name@ == output_region_name(session_key, request_id)
    &&& output_capacity == capacity
}

/// The file transport for a request.
pub open spec fn is_file_plan(t: Transport, work_dir: Seq<char>, request_id: Seq<char>) -> bool {
    &&& t matches Transport::File { input_path, output_path }
    &&& input_path@ == input_file_path(work_dir, request_id)
    &&& output_path@ == output_file_path(work_dir, request_id)
}

/// Plans the shared-memory transport of a request.
pub fn shmem_plan(session_key: &str, request_id: &str, payload_len: usize, capacity: usize) -> (r: Transport)
    ensures
        is_shmem_plan(r, session_key@, request_id@, payload_len as nat, capacity),
{
    let n = request_id.unicode_len();
    let k = if n <= ID_PREFIX_LEN {
        n
    } else {
        ID_PREFIX_LEN
    };
    let prefix = request_id.substring_char(0, k);
    assert(prefix@ =~= id_prefix(request_id@));
    proof {
        reveal_strlit("jpyrust_");
        reveal_strlit("out_");
        reveal_strlit("_");
    }
    let mut input_name = String::from_str("jpyrust_");
    input_name.append(session_key);
    input_name.append("_");
    input_name.append(prefix);
    let mut output_name = String::from_str("jpyrust_");
    output_name.append("out_");
    output_name.append(session_key);
    output_name.append("_");
    output_name.append(prefix);
    assert(input_name@ =~= input_region_name(session_key@, request_id@));
    assert(output_name@ =~= output_region_name(session_key@, request_id@));
    Transport::Shmem { input_name, input_size: payload_len, output_name, output_capacity: capacity }
}

/// Plans the file transport of a request.
pub fn file_plan(work_dir: &str, request_id: &str) -> (r: Transport)
    ensures
        is_file_plan(r, work_dir@, request_id@),
{
    proof {
        reveal_strlit("/input_");
        reveal_strlit("/output_");
        reveal_strlit(".dat");
    }
    let mut input_path = String::from_str(work_dir);
    input_path.append("/input_");
    input_path.append(request_id);
    input_path.append(".dat");
    let mut output_path = String::from_str(work_dir);
    output_path.append("/output_");
    output_path.append(request_id);
    output_path.append(".dat");
    assert(input_path@ =~= input_file_path(work_dir@, request_id@));
    assert(output_path@ =~= output_file_path(work_dir@, request_id@));
    Transport::File { input_path, output_path }
}

/// The 4-byte big-endian encoding of `n < 2^32`.
pub open spec fn be32(n: nat) -> Seq<u8> {
    seq![
        ((n / 0x1000000) % 0x100) as u8,
        ((n / 0x10000) % 0x100) as u8,
        ((n / 0x100) % 0x100) as u8,
        (n % 0x100) as u8,
    ]
}

/// The number that 4 big-endian bytes hold.
pub open spec fn be32_value(b: Seq<u8>) -> nat {
    (b[0] * 0x1000000 + b[1] * 0x10000 + b[2] * 0x100 + b[3]) as nat
}

/// A payload behind its length header.
pub open spec fn frame(p: Seq<u8>) -> Seq<u8> {
    be32(p.len()) + p
}

/// The payload of a length-prefixed byte sequence: the header's count of
/// bytes after it. Bytes past them are ignored; too few bytes give `None`.
pub open spec fn unframe(b: Seq<u8>) -> Option<Seq<u8>> {
    if b.len() >= 4 && 4 + be32_value(b) <= b.len() {
        Some(b.subrange(4, 4 + be32_value(b) as int))
    } else {
        None
    }
}

/// Whether a payload's length fits the 4-byte header.
pub open spec fn frameable(p: Seq<u8>) -> bool {
    p.len() <= u32::MAX
}

/// The payload behind its length header, or `None` when its length does not
/// fit in 4 bytes.
pub fn encode_frame(p: &Vec<u8>) -> (r: Option<Vec<u8>>)
    ensures
        r is Some <==> frameable(p@),
        r matches Some(f) ==> f@ == frame(p@),
{
    if p.len() > 0xffff_ffff {
        return None;
    }
    let n = p.len();
    let mut out: Vec<u8> = Vec::new();
    out.push(((n / 0x1000000) % 0x100) as u8);
    out.push(((n / 0x10000) % 0x100) as u8);
    out.push(((n / 0x100) % 0x100) as u8);
    out.push((n % 0x100) as u8);
    assert(out@ =~= be32(n as nat));
    let mut i: usize = 0;
    while i < n
        invariant
            n == p.len(),
            i <= n,
            out@ == be32(n as nat) + p@.subrange(0, i as int),
        decreases n - i,
    {
        out.push(p[i]);
        assert(p@.subrange(0, i + 1) =~= p@.subrange(0, i as int).push(p@[i as int]));
        i = i + 1;
    }
    assert(p@.subrange(0, n as int) =~= p@);
    Some(out)
}

/// The payload of a length-prefixed byte sequence.
pub fn decode_frame(b: &Vec<u8>) -> (r: Option<Vec<u8>>)
    ensures
        match r {
            Some(x) => unframe(b@) == Some(x@),
            None => unframe(b@) is None,
        },
{
    if b.len() < 4 {
        return None;
    }
    let n: u64 = (b[0] as u64) * 0x1000000 + (b[1] as u64) * 0x10000 + (b[2] as u64) * 0x100 + (b[3] as u64);
    assert(n == be32_value(b@));
    if n > (b.len() - 4) as u64 {
        return None;
    }
    let end: usize = 4 + n as usize;
    let mut out: Vec<u8> = Vec::new();
    let mut i: usize = 4;
    while i < end
        invariant
            4 <= i <= end <= b.len(),
            out@ == b@.subrange(4, i as int),
        decreases end - i,
    {
        out.push(b[i]);
        assert(b@.subrange(4, i + 1) =~= b@.subrange(4, i as int).push(b@[i as int]));
        i = i + 1;
    }
    Some(out)
}

proof fn lemma_be32_round_trip(n: u32)
    ensures
        be32_value(be32(n as nat)) == n,
{
    let a = (n / 0x1000000) % 0x100;
    let b = (n / 0x10000) % 0x100;
    let c = (n / 0x100) % 0x100;
    let d = n % 0x100;
    assert(a * 0x1000000 + b * 0x10000 + c * 0x100 + d == n) by (bit_vector)
        requires
            a == (n / 0x1000000) % 0x100,
            b == (n / 0x10000) % 0x100,
            c == (n / 0x100) % 0x100,
            d == n % 0x100,
    ;
}

/// Reading back a framed payload gives the payload.
pub proof fn lemma_frame_round_trip(p: Seq<u8>)
    requires
        frameable(p),
    ensures
        unframe(frame(p)) == Some(p),
{
    lemma_be32_round_trip(p.len() as u32);
    let f = frame(p);
    assert(f.subrange(0, 4) =~= be32(p.len()));
    assert(be32_value(f) == be32_value(be32(p.len())));
    assert(f.subrange(4, 4 + p.len() as int) =~= p);
}

} // verus!
