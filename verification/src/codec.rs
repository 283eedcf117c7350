use vstd::prelude::*;

verus! {

/// Maximum message payload size: 16 MiB.
pub const MAX_MESSAGE_SIZE: u32 = 16777216;

#[verifier::external_type_specification]
#[verifier::external_body]
pub struct ExIoError(std::io::Error);

#[verifier::external_type_specification]
#[verifier::external_body]
pub struct ExJsonError(serde_json::Error);

/// Why a message could not be sent or received.
#[derive(Debug)]
pub enum CodecError {
    Io(std::io::Error),
    Serialize(serde_json::Error),
    Deserialize(serde_json::Error),
    /// The payload length exceeds `MAX_MESSAGE_SIZE`.
    MessageTooLarge(u32),
}

/// The four big-endian bytes of `n`.
pub open spec fn spec_be_bytes(n: u32) -> Seq<u8> {
    seq![
        (n / 0x100_0000) as u8,
        ((n / 0x1_0000) % 0x100) as u8,
        ((n / 0x100) % 0x100) as u8,
        (n % 0x100) as u8,
    ]
}

/// The number that four big-endian bytes spell.
pub open spec fn spec_from_be(b0: u8, b1: u8, b2: u8, b3: u8) -> int {
    b0 * 0x100_0000 + b1 * 0x1_0000 + b2 * 0x100 + b3
}

pub proof fn lemma_be_round_trip(n: u32)
    ensures
        spec_from_be(spec_be_bytes(n)[0], spec_be_bytes(n)[1], spec_be_bytes(n)[2], spec_be_bytes(n)[3])
            == n,
{
    let b = spec_be_bytes(n);
    assert(b[0] == n / 0x100_0000);
    assert(b[1] == (n / 0x1_0000) % 0x100);
    assert(b[2] == (n / 0x100) % 0x100);
    assert(b[3] == n % 0x100);
    assert((n / 0x100_0000) * 0x100_0000 + ((n / 0x1_0000) % 0x100) * 0x1_0000 + ((n / 0x100)
        % 0x100) * 0x100 + n % 0x100 == n) by (nonlinear_arith)
        requires
            n <= 0xffff_ffff,
    {
        let q1 = n / 0x100;
        let q2 = q1 / 0x100;
        let q3 = q2 / 0x100;
        assert(n == q1 * 0x100 + n % 0x100);
        assert(q1 == q2 * 0x100 + q1 % 0x100);
        assert(q2 == q3 * 0x100 + q2 % 0x100);
        assert(n / 0x1_0000 == q2);
        assert(n / 0x100_0000 == q3);
        assert(q3 < 0x100);
    }
}

/// The length prefix of a payload of `len` bytes: its length, as a `u32`.
pub open spec fn spec_prefix_value(len: nat) -> u32 {
    (len % 0x1_0000_0000) as u32
}

/// A framed message: the payload length as four big-endian bytes, then the
/// payload.
pub open spec fn spec_frame(payload: Seq<u8>) -> Seq<u8> {
    spec_be_bytes(spec_prefix_value(payload.len())) + payload
}

/// Frame a JSON payload for the wire: `[4 bytes: payload length, big-endian
/// u32][payload]`. A payload whose length (taken as a `u32`) exceeds
/// `MAX_MESSAGE_SIZE` is refused.
pub fn frame_payload(json: &[u8]) -> (r: Result<Vec<u8>, CodecError>)
    ensures
        spec_prefix_value(json@.len()) > MAX_MESSAGE_SIZE ==> (r matches Err(
            CodecError::MessageTooLarge(n),
        ) && n == spec_prefix_value(json@.len())),
        spec_prefix_value(json@.len()) <= MAX_MESSAGE_SIZE ==> (r matches Ok(v) && v@ == spec_frame(
            json@,
        )),
{
    let len: u32 = ((json.len() as u64) % 0x1_0000_0000) as u32;
    if len > MAX_MESSAGE_SIZE {
        return Err(CodecError::MessageTooLarge(len));
    }
    let mut buf: Vec<u8> = Vec::new();
    buf.push((len / 0x100_0000) as u8);
    buf.push(((len / 0x1_0000) % 0x100) as u8);
    buf.push(((len / 0x100) % 0x100) as u8);
    buf.push((len % 0x100) as u8);
    assert(buf@ =~= spec_be_bytes(len));
    let mut i: usize = 0;
    while i < json.len()
        invariant
            i <= json@.len(),
            buf@ == spec_be_bytes(len) + json@.subrange(0, i as int),
        decreases json.len() - i,
    {
        buf.push(json[i]);
        assert(buf@ =~= spec_be_bytes(len) + json@.subrange(0, i + 1));
        i = i + 1;
    }
    assert(json@.subrange(0, json@.len() as int) =~= json@);
    Ok(buf)
}

/// What the start of a byte buffer holds.
#[derive(Debug, Clone, Copy, PartialEq, Eq, Structural)]
pub enum FrameRead {
    /// Fewer bytes than the prefix, or than the length it announces.
    Incomplete,
    /// The prefix announces a payload over `MAX_MESSAGE_SIZE`.
    TooLarge(u32),
    /// A whole message: its payload is `buf[4..4 + len]`.
    Complete { len: u32 },
}

/// How `spec_read_frame` reads the start of `buf`.
pub open spec fn spec_read_frame(buf: Seq<u8>) -> FrameRead {
    if buf.len() < 4 {
        FrameRead::Incomplete
    } else {
        let n = spec_from_be(buf[0], buf[1], buf[2], buf[3]);
        if n > MAX_MESSAGE_SIZE {
            FrameRead::TooLarge(n as u32)
        } else if buf.len() - 4 < n {
            FrameRead::Incomplete
        } else {
            FrameRead::Complete { len: n as u32 }
        }
    }
}

/// Read the length prefix at the start of `buf` and say whether a whole
/// message is there.
pub fn read_frame(buf: &[u8]) -> (r: FrameRead)
    ensures
        r == spec_read_frame(buf@),
{
    if buf.len() < 4 {
        return FrameRead::Incomplete;
    }
    let n: u32 = decode_length(buf[0], buf[1], buf[2], buf[3]);
    if n > MAX_MESSAGE_SIZE {
        FrameRead::TooLarge(n)
    } else if buf.len() - 4 < n as usize {
        FrameRead::Incomplete
    } else {
        FrameRead::Complete { len: n }
    }
}

/// `u32::from_be_bytes`.
pub fn decode_length(b0: u8, b1: u8, b2: u8, b3: u8) -> (n: u32)
    ensures
        n == spec_from_be(b0, b1, b2, b3),
{
    assert(spec_from_be(b0, b1, b2, b3) <= 0xffff_ffff) by (nonlinear_arith)
        requires
            b0 <= 255,
            b1 <= 255,
            b2 <= 255,
            b3 <= 255,
    ;
    (b0 as u32) * 0x100_0000 + (b1 as u32) * 0x1_0000 + (b2 as u32) * 0x100 + (b3 as u32)
}

/// The payload length that a 4-byte prefix announces, refused when it
/// exceeds `MAX_MESSAGE_SIZE`.
pub fn payload_length(b0: u8, b1: u8, b2: u8, b3: u8) -> (r: Result<u32, CodecError>)
    ensures
        spec_from_be(b0, b1, b2, b3) <= MAX_MESSAGE_SIZE ==> (r matches Ok(n) && n == spec_from_be(
            b0,
            b1,
            b2,
            b3,
        )),
        spec_from_be(b0, b1, b2, b3) > MAX_MESSAGE_SIZE ==> (r matches Err(
            CodecError::MessageTooLarge(n),
        ) && n == spec_from_be(b0, b1, b2, b3)),
{
    let n = decode_length(b0, b1, b2, b3);
    if n > MAX_MESSAGE_SIZE {
        Err(CodecError::MessageTooLarge(n))
    } else {
        Ok(n)
    }
}

/// A framed message reads back as itself, whatever follows it in the
/// stream: the prefix announces the payload's length and the payload
/// follows it unchanged.
pub proof fn lemma_frame_round_trip(payload: Seq<u8>, rest: Seq<u8>)
    requires
        payload.len() <= MAX_MESSAGE_SIZE,
    ensures
        spec_read_frame(spec_frame(payload) + rest) == (FrameRead::Complete { len: payload.len() as u32 }),
        (spec_frame(payload) + rest).subrange(4, 4 + payload.len() as int) == payload,
        (spec_frame(payload) + rest).subrange(4 + payload.len() as int, (spec_frame(payload) + rest).len() as int)
            == rest,
{
    let n = spec_prefix_value(payload.len());
    assert(n == payload.len());
    lemma_be_round_trip(n);
    let b = spec_frame(payload) + rest;
    assert(b[0] == spec_be_bytes(n)[0]);
    assert(b[1] == spec_be_bytes(n)[1]);
    assert(b[2] == spec_be_bytes(n)[2]);
    assert(b[3] == spec_be_bytes(n)[3]);
    assert(b.subrange(4, 4 + payload.len() as int) =~= payload);
    assert(b.subrange(4 + payload.len() as int, b.len() as int) =~= rest);
}

/// Fills `buf` from `reader` with `std::io::Read::read_exact`. Claimed:
/// the buffer keeps its length; nothing about the bytes read, which come
/// from the reader.
#[verifier::external_body]
fn fill_exact<R: std::io::Read>(reader: &mut R, buf: &mut Vec<u8>) -> (r: Result<(), std::io::Error>)
    ensures
        final(buf)@.len() == old(buf)@.len(),
{
    reader.read_exact(buf.as_mut_slice())
}

/// Read exactly `n` bytes from a synchronous reader.
pub fn read_exact<R: std::io::Read>(reader: &mut R, n: usize) -> (r: Result<Vec<u8>, CodecError>)
    ensures
        r matches Ok(v) ==> v@.len() == n,
        r matches Err(e) ==> e is Io,
{
    let mut buf: Vec<u8> = Vec::new();
    let mut i: usize = 0;
    while i < n
        invariant
            i <= n,
            buf@.len() == i,
        decreases n - i,
    {
        buf.push(0u8);
        i = i + 1;
    }
    match fill_exact(reader, &mut buf) {
        Ok(()) => Ok(buf),
        Err(e) => Err(CodecError::Io(e)),
    }
}

/// Read one length-prefixed message from a synchronous reader and return
/// its payload: a prefix that announces more than `MAX_MESSAGE_SIZE` bytes
/// is refused before the payload is read.
pub fn read_payload<R: std::io::Read>(reader: &mut R) -> (r: Result<Vec<u8>, CodecError>)
    ensures
        r matches Ok(v) ==> v@.len() <= MAX_MESSAGE_SIZE,
        r matches Err(CodecError::MessageTooLarge(n)) ==> n > MAX_MESSAGE_SIZE,
        !(r matches Err(CodecError::Serialize(_))) && !(r matches Err(CodecError::Deserialize(_))),
{
    let prefix = read_exact(reader, 4)?;
    let n = payload_length(prefix[0], prefix[1], prefix[2], prefix[3])?;
    read_exact(reader, n as usize)
}

} // verus!
